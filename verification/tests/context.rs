use std::collections::HashMap;

use sudo_core::context::{
    AuthenticatingUser, Context, ContextAction, Error, Group, OptionsForContext, Process,
    SystemLookup, User,
};

fn run_options(args: &[&str]) -> OptionsForContext {
    OptionsForContext {
        chdir: None,
        group: None,
        login: false,
        non_interactive: false,
        positional_args: args.iter().map(|s| s.to_string()).collect(),
        reset_timestamp: false,
        shell: false,
        stdin: false,
        user: None,
        action: ContextAction::Run,
    }
}

fn user(uid: u32, gid: u32, name: &str, shell: &str) -> User {
    User {
        uid,
        gid,
        name: name.to_string(),
        home: format!("/home/{name}"),
        shell: shell.to_string(),
    }
}

fn lookup() -> SystemLookup {
    SystemLookup {
        hostname: "linux".to_string(),
        current_user: user(1000, 1000, "ferris", "/bin/bash"),
        process: Process { pid: 4242, parent_pid: 4200, group_id: 4242, session_id: 4200 },
        root_user: Some(user(0, 0, "root", "/bin/sh")),
        requested_user: None,
        requested_group: None,
        primary_group: Some(Group { gid: 0, name: "root".to_string() }),
        env_shell: None,
        resolved_command: None,
    }
}

const PATH: &str = "/usr/local/sbin:/usr/local/bin:/usr/sbin:/usr/bin:/sbin:/bin";

#[test]
fn test_build_context() {
    let options = run_options(&["echo", "hello"]);
    let mut system = lookup();
    // this assumes /bin is a symlink on /usr/bin, like it is on modern Debian/Ubuntu:
    // searching the path string for "echo" lands on /usr/bin/echo there.
    system.resolved_command = Some("/usr/bin/echo".to_string());
    let context = Context::build_from_options(
        options,
        PATH.to_string(),
        AuthenticatingUser::InvokingUser,
        system,
    )
    .unwrap();

    let mut target_environment = HashMap::new();
    target_environment.insert("SUDO_USER".to_string(), context.current_user.name.clone());

    assert_eq!(context.command.command, "/usr/bin/echo");
    assert_eq!(context.command.arguments, ["hello"]);
    assert_eq!(context.hostname, lookup().hostname);
    assert_eq!(context.target_user.uid, 0);
    assert_eq!(target_environment["SUDO_USER"], "ferris");
}

#[test]
fn unresolved_command_kept_verbatim() {
    let options = run_options(&["no-such-binary", "x"]);
    let context = Context::build_from_options(
        options,
        PATH.to_string(),
        AuthenticatingUser::InvokingUser,
        lookup(),
    )
    .unwrap();
    assert_eq!(context.command.command, "no-such-binary");
    assert_eq!(context.command.arguments, ["x"]);
}

#[test]
fn command_with_slash_skips_path_search() {
    let options = run_options(&["./local/tool", "-v"]);
    let mut system = lookup();
    system.resolved_command = Some("/should/not/be/used".to_string());
    let context = Context::build_from_options(
        options,
        PATH.to_string(),
        AuthenticatingUser::InvokingUser,
        system,
    )
    .unwrap();
    assert_eq!(context.command.command, "./local/tool");
    assert_eq!(context.command.arguments, ["-v"]);
}

#[test]
fn unknown_target_user_is_reported() {
    let mut options = run_options(&["true"]);
    options.user = Some("alice".to_string());
    let err = Context::build_from_options(
        options,
        PATH.to_string(),
        AuthenticatingUser::InvokingUser,
        lookup(),
    )
    .unwrap_err();
    assert_eq!(err, Error::UserNotFound("alice".to_string()));
}

#[test]
fn unknown_target_group_is_reported() {
    let mut options = run_options(&["true"]);
    options.group = Some("wheel".to_string());
    let err = Context::build_from_options(
        options,
        PATH.to_string(),
        AuthenticatingUser::InvokingUser,
        lookup(),
    )
    .unwrap_err();
    assert_eq!(err, Error::GroupNotFound("wheel".to_string()));
}

#[test]
fn missing_root_entry_fails_root_authentication() {
    let options = run_options(&["true"]);
    let mut system = lookup();
    system.root_user = None;
    let err = Context::build_from_options(
        options,
        PATH.to_string(),
        AuthenticatingUser::Root,
        system,
    )
    .unwrap_err();
    assert_eq!(err, Error::UserNotFound("root".to_string()));
}

#[test]
fn missing_primary_group_is_reported() {
    let options = run_options(&["true"]);
    let mut system = lookup();
    system.primary_group = None;
    let err = Context::build_from_options(
        options,
        PATH.to_string(),
        AuthenticatingUser::InvokingUser,
        system,
    )
    .unwrap_err();
    assert_eq!(err, Error::PrimaryGroupMissing(0));
}

#[test]
fn shell_launch_joins_arguments() {
    let mut options = run_options(&["echo", "hello", "world"]);
    options.shell = true;
    let mut system = lookup();
    system.env_shell = Some("/usr/bin/zsh".to_string());
    let context = Context::build_from_options(
        options,
        PATH.to_string(),
        AuthenticatingUser::InvokingUser,
        system,
    )
    .unwrap();
    assert_eq!(context.command.command, "/usr/bin/zsh");
    assert_eq!(context.command.arguments, ["-c", "echo hello world"]);
    assert!(matches!(context.launch, sudo_core::context::LaunchType::Shell));
}

#[test]
fn login_launch_uses_target_shell() {
    let mut options = run_options(&[]);
    options.login = true;
    let context = Context::build_from_options(
        options,
        PATH.to_string(),
        AuthenticatingUser::InvokingUser,
        lookup(),
    )
    .unwrap();
    assert_eq!(context.command.command, "/bin/sh");
    assert!(context.command.arguments.is_empty());
    assert!(matches!(context.launch, sudo_core::context::LaunchType::Login));
}

#[test]
fn validate_without_command_builds_empty_command() {
    let mut options = run_options(&[]);
    options.action = ContextAction::Validate;
    let context = Context::build_from_options(
        options,
        PATH.to_string(),
        AuthenticatingUser::InvokingUser,
        lookup(),
    )
    .unwrap();
    assert_eq!(context.command.command, "");
    assert!(context.command.arguments.is_empty());
    assert!(context.use_pty);
    assert!(!context.password_feedback);
    assert!(context.use_session_records);
}
