//! Building the execution context a session runs under.
//!
//! The context is assembled from the parsed command-line options and
//! from answers the running system gave (user and group database
//! entries, the hostname, the environment's shell, where the command was
//! found on the search path). Reading those answers is the caller's
//! business; everything decided *from* them: which identity the command
//! runs as, how it is launched, what the command line becomes, and which
//! error is reported when an answer is missing, is decided and proved
//! here.

use vstd::prelude::*;
use vstd::string::StrSliceExecFns;
use vstd::string::StringExecFns;

verus! {

/// What the front end asked the run to do.
#[derive(Clone, Copy)]
pub enum ContextAction {
    List,
    Run,
    Validate,
}

/// The command-line options the context is built from.
pub struct OptionsForContext {
    pub chdir: Option<String>,
    pub group: Option<String>,
    pub login: bool,
    pub non_interactive: bool,
    pub positional_args: Vec<String>,
    pub reset_timestamp: bool,
    pub shell: bool,
    pub stdin: bool,
    pub user: Option<String>,
    pub action: ContextAction,
}

/// A user database entry, as plain values.
#[derive(Debug, Clone, PartialEq, Eq)]
pub struct User {
    pub uid: u32,
    pub gid: u32,
    pub name: String,
    pub home: String,
    pub shell: String,
}

/// A group database entry, as plain values.
#[derive(Debug, Clone, PartialEq, Eq)]
pub struct Group {
    pub gid: u32,
    pub name: String,
}

/// The supervisor process's own identifiers.
#[derive(Debug, Clone, Copy, PartialEq, Eq, Structural)]
pub struct Process {
    pub pid: i32,
    pub parent_pid: i32,
    pub group_id: i32,
    pub session_id: i32,
}

/// Which identity must authenticate for this run.
#[derive(Debug, Clone, Copy, PartialEq, Eq, Structural)]
pub enum AuthenticatingUser {
    /// The invoking user proves who they are.
    InvokingUser,
    /// Root's own password is demanded instead.
    Root,
}

/// How the command is launched.
#[derive(Debug, PartialEq, Eq)]
pub enum LaunchType {
    Direct,
    Shell,
    Login,
}

/// The resolved command and its argument vector.
#[derive(Debug, Clone, PartialEq, Eq)]
pub struct CommandAndArguments {
    pub command: String,
    pub arguments: Vec<String>,
}

impl Default for CommandAndArguments {
    /// The absent command, for validate and list runs that name none.
    fn default() -> (c: Self)
        ensures
            c.command@.len() == 0,
            c.arguments@.len() == 0,
    {
        CommandAndArguments { command: String::new(), arguments: Vec::new() }
    }
}

/// Why a context could not be built.
#[derive(Debug, Clone, PartialEq, Eq)]
pub enum Error {
    /// No user database entry for this name.
    UserNotFound(String),
    /// No group database entry for this name.
    GroupNotFound(String),
    /// The target user's primary group id has no database entry.
    PrimaryGroupMissing(u32),
}

/// The answers the running system gave, gathered by the caller before
/// the context is assembled; the library performs no lookup of its own.
pub struct SystemLookup {
    /// The machine's hostname.
    pub hostname: String,
    /// The invoking user's database entry.
    pub current_user: User,
    /// The supervisor process's identifiers.
    pub process: Process,
    /// Root's database entry, when it could be read.
    pub root_user: Option<User>,
    /// The entry for the user the options name, when one was named and
    /// found.
    pub requested_user: Option<User>,
    /// The entry for the group the options name, when one was named and
    /// found.
    pub requested_group: Option<Group>,
    /// The entry for the target user's primary group id, when found.
    pub primary_group: Option<Group>,
    /// The `SHELL` environment variable.
    pub env_shell: Option<String>,
    /// Where the search through the path string found the first
    /// positional argument, when it did.
    pub resolved_command: Option<String>,
}

/// The context a run executes under, immutable once built.
#[derive(Debug)]
pub struct Context {
    pub launch: LaunchType,
    pub chdir: Option<String>,
    pub command: CommandAndArguments,
    pub target_user: User,
    pub target_group: Group,
    pub stdin: bool,
    pub non_interactive: bool,
    pub use_session_records: bool,
    pub hostname: String,
    pub current_user: User,
    pub auth_user: User,
    pub process: Process,
    pub use_pty: bool,
    pub password_feedback: bool,
}

/// The name the default target user is looked up under.
pub open spec fn root_name() -> Seq<char> {
    seq!['r', 'o', 'o', 't']
}

/// The views of a vector of strings.
pub open spec fn views_of(parts: Seq<String>) -> Seq<Seq<char>> {
    parts.map_values(|p: String| p@)
}

/// The parts joined with single spaces.
pub open spec fn join_spaces(parts: Seq<Seq<char>>) -> Seq<char>
    decreases parts.len(),
{
    if parts.len() == 0 {
        Seq::empty()
    } else if parts.len() == 1 {
        parts[0]
    } else {
        join_spaces(parts.drop_last()) + seq![' '] + parts.last()
    }
}

/// The character sequence holds a path separator.
pub open spec fn contains_slash(s: Seq<char>) -> bool {
    exists|i: int| 0 <= i < s.len() && s[i] == '/'
}

/// The target user the options select: the entry for the named user, or
/// root's entry when none was named.
pub open spec fn spec_target_user(opts: OptionsForContext, sys: SystemLookup) -> Option<User> {
    if opts.user is Some {
        sys.requested_user
    } else {
        sys.root_user
    }
}

/// The target group the options select: the entry for the named group,
/// or the target user's primary group when none was named.
pub open spec fn spec_target_group(opts: OptionsForContext, sys: SystemLookup) -> Option<Group> {
    if opts.group is Some {
        sys.requested_group
    } else {
        sys.primary_group
    }
}

/// The authenticating identity could be resolved.
pub open spec fn spec_auth_ok(auth: AuthenticatingUser, sys: SystemLookup) -> bool {
    auth is InvokingUser || sys.root_user is Some
}

/// How the options launch the command: a login shell, a plain shell, or
/// the command directly.
pub open spec fn spec_launch(opts: OptionsForContext) -> LaunchType {
    if opts.login {
        LaunchType::Login
    } else if opts.shell {
        LaunchType::Shell
    } else {
        LaunchType::Direct
    }
}

/// The shell the launch runs through, when one does: the target user's
/// for a login shell; the environment's (or, failing that, the invoking
/// user's) for a plain shell.
pub open spec fn spec_shell(opts: OptionsForContext, sys: SystemLookup, target: User) -> Option<String> {
    if opts.login {
        Some(target.shell)
    } else if opts.shell {
        match sys.env_shell {
            Some(s) => Some(s),
            None => Some(sys.current_user.shell),
        }
    } else {
        None
    }
}

/// What `build_from_args` must produce: through a shell, the command is
/// the shell and the joined arguments ride behind `-c`; directly, the
/// first argument is the command, taken verbatim when it holds a slash
/// and otherwise as the search path resolved it, and the rest are its
/// arguments.
pub open spec fn built_command_matches(
    c: CommandAndArguments,
    shell: Option<String>,
    args: Seq<String>,
    resolved: Option<String>,
) -> bool {
    match shell {
        Some(sh) => {
            &&& c.command == sh
            &&& (args.len() > 0 ==> (c.arguments@.len() == 2 && c.arguments@[0]@ == seq!['-', 'c']
                && c.arguments@[1]@ == join_spaces(views_of(args))))
            &&& (args.len() == 0 ==> c.arguments@.len() == 0)
        },
        None => {
            if args.len() == 0 {
                c.command@.len() == 0 && c.arguments@.len() == 0
            } else {
                &&& c.command == (if contains_slash(args[0]@) {
                    args[0]
                } else {
                    match resolved {
                        Some(p) => p,
                        None => args[0],
                    }
                })
                &&& c.arguments@ == args.skip(1)
            }
        },
    }
}

/// What a built context must hold, field by field.
pub open spec fn context_matches(
    c: Context,
    opts: OptionsForContext,
    auth: AuthenticatingUser,
    sys: SystemLookup,
) -> bool {
    &&& c.launch == spec_launch(opts)
    &&& c.chdir == opts.chdir
    &&& built_command_matches(
        c.command,
        if (opts.action is Validate || opts.action is List) && opts.positional_args@.len() == 0 {
            None
        } else {
            spec_shell(opts, sys, spec_target_user(opts, sys).unwrap())
        },
        if (opts.action is Validate || opts.action is List) && opts.positional_args@.len() == 0 {
            Seq::empty()
        } else {
            opts.positional_args@
        },
        sys.resolved_command,
    )
    &&& c.target_user == spec_target_user(opts, sys).unwrap()
    &&& c.target_group == spec_target_group(opts, sys).unwrap()
    &&& c.stdin == opts.stdin
    &&& c.non_interactive == opts.non_interactive
    &&& c.use_session_records == !opts.reset_timestamp
    &&& c.hostname == sys.hostname
    &&& c.current_user == sys.current_user
    &&& c.auth_user == (if auth is Root {
        sys.root_user.unwrap()
    } else {
        sys.current_user
    })
    &&& c.process == sys.process
    &&& c.use_pty == true
    &&& c.password_feedback == false
}

/// Which error a failed build reports: a missing authenticating
/// identity first, then a missing target user, then a missing group.
pub open spec fn error_matches(
    e: Error,
    opts: OptionsForContext,
    auth: AuthenticatingUser,
    sys: SystemLookup,
) -> bool {
    if !spec_auth_ok(auth, sys) {
        e matches Error::UserNotFound(n) && n@ == root_name()
    } else if spec_target_user(opts, sys) is None {
        match opts.user {
            Some(name) => e == Error::UserNotFound(name),
            None => e matches Error::UserNotFound(n) && n@ == root_name(),
        }
    } else if spec_target_group(opts, sys) is None {
        match opts.group {
            Some(name) => e == Error::GroupNotFound(name),
            None => e == Error::PrimaryGroupMissing(spec_target_user(opts, sys).unwrap().gid),
        }
    } else {
        false
    }
}

/// A copy of a user entry, equal as a value.
fn clone_user(u: &User) -> (r: User)
    ensures
        r == *u,
{
    User {
        uid: u.uid,
        gid: u.gid,
        name: u.name.clone(),
        home: u.home.clone(),
        shell: u.shell.clone(),
    }
}

/// The string "root".
fn root_string() -> (r: String)
    ensures
        r@ == root_name(),
{
    let r = <String as StringExecFns>::from_str("root");
    proof {
        reveal_strlit("root");
        assert(r@ =~= root_name());
    }
    r
}

/// The string "-c".
fn dash_c_string() -> (r: String)
    ensures
        r@ == seq!['-', 'c'],
{
    let r = <String as StringExecFns>::from_str("-c");
    proof {
        reveal_strlit("-c");
        assert(r@ =~= seq!['-', 'c']);
    }
    r
}

/// Whether the string holds a path separator.
fn has_slash(s: &str) -> (b: bool)
    ensures
        b == contains_slash(s@),
{
    let n: usize = s.unicode_len();
    let mut i: usize = 0;
    while i < n
        invariant
            n == s@.len(),
            0 <= i <= n,
            forall|k: int| 0 <= k < i ==> s@[k] != '/',
        decreases n - i,
    {
        if s.get_char(i) == '/' {
            return true;
        }
        i = i + 1;
    }
    false
}

/// The parts joined with single spaces.
fn join_with_spaces(parts: &Vec<String>) -> (r: String)
    ensures
        r@ == join_spaces(views_of(parts@)),
{
    let ghost vs = views_of(parts@);
    let mut out = String::new();
    let mut i: usize = 0;
    while i < parts.len()
        invariant
            vs == views_of(parts@),
            0 <= i <= parts@.len(),
            out@ == join_spaces(vs.take(i as int)),
        decreases parts@.len() - i,
    {
        if i > 0 {
            out.append(" ");
            proof {
                reveal_strlit(" ");
                assert(" "@ =~= seq![' ']);
            }
        }
        out.append(parts[i].as_str());
        proof {
            let taken = vs.take(i + 1);
            assert(taken.drop_last() =~= vs.take(i as int));
            assert(taken.last() == vs[i as int]);
            assert(out@ =~= join_spaces(taken));
        }
        i = i + 1;
    }
    proof {
        assert(vs.take(parts@.len() as int) =~= vs);
    }
    out
}

impl CommandAndArguments {
    /// Builds the command line: through a shell when one was chosen
    /// (`-c` with the arguments joined), else the first argument as the
    /// command (as the search path resolved it, unless it names a path
    /// itself) and the rest as its arguments.
    pub fn build_from_args(shell: Option<String>, arguments: Vec<String>, resolved: Option<String>) -> (c: CommandAndArguments)
        ensures
            built_command_matches(c, shell, arguments@, resolved),
    {
        match shell {
            Some(sh) => {
                if arguments.len() > 0 {
                    let joined = join_with_spaces(&arguments);
                    let mut argv: Vec<String> = Vec::new();
                    argv.push(dash_c_string());
                    argv.push(joined);
                    CommandAndArguments { command: sh, arguments: argv }
                } else {
                    CommandAndArguments { command: sh, arguments: Vec::new() }
                }
            },
            None => {
                if arguments.len() == 0 {
                    CommandAndArguments { command: String::new(), arguments: Vec::new() }
                } else {
                    let mut args = arguments;
                    let name = args.remove(0);
                    proof {
                        assert(args@ =~= arguments@.skip(1));
                    }
                    let command: String = if has_slash(name.as_str()) {
                        name
                    } else {
                        match resolved {
                            Some(p) => p,
                            None => name,
                        }
                    };
                    CommandAndArguments { command, arguments: args }
                }
            },
        }
    }
}

impl Context {
    /// Assembles the context for one run from the options, the search
    /// path, the authenticating identity and the system's answers.
    /// Succeeds exactly when the authenticating identity and both
    /// target entries were found; otherwise reports which was missing,
    /// in resolution order.
    #[allow(unused_variables)]
    pub fn build_from_options(
        sudo_options: OptionsForContext,
        path: String,
        auth_user: AuthenticatingUser,
        system: SystemLookup,
    ) -> (r: Result<Context, Error>)
        ensures
            r is Ok <==> (spec_auth_ok(auth_user, system)
                && spec_target_user(sudo_options, system) is Some
                && spec_target_group(sudo_options, system) is Some),
            r matches Ok(c) ==> context_matches(c, sudo_options, auth_user, system),
            r matches Err(e) ==> error_matches(e, sudo_options, auth_user, system),
    {
        let SystemLookup {
            hostname,
            current_user,
            process,
            root_user,
            requested_user,
            requested_group,
            primary_group,
            env_shell,
            resolved_command,
        } = system;
        let OptionsForContext {
            chdir,
            group,
            login,
            non_interactive,
            positional_args,
            reset_timestamp,
            shell,
            stdin,
            user,
            action,
        } = sudo_options;

        let auth_usr: User = match auth_user {
            AuthenticatingUser::InvokingUser => clone_user(&current_user),
            AuthenticatingUser::Root => match &root_user {
                Some(u) => clone_user(u),
                None => {
                    return Err(Error::UserNotFound(root_string()));
                },
            },
        };

        let target_user: User = match &user {
            Some(name) => match requested_user {
                Some(u) => u,
                None => {
                    return Err(Error::UserNotFound(name.clone()));
                },
            },
            None => match root_user {
                Some(u) => u,
                None => {
                    return Err(Error::UserNotFound(root_string()));
                },
            },
        };

        let target_group: Group = match &group {
            Some(name) => match requested_group {
                Some(g) => g,
                None => {
                    return Err(Error::GroupNotFound(name.clone()));
                },
            },
            None => match primary_group {
                Some(g) => g,
                None => {
                    return Err(Error::PrimaryGroupMissing(target_user.gid));
                },
            },
        };

        let launch: LaunchType;
        let chosen_shell: Option<String>;
        if login {
            launch = LaunchType::Login;
            chosen_shell = Some(target_user.shell.clone());
        } else if shell {
            launch = LaunchType::Shell;
            chosen_shell = Some(match env_shell {
                Some(s) => s,
                None => current_user.shell.clone(),
            });
        } else {
            launch = LaunchType::Direct;
            chosen_shell = None;
        }

        let empty_args = positional_args.len() == 0;
        let skip_command = matches!(action, ContextAction::Validate | ContextAction::List) && empty_args;
        let command: CommandAndArguments = if skip_command {
            CommandAndArguments::default()
        } else {
            CommandAndArguments::build_from_args(chosen_shell, positional_args, resolved_command)
        };

        Ok(Context {
            launch,
            chdir,
            command,
            target_user,
            target_group,
            stdin,
            non_interactive,
            use_session_records: !reset_timestamp,
            hostname,
            current_user,
            auth_user: auth_usr,
            process,
            use_pty: true,
            password_feedback: false,
        })
    }
}

} // verus!
