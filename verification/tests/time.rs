use sudo_core::time::{Duration, SystemTime};

#[test]
fn test_new_durations_and_times() {
    assert_eq!(Duration::new(1, 1_000_000_000), Duration::seconds(2));
    assert_eq!(
        Duration::new(-2, 500_000_000),
        Duration::seconds(-1).add(Duration::milliseconds(-500))
    );

    assert_eq!(SystemTime::new(-1, 2_000_000_000), SystemTime::new(1, 0));
    assert_eq!(SystemTime::new(2, -500_000_000), SystemTime::new(1, 500_000_000));
}

#[test]
fn test_time_ops() {
    assert_eq!(Duration::seconds(2).add(Duration::seconds(3)), Duration::seconds(5));
    assert_eq!(Duration::seconds(3).sub(Duration::seconds(1)), Duration::seconds(2));
    assert_eq!(
        Duration::seconds(-10).add(Duration::seconds(-5)),
        Duration::seconds(-15)
    );
    assert_eq!(
        Duration::milliseconds(5555).add(Duration::milliseconds(5555)),
        Duration::seconds(11).add(Duration::milliseconds(110))
    );
    assert_eq!(Duration::seconds(10).sub(Duration::seconds(-5)), Duration::seconds(15));

    assert_eq!(SystemTime::new(0, 0).add(Duration::seconds(3)), SystemTime::new(3, 0));
    assert_eq!(SystemTime::new(10, 0).sub(Duration::seconds(4)), SystemTime::new(6, 0));
}

#[test]
fn test_minutes_and_milliseconds_exact() {
    assert_eq!(Duration::minutes(2), Duration::seconds(120));
    assert_eq!(Duration::milliseconds(5555), Duration::new(5, 555_000_000));
    assert_eq!(Duration::milliseconds(-500), Duration::new(0, -500_000_000));
}

#[test]
fn test_duration_since() {
    let a = SystemTime::new(10, 250_000_000);
    let b = SystemTime::new(4, 750_000_000);
    assert_eq!(a.duration_since(b), Duration::new(5, 500_000_000));
    assert_eq!(b.duration_since(a), Duration::new(-5, -500_000_000));
}

#[test]
fn test_encode_decode_roundtrip() {
    let t = SystemTime::new(123, 456_789_012);
    let bytes = t.encode();
    assert_eq!(bytes.len(), 16);
    assert_eq!(SystemTime::decode(&bytes), Some(t));

    let negative = SystemTime::new(-7, -21);
    let bytes = negative.encode();
    assert_eq!(SystemTime::decode(&bytes), Some(negative));
}

#[test]
fn test_decode_short_input() {
    assert_eq!(SystemTime::decode(&[]), None);
    assert_eq!(SystemTime::decode(&[0u8; 15]), None);
    assert_eq!(SystemTime::decode(&[0u8; 16]), Some(SystemTime::new(0, 0)));
}

#[test]
fn test_encode_is_little_endian() {
    let t = SystemTime::new(1, 2);
    let bytes = t.encode();
    let mut expected = vec![1u8, 0, 0, 0, 0, 0, 0, 0];
    expected.extend([2u8, 0, 0, 0, 0, 0, 0, 0]);
    assert_eq!(bytes, expected);
}

#[test]
fn test_negative_minutes() {
    assert_eq!(Duration::minutes(-3), Duration::seconds(-180));
}
