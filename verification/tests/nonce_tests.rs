use zend::nonce::{Nonce, NonceParseError};

fn chars(s: &str) -> Vec<char> {
    s.chars().collect()
}

#[test]
fn next_resets_counter_when_time_advances() {
    let n = Nonce { id: 41, timestamp: 100 };
    let next = n.next(101);
    assert_eq!(next.timestamp, 101);
    assert_eq!(next.id, 0);
}

#[test]
fn next_increments_counter_at_same_time() {
    let n = Nonce { id: 41, timestamp: 100 };
    let next = n.next(100);
    assert_eq!(next.timestamp, 100);
    assert_eq!(next.id, 42);
}

#[test]
fn increment_advances_in_place() {
    let mut n = Nonce::new(50);
    let first = n.increment(50);
    assert_eq!(first, Nonce { id: 1, timestamp: 50 });
    assert_eq!(n, first);
    let second = n.increment(60);
    assert_eq!(second, Nonce { id: 0, timestamp: 60 });
}

#[test]
fn renders_counter_then_timestamp() {
    let n = Nonce { id: 7, timestamp: 1700000000 };
    assert_eq!(n.to_text(), "7_1700000000");
    assert_eq!(Nonce::new(0).to_text(), "0_0");
}

#[test]
fn parse_inverts_render() {
    let n = Nonce { id: 12345, timestamp: 67890 };
    let text = n.to_text();
    let parsed = Nonce::parse_text(&chars(&text)).unwrap();
    assert_eq!(parsed, n);
}

#[test]
fn canonical_text_survives_parse_and_render() {
    for text in ["0_0", "7_1700000000", "18446744073709551615_1"] {
        let n = Nonce::parse_text(&chars(text)).unwrap();
        assert_eq!(n.to_text(), text);
    }
}

#[test]
fn parse_accepts_leading_zeros() {
    let parsed = Nonce::parse_text(&chars("007_05")).unwrap();
    assert_eq!(parsed, Nonce { id: 7, timestamp: 5 });
}

#[test]
fn parse_rejects_bad_id_segment() {
    assert_eq!(
        Nonce::parse_text(&chars("x_5")),
        Err(NonceParseError::InvalidIdSegment)
    );
    assert_eq!(
        Nonce::parse_text(&chars("_5")),
        Err(NonceParseError::InvalidIdSegment)
    );
    assert_eq!(
        Nonce::parse_text(&chars("")),
        Err(NonceParseError::InvalidIdSegment)
    );
}

#[test]
fn parse_rejects_missing_timestamp() {
    assert_eq!(
        Nonce::parse_text(&chars("42")),
        Err(NonceParseError::NoTimestampSegment)
    );
}

#[test]
fn parse_rejects_bad_timestamp_segment() {
    assert_eq!(
        Nonce::parse_text(&chars("1_x")),
        Err(NonceParseError::InvalidTimestampSegment)
    );
    assert_eq!(
        Nonce::parse_text(&chars("1_")),
        Err(NonceParseError::InvalidTimestampSegment)
    );
}

#[test]
fn parse_rejects_extra_segments() {
    assert_eq!(
        Nonce::parse_text(&chars("1_2_3")),
        Err(NonceParseError::TooManySegments)
    );
}

#[test]
fn parse_rejects_overflowing_value() {
    assert_eq!(
        Nonce::parse_text(&chars("18446744073709551616_1")),
        Err(NonceParseError::InvalidIdSegment)
    );
}

#[test]
fn largest_value_round_trips() {
    let n = Nonce { id: u64::MAX, timestamp: 0 };
    assert_eq!(n.to_text(), "18446744073709551615_0");
    assert_eq!(Nonce::parse_text(&chars("18446744073709551615_0")), Ok(n));
}

#[test]
fn orders_by_timestamp_then_counter() {
    let a = Nonce { id: 9, timestamp: 1 };
    let b = Nonce { id: 0, timestamp: 2 };
    let c = Nonce { id: 1, timestamp: 2 };
    assert!(a < b);
    assert!(b < c);
    assert!(a < c);
    assert!(c == c.clone());
}
