use zend::room_id::{RoomId, RoomIdError, RoomIdParseError, ROOM_ID_SPACE};

fn chars(s: &str) -> Vec<char> {
    s.chars().collect()
}

#[test]
fn zero_renders_all_a() {
    let id = RoomId::from_int(0).unwrap();
    assert_eq!(id.to_text(), "AAAAAA");
}

#[test]
fn one_renders_trailing_b() {
    let id = RoomId::from_int(1).unwrap();
    assert_eq!(id.to_text(), "AAAAAB");
}

#[test]
fn largest_renders_all_z() {
    let id = RoomId::from_int(ROOM_ID_SPACE - 1).unwrap();
    assert_eq!(id.to_text(), "ZZZZZZ");
}

#[test]
fn render_then_parse_is_identity() {
    for raw in [0u64, 1, 25, 26, 675, 676, 308915775] {
        let id = RoomId::from_int(raw).unwrap();
        let text = id.to_text();
        let back = RoomId::parse_text(&chars(&text)).unwrap();
        assert_eq!(back.get_int(), raw);
    }
}

#[test]
fn parse_then_render_is_identity_on_six_letters() {
    for text in ["AAAAAA", "ROOMAB", "ZZZZZZ", "QWERTY"] {
        let id = RoomId::parse_text(&chars(text)).unwrap();
        assert_eq!(id.to_text(), text);
    }
}

#[test]
fn parse_folds_lowercase() {
    let lower = RoomId::parse_text(&chars("abcdef")).unwrap();
    let upper = RoomId::parse_text(&chars("ABCDEF")).unwrap();
    assert_eq!(lower, upper);
    assert_eq!(lower.to_text(), "ABCDEF");
}

#[test]
fn parse_rejects_wrong_lengths() {
    assert_eq!(
        RoomId::parse_text(&chars("AAAAA")),
        Err(RoomIdParseError::TooShort)
    );
    assert_eq!(RoomId::parse_text(&chars("")), Err(RoomIdParseError::TooShort));
    assert_eq!(
        RoomId::parse_text(&chars("AAAAAAA")),
        Err(RoomIdParseError::TooLong)
    );
}

#[test]
fn parse_rejects_non_letters() {
    assert_eq!(
        RoomId::parse_text(&chars("AAA1AA")),
        Err(RoomIdParseError::InvalidCharacter)
    );
    assert_eq!(
        RoomId::parse_text(&chars("AA AAA")),
        Err(RoomIdParseError::InvalidCharacter)
    );
}

#[test]
fn from_int_rejects_out_of_range_instead_of_wrapping() {
    assert_eq!(RoomId::from_int(ROOM_ID_SPACE), Err(RoomIdError::OutOfRange));
    assert_eq!(RoomId::from_int(u64::MAX), Err(RoomIdError::OutOfRange));
    assert!(RoomId::from_int(ROOM_ID_SPACE - 1).is_ok());
}

#[test]
fn from_entropy_reduces_modulo_the_space() {
    let id = RoomId::from_entropy(ROOM_ID_SPACE + 5);
    assert_eq!(id.get_int(), 5);
    let id2 = RoomId::from_entropy(3);
    assert_eq!(id2.get_int(), 3);
}
