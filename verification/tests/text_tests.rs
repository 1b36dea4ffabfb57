use blades::saved_data::UserAccount;
use blades::text::{chars_of, literal_uuid, parse_unsigned, parse_unsigned_range, push_dec_text};
use blades::user_data::dungeon::EnemyIndex;

/// The UUID of a text, read through the enemy index parser.
fn parse_uuid(text: &str) -> Option<u128> {
    EnemyIndex::parse(&format!("{}-0-0", text)).ok().map(|e| e.spawner_uuid)
}

/// The display text of a UUID, written through the enemy index text.
fn uuid_to_string(value: u128) -> String {
    let text = EnemyIndex::new(value, 0, 0).to_string();
    text[..text.len() - 4].to_string()
}

#[test]
fn parse_unsigned_accepts_digits_and_plus() {
    assert_eq!(parse_unsigned("42", u64::MAX), Some(42));
    assert_eq!(parse_unsigned("+7", u64::MAX), Some(7));
    assert_eq!(parse_unsigned("007", u64::MAX), Some(7));
    assert_eq!(parse_unsigned("18446744073709551615", u64::MAX), Some(u64::MAX));
}

#[test]
fn parse_unsigned_refuses_bad_text() {
    assert_eq!(parse_unsigned("", u64::MAX), None);
    assert_eq!(parse_unsigned("+", u64::MAX), None);
    assert_eq!(parse_unsigned("-1", u64::MAX), None);
    assert_eq!(parse_unsigned("12a", u64::MAX), None);
    assert_eq!(parse_unsigned(" 1", u64::MAX), None);
    assert_eq!(parse_unsigned("18446744073709551616", u64::MAX), None);
    assert_eq!(parse_unsigned("256", 255), None);
    assert_eq!(parse_unsigned("255", 255), Some(255));
}

#[test]
fn parse_unsigned_agrees_with_std() {
    for text in ["0", "1", "+12", "99999", "4294967296", "abc", "", "1_000"] {
        assert_eq!(parse_unsigned(text, u64::MAX), text.parse::<u64>().ok());
    }
}

#[test]
fn parse_unsigned_range_reads_a_slice() {
    let v = chars_of("ab123cd");
    assert_eq!(parse_unsigned_range(&v, 2, 5, u64::MAX), Some(123));
    assert_eq!(parse_unsigned_range(&v, 1, 5, u64::MAX), None);
    assert_eq!(parse_unsigned_range(&v, 3, 3, u64::MAX), None);
}

#[test]
fn decimal_text_roundtrip() {
    for n in [0u64, 5, 10, 1234, u64::MAX] {
        let mut s = String::new();
        push_dec_text(&mut s, n);
        assert_eq!(s, n.to_string());
        assert_eq!(parse_unsigned(&s, u64::MAX), Some(n));
    }
    let mut s = String::from("x=");
    push_dec_text(&mut s, 907);
    assert_eq!(s, "x=907");
}

#[test]
fn decimal_text_appends_to_existing_text() {
    let mut s = String::from("ab");
    push_dec_text(&mut s, 7);
    assert_eq!(s, "ab7");
}

#[test]
fn chars_of_lists_characters() {
    assert_eq!(chars_of("héllo"), vec!['h', 'é', 'l', 'l', 'o']);
}

#[test]
fn parse_uuid_reads_the_four_forms() {
    let value = 0x67e55044_10b1_426f_9247_bb680e5fe0c8u128;
    assert_eq!(parse_uuid("67e55044-10b1-426f-9247-bb680e5fe0c8"), Some(value));
    assert_eq!(parse_uuid("67E55044-10B1-426F-9247-BB680E5FE0C8"), Some(value));
    assert_eq!(parse_uuid("67e5504410b1426f9247bb680e5fe0c8"), Some(value));
    assert_eq!(parse_uuid("{67e55044-10b1-426f-9247-bb680e5fe0c8}"), Some(value));
    assert_eq!(parse_uuid("urn:uuid:67e55044-10b1-426f-9247-bb680e5fe0c8"), Some(value));
}

#[test]
fn parse_uuid_refuses_bad_text() {
    assert_eq!(parse_uuid(""), None);
    assert_eq!(parse_uuid("urn:uuid:{67e55044-10b1-426f-9247-bb680e5fe0c8}"), None);
    assert_eq!(parse_uuid("67e55044-10b1-426f-9247-bb680e5fe0c"), None);
    assert_eq!(parse_uuid("67e55044-10b1-426f-9247-bb680e5fe0cg"), None);
    assert_eq!(parse_uuid("67e5504410b1-426f-9247-bb680e5fe0c8"), None);
}

#[test]
fn uuid_text_roundtrip() {
    for value in [0u128, 1, u128::MAX, 0x3d336fe7_be60_46a1_b88b_540f3ad5efa2] {
        let text = uuid_to_string(value);
        assert_eq!(parse_uuid(&text), Some(value));
    }
    assert_eq!(
        uuid_to_string(0x3d336fe7_be60_46a1_b88b_540f3ad5efa2),
        "3d336fe7-be60-46a1-b88b-540f3ad5efa2"
    );
    assert_eq!(uuid_to_string(0), "00000000-0000-0000-0000-000000000000");
}

#[test]
fn literal_uuid_gives_the_value() {
    assert_eq!(
        literal_uuid("417e79de-c810-42f8-8273-f9759df6ae25"),
        0x417e79de_c810_42f8_8273_f9759df6ae25
    );
}

#[test]
fn random_uuids_have_version_4() {
    let a = UserAccount::create_new_user().secret_id;
    let b = UserAccount::create_new_user().secret_id;
    assert_ne!(a, b);
    for u in [a, b] {
        assert_eq!((u >> 76) & 0xf, 4);
        assert_eq!((u >> 62) & 0x3, 2);
    }
}
