use localsend_rs::id_map::IdMap;
use localsend_rs::protocol::{origin_text, DeviceInfo, FileId, Protocol, SessionId, Token};
use localsend_rs::text::{
    characters, decimal_text, eq_ignore_ascii_case, is_blank, same_text,
};

#[test]
fn numbers_are_written_in_decimal() {
    for n in [0u64, 7, 9, 10, 99, 100, 53317, 1048576, u64::MAX] {
        assert_eq!(decimal_text(n), n.to_string());
    }
}

#[test]
fn blank_means_only_white_space() {
    for code in 0..0x3100u32 {
        if let Some(c) = char::from_u32(code) {
            assert_eq!(is_blank(&c.to_string()), c.is_whitespace(), "{code:x}");
        }
    }
    assert!(is_blank(""));
    assert!(is_blank(" \t\n"));
    assert!(!is_blank(" x "));
}

#[test]
fn hashes_compare_without_regard_to_case() {
    assert!(eq_ignore_ascii_case("0aF9", "0Af9"));
    assert!(!eq_ignore_ascii_case("0aF9", "0aF8"));
    assert!(!eq_ignore_ascii_case("a", "aa"));
    assert!(!eq_ignore_ascii_case("ä", "Ä"));
    assert!(eq_ignore_ascii_case("", ""));
    for c in 0u8..128 {
        for d in 0u8..128 {
            let a = (c as char).to_string();
            let b = (d as char).to_string();
            assert_eq!(eq_ignore_ascii_case(&a, &b), a.eq_ignore_ascii_case(&b));
        }
    }
}

#[test]
fn texts_are_compared_by_their_characters() {
    assert!(same_text("é", "é"));
    assert!(!same_text("é", "e"));
    assert_eq!(characters("aé✓"), vec!['a', 'é', '✓']);
}

fn is_uuid(text: &str) -> bool {
    text.len() == 36
        && text.chars().enumerate().all(|(i, c)| match i {
            8 | 13 | 18 | 23 => c == '-',
            14 => c == '4',
            19 => "89ab".contains(c),
            _ => c.is_ascii_digit() || ('a'..='f').contains(&c),
        })
}

#[test]
fn identifiers_are_random_and_have_their_shape() {
    assert!(is_uuid(FileId::new().as_str()));
    assert!(is_uuid(SessionId::new().as_str()));
    assert!(is_uuid(Token::new().as_str()));
    assert_ne!(FileId::new(), FileId::new());
    let device = DeviceInfo::new("a".to_string(), 1, Protocol::Http);
    assert!(is_uuid(&device.fingerprint));
    assert_eq!(device.version, "2.1");
}

#[test]
fn origins_name_scheme_address_and_port() {
    assert_eq!(origin_text(Protocol::Http, "10.0.0.1", 80), "http://10.0.0.1:80");
    assert_eq!(
        origin_text(Protocol::Https, "localhost", 65535),
        "https://localhost:65535"
    );
}

#[test]
fn maps_keep_one_value_per_identifier() {
    let mut map: IdMap<u32> = IdMap::new();
    assert!(map.is_empty());
    map.insert("a".to_string(), 1);
    map.insert("b".to_string(), 2);
    map.insert("a".to_string(), 3);
    assert_eq!(map.len(), 2);
    assert_eq!(map.get("a"), Some(&3));
    assert_eq!(map.get("b"), Some(&2));
    assert_eq!(map.get("c"), None);
    assert!(map.contains_key("b"));
    let copy = map.clone();
    assert_eq!(map.remove("b"), Some(2));
    assert_eq!(map.remove("b"), None);
    assert_eq!(map.len(), 1);
    assert_eq!(map.key_at(0), "a");
    assert_eq!(*map.value_at(0), 3);
    assert_eq!(copy.len(), 2);
}
