use gossip::domain::PasteContent;
use gossip::domain::PasteId;

// Content validation.

#[test]
fn paste_content_a_256_grapheme_long_name_is_valid() {
    let name = "a".repeat(256);
    assert!(PasteContent::parse(name).is_ok());
}

#[test]
fn paste_content_a_name_longer_than_256_graphemes_is_rejected() {
    let name = "a".repeat(257);
    assert!(PasteContent::parse(name).is_err());
}

#[test]
fn paste_content_whitespace_only_names_are_rejected() {
    let name = " ".to_string();
    assert!(PasteContent::parse(name).is_err());
}

#[test]
fn paste_content_empty_string_is_rejected() {
    let name = "".to_string();
    assert!(PasteContent::parse(name).is_err());
}

#[test]
fn paste_content_a_valid_name_is_parsed_successfully() {
    let name = "Some name".to_string();
    assert!(PasteContent::parse(name).is_ok());
}

// Identifier validation.

#[test]
fn paste_id_a_256_grapheme_long_name_is_valid() {
    let name = "a".repeat(256);
    assert!(PasteId::parse(name).is_ok());
}

#[test]
fn paste_id_a_name_longer_than_256_graphemes_is_rejected() {
    let name = "a".repeat(257);
    assert!(PasteId::parse(name).is_err());
}

#[test]
fn paste_id_whitespace_only_names_are_rejected() {
    let name = " ".to_string();
    assert!(PasteId::parse(name).is_err());
}

#[test]
fn paste_id_empty_string_is_rejected() {
    let name = "".to_string();
    assert!(PasteId::parse(name).is_err());
}

#[test]
fn names_containing_an_invalid_character_are_rejected() {
    for name in &['/', '(', ')', '"', '<', '>', '\\', '{', '}'] {
        let name = name.to_string();
        assert!(PasteId::parse(name).is_err());
    }
}

#[test]
fn paste_id_a_valid_name_is_parsed_successfully() {
    let name = "Some name".to_string();
    assert!(PasteId::parse(name).is_ok());
}

// A successful parse keeps the input unchanged, untrimmed.

#[test]
fn id_parse_round_trips_exactly() {
    let id = PasteId::parse("  abc  ".to_string()).unwrap();
    assert_eq!("  abc  ", id.as_str());
}

#[test]
fn content_parse_round_trips_exactly() {
    let content = PasteContent::parse("somecontent".to_string()).unwrap();
    assert_eq!("somecontent", content.as_str());
}

// Exact rejection messages.

#[test]
fn id_rejection_messages_are_exact() {
    assert_eq!(
        "not a valid paste id - empty string",
        PasteId::parse("".to_string()).unwrap_err()
    );
    assert_eq!(
        "not a valid paste id - empty string",
        PasteId::parse("   ".to_string()).unwrap_err()
    );
    assert_eq!(
        "{s is not a valid paste id - invalid char",
        PasteId::parse("{s".to_string()).unwrap_err()
    );
    let long = "a".repeat(257);
    assert_eq!(
        format!("{} is not a valid paste id - too long", long),
        PasteId::parse(long.clone()).unwrap_err()
    );
}

#[test]
fn content_rejection_messages_are_exact() {
    assert_eq!(
        "not valid paste content - empty string",
        PasteContent::parse("".to_string()).unwrap_err()
    );
    assert_eq!(
        "not valid paste content - empty string",
        PasteContent::parse(" \t\n".to_string()).unwrap_err()
    );
    let long = "a".repeat(257);
    assert_eq!(
        format!("{} is not valid paste content - too long", long),
        PasteContent::parse(long.clone()).unwrap_err()
    );
}

// Length is measured in grapheme clusters, not code points: each "e" with a
// combining accent is two code points but one user-perceived character.

#[test]
fn grapheme_clusters_count_as_one() {
    let accented = "e\u{301}".repeat(256);
    assert_eq!(512, accented.chars().count());
    assert!(PasteId::parse(accented.clone()).is_ok());
    assert!(PasteContent::parse(accented).is_ok());
    let too_many = "e\u{301}".repeat(257);
    assert!(PasteId::parse(too_many.clone()).is_err());
    assert!(PasteContent::parse(too_many).is_err());
}

// Generated identifiers.

#[test]
fn random_ids_are_36_characters_and_distinct() {
    let a = PasteId::random();
    let b = PasteId::random();
    assert_eq!(36, a.as_str().chars().count());
    assert_eq!(36, b.as_str().chars().count());
    assert_ne!(a.as_str(), b.as_str());
}

#[test]
fn random_ids_parse_as_valid_identifiers() {
    let id = PasteId::random();
    let reparsed = PasteId::parse(id.as_str().to_string()).unwrap();
    assert_eq!(id.as_str(), reparsed.as_str());
}

// Byte-level parsing.

#[test]
fn bytes_that_decode_to_non_blank_text_are_accepted() {
    let content = PasteContent::parse_from_bytes("caf\u{e9} au lait".as_bytes().to_vec()).unwrap();
    assert_eq!("caf\u{e9} au lait", content.as_str());
}

#[test]
fn bytes_that_are_not_utf8_are_rejected() {
    let err = PasteContent::parse_from_bytes(vec![0xff, 0xfe, 0x61]).unwrap_err();
    assert_eq!("not valid paste content - invalid encoding", err);
}

#[test]
fn bytes_that_decode_to_blank_text_are_rejected() {
    assert_eq!(
        "not valid paste content - empty string",
        PasteContent::parse_from_bytes(Vec::new()).unwrap_err()
    );
    assert_eq!(
        "not valid paste content - empty string",
        PasteContent::parse_from_bytes(b"  \n ".to_vec()).unwrap_err()
    );
}
