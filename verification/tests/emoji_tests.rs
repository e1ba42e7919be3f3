use kangbot::emoji::{emoji_at, random_emoji, unified_to_emoji, EMOJI_DATA};

#[test]
fn test_emoji_data_not_empty() {
    assert!(!EMOJI_DATA.is_empty(), "EMOJI_DATA should not be empty");
}

#[test]
fn test_unified_to_emoji() {
    // Test simple emoji: 😀 (grinning face)
    let emoji = unified_to_emoji("1F600");
    assert_eq!(emoji, "😀");

    // Test emoji with modifier: 👍 (thumbs up)
    let emoji = unified_to_emoji("1F44D");
    assert_eq!(emoji, "👍");
}

#[test]
fn test_random_emoji() {
    let emoji = random_emoji();
    assert!(!emoji.is_empty(), "random_emoji should return non-empty string");
}

#[test]
fn unified_with_several_code_points() {
    assert_eq!(unified_to_emoji("2764-FE0F"), "\u{2764}\u{FE0F}");
    assert_eq!(unified_to_emoji("1f600"), "😀");
}

#[test]
fn unified_skips_parts_that_are_not_code_points() {
    assert_eq!(unified_to_emoji("ZZZ"), "");
    assert_eq!(unified_to_emoji(""), "");
    assert_eq!(unified_to_emoji("D800"), "");
    assert_eq!(unified_to_emoji("110000"), "");
    assert_eq!(unified_to_emoji("1F600-XYZ-1F44D"), "😀👍");
    assert_eq!(unified_to_emoji("+41"), "A");
    assert_eq!(unified_to_emoji("FFFFFFFFF"), "");
}

#[test]
fn emoji_at_picks_entry_modulo_length() {
    assert_eq!(emoji_at(0), "😀");
    assert_eq!(emoji_at(40), "😀");
    assert_eq!(emoji_at(30), "👍");
    assert_eq!(emoji_at(38 + 40 * 7), "\u{2764}\u{FE0F}");
}

#[test]
fn every_emoji_entry_decodes_to_something() {
    for u in EMOJI_DATA.iter() {
        assert!(!unified_to_emoji(u).is_empty(), "{} decodes to nothing", u);
    }
}

#[test]
fn random_emoji_is_one_of_the_entries() {
    let all: Vec<String> = EMOJI_DATA.iter().map(|u| unified_to_emoji(u)).collect();
    for _ in 0..10 {
        let e = random_emoji();
        assert!(all.contains(&e));
    }
}
