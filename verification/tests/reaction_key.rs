use starboard::reaction_key::{has_char, ReactionKey, UnsupportedReaction};

#[test]
fn from_raw_accepts_a_unicode_emoji() {
    let key = ReactionKey::from_raw("😊").unwrap();
    assert_eq!(key.as_str(), "😊");
}

#[test]
fn from_raw_accepts_an_emoji_of_several_code_points() {
    let key = ReactionKey::from_raw("👍🏽").unwrap();
    assert_eq!(key.as_str(), "👍🏽");
}

#[test]
fn from_raw_rejects_a_custom_symbol() {
    assert_eq!(ReactionKey::from_raw("<:blobcat:1234567890>"), Err(UnsupportedReaction::Custom));
    assert_eq!(ReactionKey::from_raw("<a:party:42>"), Err(UnsupportedReaction::Custom));
}

#[test]
fn from_raw_rejects_what_the_catalog_lacks() {
    assert_eq!(ReactionKey::from_raw("star"), Err(UnsupportedReaction::NotInCatalog));
    assert_eq!(ReactionKey::from_raw(""), Err(UnsupportedReaction::NotInCatalog));
    assert_eq!(ReactionKey::from_raw("😊😊"), Err(UnsupportedReaction::NotInCatalog));
}

#[test]
fn from_raw_judges_the_custom_marker_first() {
    assert_eq!(ReactionKey::from_raw("<😊"), Err(UnsupportedReaction::Custom));
    assert_eq!(ReactionKey::from_raw("😊<"), Err(UnsupportedReaction::Custom));
}

#[test]
fn from_raw_depends_on_the_catalog() {
    // Both inputs are free of the custom marker: only the catalog tells them apart.
    assert!(ReactionKey::from_raw("⭐").is_ok());
    assert!(ReactionKey::from_raw("*").is_err());
}

#[test]
fn classify_follows_the_answer_it_is_given() {
    assert_eq!(ReactionKey::classify("⭐", true).unwrap().as_str(), "⭐");
    assert_eq!(ReactionKey::classify("⭐", false), Err(UnsupportedReaction::NotInCatalog));
    assert_eq!(ReactionKey::classify("<:x:1>", true), Err(UnsupportedReaction::Custom));
    assert_eq!(ReactionKey::classify("<:x:1>", false), Err(UnsupportedReaction::Custom));
    assert_eq!(ReactionKey::classify("abc", true).unwrap().as_str(), "abc");
}

#[test]
fn equals_is_structural() {
    let star = ReactionKey::from_raw("⭐").unwrap();
    let again = ReactionKey::from_raw("⭐").unwrap();
    let smile = ReactionKey::from_raw("😊").unwrap();
    assert!(star.equals(&again));
    assert!(again.equals(&star));
    assert!(star.equals(&star));
    assert!(!star.equals(&smile));
}

#[test]
fn equals_does_not_fold_skin_tones() {
    let plain = ReactionKey::from_raw("👍").unwrap();
    let toned = ReactionKey::from_raw("👍🏽").unwrap();
    assert!(!plain.equals(&toned));
}

#[test]
fn names_compares_code_points() {
    let star = ReactionKey::from_raw("⭐").unwrap();
    assert!(star.names(&String::from("⭐")));
    assert!(!star.names(&String::from("<:star:1>")));
    assert!(!star.names(&String::from("")));
}

#[test]
fn clone_keeps_the_symbol() {
    let star = ReactionKey::from_raw("⭐").unwrap();
    assert!(star.clone().equals(&star));
}

#[test]
fn has_char_finds_a_character_anywhere() {
    assert!(has_char("<abc", '<'));
    assert!(has_char("abc<", '<'));
    assert!(has_char("a😊<c", '<'));
    assert!(!has_char("abc", '<'));
    assert!(!has_char("", '<'));
    assert!(has_char("😊", '😊'));
}
