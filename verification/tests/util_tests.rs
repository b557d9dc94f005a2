use uc_api::util::text_from_language_map;
use uc_api::util::valid_icon_id;
use uc_api::util::valid_id_chars;

fn test_languages() -> Vec<(String, String)> {
    vec![
        ("en".to_string(), "English fallback".to_string()),
        ("de".to_string(), "German fallback".to_string()),
        ("de_DE".to_string(), "German".to_string()),
        ("de_CH".to_string(), "Swiss German".to_string()),
        ("en_UK".to_string(), "UK English".to_string()),
        ("en_US".to_string(), "US English".to_string()),
        ("en_AU".to_string(), "AU English".to_string()),
        ("fr_FR".to_string(), "French".to_string()),
    ]
}

#[test]
fn text_from_language_map_without_language_map() {
    let text = text_from_language_map(None, "en_UK");
    assert_eq!(None, text);
}

#[test]
fn text_from_language_map_with_direct_match() {
    let map = Some(test_languages());

    let text = text_from_language_map(map.as_ref(), "en_UK");
    assert_eq!(Some("UK English".to_string()), text);
    let text = text_from_language_map(map.as_ref(), "de_CH");
    assert_eq!(Some("Swiss German".to_string()), text);
    let text = text_from_language_map(map.as_ref(), "de_DE");
    assert_eq!(Some("German".to_string()), text);
}

#[test]
fn text_from_language_map_with_missing_country_and_no_default() {
    let map = Some(test_languages());

    let text = text_from_language_map(map.as_ref(), "fr_CA");
    assert_eq!(Some("French".to_string()), text);
}

#[test]
fn text_from_language_map_with_missing_language() {
    let map = Some(test_languages());

    let text = text_from_language_map(map.as_ref(), "it");
    assert_eq!(Some("English fallback".to_string()), text);
}

#[test]
fn locale_fallback_cascade() {
    let map = Some(vec![
        ("en".to_string(), "English fallback".to_string()),
        ("de".to_string(), "German fallback".to_string()),
        ("de_DE".to_string(), "German".to_string()),
        ("de_CH".to_string(), "Swiss German".to_string()),
        ("en_UK".to_string(), "UK English".to_string()),
    ]);

    // exact match
    assert_eq!(
        Some("UK English".to_string()),
        text_from_language_map(map.as_ref(), "en_UK")
    );
    // base-language fallback
    assert_eq!(
        Some("German fallback".to_string()),
        text_from_language_map(map.as_ref(), "de_AT")
    );
    // English fallback
    assert_eq!(
        Some("English fallback".to_string()),
        text_from_language_map(map.as_ref(), "it")
    );
    // empty map
    let empty: Vec<(String, String)> = vec![];
    assert_eq!(None, text_from_language_map(Some(&empty), "en_UK"));
    // absent map
    assert_eq!(None, text_from_language_map(None, "en_UK"));
}

#[test]
fn country_variant_fallback() {
    // no exact key, no bare base language: the first other country variant
    // of the base language wins
    let map = vec![
        ("en".to_string(), "English".to_string()),
        ("de_DE".to_string(), "German".to_string()),
        ("de_CH".to_string(), "Swiss German".to_string()),
    ];
    assert_eq!(
        Some("German".to_string()),
        text_from_language_map(Some(&map), "de_AT")
    );
}

#[test]
fn first_entry_fallback_without_english() {
    let map = vec![("fr_FR".to_string(), "French".to_string())];
    assert_eq!(
        Some("French".to_string()),
        text_from_language_map(Some(&map), "it")
    );
}

#[test]
fn id_chars_validation() {
    assert!(valid_id_chars("abc-DEF_09"));
    assert!(valid_id_chars("a"));
    assert!(!valid_id_chars(""));
    assert!(!valid_id_chars("a b"));
    assert!(!valid_id_chars("uc:icon"));
}

#[test]
fn icon_id_validation() {
    assert!(valid_icon_id("uc:star.icon"));
    assert!(valid_icon_id("abc-DEF_09"));
    assert!(!valid_icon_id(""));
    assert!(!valid_icon_id("a/b"));
}
