use furtherance::localization::{choose_language, strip_isolates, supports};

#[test]
fn a_supported_locale_is_taken_as_it_is() {
    for language in ["de", "en-US", "es", "fi", "fr", "it", "nl", "pt-BR", "pt-PT", "ru", "sk", "tr"] {
        assert!(supports(language));
        assert_eq!(choose_language(Some(language)), language);
    }
}

#[test]
fn a_locale_with_an_unknown_country_falls_back_to_its_language() {
    assert_eq!(choose_language(Some("de-AT")), "de");
    assert_eq!(choose_language(Some("fr-CA")), "fr");
    assert_eq!(choose_language(Some("es-419")), "es");
}

#[test]
fn an_unknown_locale_falls_back_to_american_english() {
    assert_eq!(choose_language(Some("ja-JP")), "en-US");
    assert_eq!(choose_language(Some("en-GB")), "en-US");
    assert_eq!(choose_language(Some("pt")), "en-US");
    assert_eq!(choose_language(Some("")), "en-US");
    assert_eq!(choose_language(Some("d")), "en-US");
    assert_eq!(choose_language(None), "en-US");
    assert!(!supports("en"));
    assert!(!supports("DE"));
}

#[test]
fn isolating_marks_are_taken_out() {
    assert_eq!(strip_isolates("Sync successful: \u{2068}3\u{2069} records"), "Sync successful: 3 records");
    assert_eq!(strip_isolates("\u{2068}\u{2069}"), "");
    assert_eq!(strip_isolates("plain"), "plain");
    assert_eq!(strip_isolates(""), "");
    assert_eq!(strip_isolates("\u{2067}kept\u{2066}"), "\u{2067}kept\u{2066}");
}
