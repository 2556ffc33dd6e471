use bravesearch_mcp::codes::{CountryCode, LanguageCode};

#[test]
fn test_country_code_from_str() {
    // Test valid country codes
    assert_eq!(CountryCode::parse("US").unwrap(), CountryCode::US);
    assert_eq!(CountryCode::parse("us").unwrap(), CountryCode::US);
    assert_eq!(CountryCode::parse("JP").unwrap(), CountryCode::JP);
    assert_eq!(CountryCode::parse("all").unwrap(), CountryCode::ALL);

    // Test invalid country code
    let invalid = CountryCode::parse("ZZ");
    assert!(invalid.is_err());
    assert_eq!(invalid.unwrap_err().message(), "Unknown country code: ZZ");
}

#[test]
fn test_language_code_from_str() {
    // Test valid language codes
    assert_eq!(LanguageCode::parse("en").unwrap(), LanguageCode::EN);
    assert_eq!(LanguageCode::parse("EN").unwrap(), LanguageCode::EN);
    assert_eq!(LanguageCode::parse("en-gb").unwrap(), LanguageCode::EnGb);
    assert_eq!(LanguageCode::parse("zh-hans").unwrap(), LanguageCode::ZhHans);

    // Test invalid language code
    let invalid = LanguageCode::parse("xx");
    assert!(invalid.is_err());
    assert_eq!(invalid.unwrap_err().message(), "Unknown language code: xx");
}

#[test]
fn test_country_code_display() {
    assert_eq!(CountryCode::US.to_wire_string(), "us");
    assert_eq!(CountryCode::ALL.to_wire_string(), "all");
    assert_eq!(CountryCode::JP.to_wire_string(), "jp");
}

#[test]
fn test_language_code_display() {
    assert_eq!(LanguageCode::EN.to_wire_string(), "en");
    assert_eq!(LanguageCode::EnGb.to_wire_string(), "en-gb");
    assert_eq!(LanguageCode::ZhHans.to_wire_string(), "zh-hans");
}

#[test]
fn test_country_code_round_trip() {
    let all = [
        "ALL", "AR", "AU", "AT", "BE", "BR", "CA", "CL", "DK", "FI", "FR", "DE", "HK", "IN", "ID",
        "IT", "JP", "KR", "MY", "MX", "NL", "NZ", "NO", "CN", "PL", "PT", "PH", "RU", "SA", "ZA",
        "ES", "SE", "CH", "TW", "TR", "GB", "US",
    ];
    for input in all {
        let parsed = CountryCode::parse(input).unwrap();
        let wire = parsed.to_wire_string();
        let reparsed = CountryCode::parse(wire.as_str()).unwrap();
        assert_eq!(reparsed, parsed);
        // case-insensitive on input: the lower-case spelling parses alike
        let lower = input.to_lowercase();
        assert_eq!(CountryCode::parse(lower.as_str()).unwrap(), parsed);
    }
}

#[test]
fn test_language_code_round_trip() {
    let all = [
        "ar", "eu", "bn", "bg", "ca", "zh-hans", "zh-hant", "hr", "cs", "da", "nl", "en", "en-gb",
        "et", "fi", "fr", "gl", "de", "gu", "he", "hi", "hu", "is", "it", "ja", "kn", "ko", "lv",
        "lt", "ms", "ml", "mr", "nb", "pl", "pt", "pt-br", "pa", "ro", "ru", "sr", "sk", "sl",
        "es", "sv", "ta", "te", "th", "tr", "uk", "vi",
    ];
    for input in all {
        let parsed = LanguageCode::parse(input).unwrap();
        let wire = parsed.to_wire_string();
        assert_eq!(wire, input);
        let reparsed = LanguageCode::parse(wire.as_str()).unwrap();
        assert_eq!(reparsed, parsed);
        // case-insensitive on input: the upper-case spelling parses alike
        let upper = input.to_uppercase();
        assert_eq!(LanguageCode::parse(upper.as_str()).unwrap(), parsed);
    }
}

#[test]
fn test_language_code_underscore_spellings() {
    assert_eq!(LanguageCode::parse("zh_hans").unwrap(), LanguageCode::ZhHans);
    assert_eq!(LanguageCode::parse("zh_hant").unwrap(), LanguageCode::ZhHant);
    assert_eq!(LanguageCode::parse("en_gb").unwrap(), LanguageCode::EnGb);
    assert_eq!(LanguageCode::parse("pt_br").unwrap(), LanguageCode::PtBr);
}

#[test]
fn test_non_ascii_input_rejected() {
    // Case folding is ASCII-only: an accented spelling matches no code and
    // comes back unmodified in the message.
    let err = CountryCode::parse("Üs").unwrap_err();
    assert_eq!(err.message(), "Unknown country code: Üs");
    assert!(LanguageCode::parse("ƒr").is_err());
}

#[test]
fn test_unknown_code_keeps_original_case() {
    let err = CountryCode::parse("zZ").unwrap_err();
    assert_eq!(err.input, "zZ");
    assert_eq!(err.message(), "Unknown country code: zZ");
    let err = LanguageCode::parse("Xx").unwrap_err();
    assert_eq!(err.input, "Xx");
    assert_eq!(err.message(), "Unknown language code: Xx");
}
