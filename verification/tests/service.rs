use bravesearch_mcp::codes::{CountryCode, LanguageCode};
use bravesearch_mcp::errors::{SearchError, error_text, http_outcome};
use bravesearch_mcp::results::LocationRef;
use bravesearch_mcp::service::{LocalFollowup, local_followup, plan_descriptions_request,
    plan_locations_request, plan_news_request, plan_poi_request, plan_web_search,
    resolve_news_codes};
use bravesearch_mcp::text::decimal_string;

#[test]
fn test_decimal_rendering() {
    assert_eq!(decimal_string(0), "0");
    assert_eq!(decimal_string(7), "7");
    assert_eq!(decimal_string(120), "120");
    assert_eq!(decimal_string(15000), "15000");
    assert_eq!(decimal_string(u64::MAX), "18446744073709551615");
}

#[test]
fn test_web_search_count_clamped() {
    let req = plan_web_search("rust", Some(999), None, "key").unwrap();
    assert_eq!(
        req.url,
        "https://api.search.brave.com/res/v1/web/search?q=rust&count=20&offset=0"
    );
}

#[test]
fn test_web_search_defaults_and_encoding() {
    let req = plan_web_search("coffee shop", None, None, "key").unwrap();
    assert_eq!(
        req.url,
        "https://api.search.brave.com/res/v1/web/search?q=coffee+shop&count=10&offset=0"
    );
}

#[test]
fn test_request_headers_fixed_set() {
    let req = plan_web_search("q", Some(1), Some(1), "secret-token").unwrap();
    assert_eq!(
        req.headers,
        vec![
            ("Accept".to_string(), "application/json".to_string()),
            ("Accept-Encoding".to_string(), "gzip".to_string()),
            ("X-Subscription-Token".to_string(), "secret-token".to_string()),
        ]
    );
}

#[test]
fn test_news_search_offset_clamped() {
    let req = plan_news_request(
        "news",
        Some(3),
        Some(50),
        CountryCode::US,
        LanguageCode::EN,
        None,
        "key",
    )
    .unwrap();
    assert_eq!(
        req.url,
        "https://api.search.brave.com/res/v1/news/search?q=news&count=3&offset=9\
         &country=us&search_lang=en&spellcheck=1"
    );
}

#[test]
fn test_news_search_freshness_and_codes() {
    let req = plan_news_request(
        "technology",
        Some(3),
        None,
        CountryCode::JP,
        LanguageCode::EnGb,
        Some("w"),
        "key",
    )
    .unwrap();
    assert_eq!(
        req.url,
        "https://api.search.brave.com/res/v1/news/search?q=technology&count=3&offset=0\
         &country=jp&search_lang=en-gb&spellcheck=1&freshness=w"
    );
}

#[test]
fn test_locations_request_shape() {
    let req = plan_locations_request("coffee shop", Some(2), "key").unwrap();
    assert_eq!(
        req.url,
        "https://api.search.brave.com/res/v1/web/search?q=coffee+shop&search_lang=en\
         &result_filter=locations&count=2"
    );
}

#[test]
fn test_poi_and_description_requests_repeat_ids() {
    let ids = vec!["a".to_string(), "b c".to_string()];
    let pois = plan_poi_request(&ids, "key").unwrap();
    assert_eq!(
        pois.url,
        "https://api.search.brave.com/res/v1/local/pois?ids=a&ids=b+c"
    );
    let descriptions = plan_descriptions_request(&ids, "key").unwrap();
    assert_eq!(
        descriptions.url,
        "https://api.search.brave.com/res/v1/local/descriptions?ids=a&ids=b+c"
    );
}

#[test]
fn test_resolve_news_codes_defaults() {
    let (country, lang) = resolve_news_codes(None, None).unwrap();
    assert_eq!(country, CountryCode::US);
    assert_eq!(lang, LanguageCode::EN);
}

#[test]
fn test_resolve_news_codes_case_insensitive() {
    let (country, lang) = resolve_news_codes(Some("jp"), Some("EN")).unwrap();
    assert_eq!(country, CountryCode::JP);
    assert_eq!(lang, LanguageCode::EN);
}

#[test]
fn test_resolve_news_codes_bad_country() {
    let err = resolve_news_codes(Some("ZZ"), Some("en")).unwrap_err();
    assert_eq!(err, "Error parsing country code: Unknown country code: ZZ");
}

#[test]
fn test_resolve_news_codes_bad_language() {
    let err = resolve_news_codes(Some("US"), Some("xx")).unwrap_err();
    assert_eq!(err, "Error parsing language code: Unknown language code: xx");
}

#[test]
fn test_resolve_news_codes_country_error_first() {
    let err = resolve_news_codes(Some("ZZ"), Some("xx")).unwrap_err();
    assert_eq!(err, "Error parsing country code: Unknown country code: ZZ");
}

#[test]
fn test_local_followup_empty_list_falls_back_to_web() {
    assert!(matches!(local_followup(&None), LocalFollowup::WebFallback));
    assert!(matches!(local_followup(&Some(Vec::new())), LocalFollowup::WebFallback));
}

#[test]
fn test_local_followup_id_only_entry_renders_id_line() {
    let refs = vec![LocationRef {
        id: "loc-9".to_string(),
        title: None,
        coordinates: None,
        postal_address: None,
    }];
    match local_followup(&Some(refs)) {
        LocalFollowup::Text(t) => assert_eq!(t, "ID: loc-9"),
        _ => panic!("expected inline text"),
    }
}

#[test]
fn test_http_outcome_classification() {
    assert_eq!(
        http_outcome(200, "OK".to_string(), "body".to_string()),
        Ok("body".to_string())
    );
    assert!(http_outcome(299, "".to_string(), "b".to_string()).is_ok());
    let err = http_outcome(404, "Not Found".to_string(), "missing".to_string()).unwrap_err();
    assert_eq!(
        error_text(&err),
        "Error: Brave API error: 404 Not Found\nmissing"
    );
}

#[test]
fn test_error_texts() {
    assert_eq!(error_text(&SearchError::RateLimitExceeded), "Error: Rate limit exceeded");
    let parse = SearchError::UpstreamParse { cause: "bad json".to_string() };
    assert_eq!(error_text(&parse), "Error: Failed to parse API response: bad json");
}
