use bravesearch_mcp::format::{format_location_refs, format_news_results, format_poi_results,
    format_web_results};
use bravesearch_mcp::results::{DescriptionMap, LocationRef, NewsResult, PoiDetail, PostalAddress,
    Rating, WebResult};

fn empty_address() -> PostalAddress {
    PostalAddress {
        street_address: None,
        address_locality: None,
        address_region: None,
        postal_code: None,
        country: None,
    }
}

#[test]
fn test_web_formatting_empty_is_empty_string() {
    let results: Vec<WebResult> = Vec::new();
    assert_eq!(format_web_results(&results), "");
}

#[test]
fn test_web_formatting_single_result() {
    let results = vec![WebResult {
        title: "T".to_string(),
        description: "D".to_string(),
        url: "U".to_string(),
    }];
    assert_eq!(format_web_results(&results), "Title: T\nDescription: D\nURL: U");
}

#[test]
fn test_web_formatting_blocks_joined_by_blank_line() {
    let results = vec![
        WebResult {
            title: "A".to_string(),
            description: "B".to_string(),
            url: "C".to_string(),
        },
        WebResult {
            title: "D".to_string(),
            description: "E".to_string(),
            url: "F".to_string(),
        },
    ];
    assert_eq!(
        format_web_results(&results),
        "Title: A\nDescription: B\nURL: C\n\nTitle: D\nDescription: E\nURL: F"
    );
}

fn plain_news(title: &str) -> NewsResult {
    NewsResult {
        title: title.to_string(),
        description: "d".to_string(),
        url: "u".to_string(),
        age: None,
        breaking: None,
        thumbnail_src: None,
    }
}

#[test]
fn test_news_formatting_empty_message() {
    let results: Vec<NewsResult> = Vec::new();
    assert_eq!(format_news_results(&results), "No news results found");
}

#[test]
fn test_news_formatting_breaking_prefix() {
    let mut breaking = plain_news("t");
    breaking.breaking = Some(true);
    let results = vec![breaking];
    assert_eq!(
        format_news_results(&results),
        "[BREAKING] Title: t\nDescription: d\nURL: u\nAge: Unknown"
    );
}

#[test]
fn test_news_formatting_missing_age_is_unknown() {
    let results = vec![plain_news("t")];
    assert_eq!(format_news_results(&results), "Title: t\nDescription: d\nURL: u\nAge: Unknown");
}

#[test]
fn test_news_formatting_full_record() {
    let record = NewsResult {
        title: "t".to_string(),
        description: "d".to_string(),
        url: "u".to_string(),
        age: Some("2 hours ago".to_string()),
        breaking: Some(false),
        thumbnail_src: Some("http://img".to_string()),
    };
    let results = vec![record, plain_news("s")];
    assert_eq!(
        format_news_results(&results),
        "Title: t\nDescription: d\nURL: u\nAge: 2 hours ago\nThumbnail: http://img\n\n\
         Title: s\nDescription: d\nURL: u\nAge: Unknown"
    );
}

#[test]
fn test_location_block_with_only_id() {
    let refs = vec![LocationRef {
        id: "loc-1".to_string(),
        title: None,
        coordinates: None,
        postal_address: None,
    }];
    assert_eq!(format_location_refs(&refs), "ID: loc-1");
}

#[test]
fn test_location_block_full() {
    let refs = vec![
        LocationRef {
            id: "a".to_string(),
            title: Some("Cafe".to_string()),
            coordinates: Some(vec!["47.6".to_string(), "-122.3".to_string()]),
            postal_address: Some(PostalAddress {
                street_address: Some("1 Main St".to_string()),
                address_locality: Some("Seattle".to_string()),
                address_region: Some("WA".to_string()),
                postal_code: Some("98101".to_string()),
                country: Some("US".to_string()),
            }),
        },
        LocationRef {
            id: "b".to_string(),
            title: None,
            coordinates: None,
            postal_address: None,
        },
    ];
    assert_eq!(
        format_location_refs(&refs),
        "Name: Cafe\nAddress: 1 Main St, Seattle, WA, 98101, US\n\
         Coordinates: 47.6, -122.3\nID: a\n---\nID: b"
    );
}

#[test]
fn test_location_block_skips_empty_address_parts() {
    let refs = vec![LocationRef {
        id: "x".to_string(),
        title: None,
        coordinates: None,
        postal_address: Some(PostalAddress {
            street_address: Some("".to_string()),
            address_locality: Some("Seattle".to_string()),
            address_region: None,
            postal_code: Some("98101".to_string()),
            country: None,
        }),
    }];
    assert_eq!(format_location_refs(&refs), "Address: Seattle, 98101\nID: x");
}

#[test]
fn test_location_block_short_coordinates_dropped() {
    let refs = vec![LocationRef {
        id: "x".to_string(),
        title: None,
        coordinates: Some(vec!["47.6".to_string()]),
        postal_address: None,
    }];
    assert_eq!(format_location_refs(&refs), "ID: x");
}

#[test]
fn test_poi_formatting_empty_message() {
    let pois: Vec<PoiDetail> = Vec::new();
    let descriptions = DescriptionMap::new();
    assert_eq!(format_poi_results(&pois, &descriptions), "No local results found");
}

#[test]
fn test_poi_formatting_missing_fields_substituted() {
    let pois = vec![PoiDetail {
        id: "p1".to_string(),
        name: "Cafe".to_string(),
        address: empty_address(),
        phone: None,
        rating: None,
        opening_hours: None,
        price_range: None,
    }];
    let descriptions = DescriptionMap::new();
    assert_eq!(
        format_poi_results(&pois, &descriptions),
        "Name: Cafe\nAddress: N/A\nPhone: N/A\nRating: N/A (0 reviews)\n\
         Price Range: N/A\nHours: N/A\nDescription: No description available"
    );
}

#[test]
fn test_poi_formatting_full_record_merged_by_id() {
    let pois = vec![PoiDetail {
        id: "p1".to_string(),
        name: "Cafe".to_string(),
        address: PostalAddress {
            street_address: Some("1 Main St".to_string()),
            address_locality: Some("Seattle".to_string()),
            address_region: Some("WA".to_string()),
            postal_code: Some("98101".to_string()),
            country: None,
        },
        phone: Some("555-1234".to_string()),
        rating: Some(Rating { value: Some("4.5".to_string()), count: Some(120) }),
        opening_hours: Some(vec!["Mon 8-5".to_string(), "Tue 8-5".to_string()]),
        price_range: Some("$$".to_string()),
    }];
    let mut descriptions = DescriptionMap::new();
    descriptions.push("other".to_string(), "wrong".to_string());
    descriptions.push("p1".to_string(), "A fine cafe".to_string());
    assert_eq!(
        format_poi_results(&pois, &descriptions),
        "Name: Cafe\nAddress: 1 Main St, Seattle, WA, 98101\nPhone: 555-1234\n\
         Rating: 4.5 (120 reviews)\nPrice Range: $$\nHours: Mon 8-5, Tue 8-5\n\
         Description: A fine cafe"
    );
}

#[test]
fn test_description_lookup_first_match_wins() {
    let mut descriptions = DescriptionMap::new();
    descriptions.push("a".to_string(), "first".to_string());
    descriptions.push("a".to_string(), "second".to_string());
    assert_eq!(descriptions.description_for("a"), Some("first".to_string()));
    assert_eq!(descriptions.description_for("b"), None);
}
