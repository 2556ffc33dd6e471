//! Per-tool planning: bounds defaulting and clamping, optional-code
//! resolution with its exact reply texts, the query parameter sets of the
//! four upstream calls, and the local-search fallback decision.
use vstd::prelude::*;

use crate::codes::{CodeKind, CountryCode, LanguageCode, country_input_valid, country_token,
    language_input_valid, language_matches, language_token, spec_unknown_code_message};
use crate::format::{format_location_refs, spec_format_locations};
use crate::requests::{HttpRequest, build_request, spec_headers, spec_url_ok, spec_url_with_params};
use crate::results::LocationRef;
use crate::text::{decimal_string, spec_decimal, spec_lower};

verus! {

/// Web search results returned when the caller names no count.
pub const WEB_COUNT_DEFAULT: u64 = 10;

/// Most web search results one request may ask for.
pub const WEB_COUNT_MAX: u64 = 20;

/// News search results returned when the caller names no count.
pub const NEWS_COUNT_DEFAULT: u64 = 20;

/// Most news search results one request may ask for.
pub const NEWS_COUNT_MAX: u64 = 50;

/// Location results returned when the caller names no count.
pub const LOCAL_COUNT_DEFAULT: u64 = 5;

/// Most location results one request may ask for.
pub const LOCAL_COUNT_MAX: u64 = 20;

/// Pagination offset used when the caller names none.
pub const OFFSET_DEFAULT: u64 = 0;

/// Largest pagination offset a request may carry.
pub const OFFSET_MAX: u64 = 9;

/// The requested value, defaulted when absent, then clamped to `max`.
pub open spec fn spec_clamp(requested: Option<u64>, default: u64, max: u64) -> u64 {
    let v = match requested {
        Some(v) => v,
        None => default,
    };
    if v <= max {
        v
    } else {
        max
    }
}

/// Defaults and clamps one numeric tool parameter.
pub fn clamp(requested: Option<u64>, default: u64, max: u64) -> (r: u64)
    ensures
        r == spec_clamp(requested, default, max),
{
    let v = match requested {
        Some(v) => v,
        None => default,
    };
    if v <= max {
        v
    } else {
        max
    }
}

/// The query parameters of a web search, in wire order.
pub open spec fn spec_web_params(query: Seq<char>, count: u64, offset: u64) -> Seq<
    (Seq<char>, Seq<char>),
> {
    seq![
        ("q"@, query),
        ("count"@, spec_decimal(count as nat)),
        ("offset"@, spec_decimal(offset as nat)),
    ]
}

fn web_params(query: &str, count: u64, offset: u64) -> (r: Vec<(String, String)>)
    ensures
        r.deep_view() == spec_web_params(query@, count, offset),
{
    let mut r: Vec<(String, String)> = Vec::new();
    r.push(("q".to_owned(), query.to_owned()));
    r.push(("count".to_owned(), decimal_string(count)));
    r.push(("offset".to_owned(), decimal_string(offset)));
    proof {
        assert(r.deep_view() =~= spec_web_params(query@, count, offset));
    }
    r
}

/// Plans a web search: count defaulted to 10 and clamped to 20, offset
/// defaulted to 0 and clamped to 9, sent as `q`, `count` and `offset`
/// against the web search endpoint with the fixed headers.
pub fn plan_web_search(query: &str, count: Option<u64>, offset: Option<u64>, api_key: &str) -> (r:
    Result<HttpRequest, url::ParseError>)
    ensures
        r is Ok <==> spec_url_ok("https://api.search.brave.com/res/v1/web/search"@),
        r matches Ok(req) ==> {
            &&& req.url@ == spec_url_with_params(
                "https://api.search.brave.com/res/v1/web/search"@,
                spec_web_params(
                    query@,
                    spec_clamp(count, WEB_COUNT_DEFAULT, WEB_COUNT_MAX),
                    spec_clamp(offset, OFFSET_DEFAULT, OFFSET_MAX),
                ),
            )
            &&& req.headers.deep_view() == spec_headers(api_key@)
        },
{
    let count = clamp(count, WEB_COUNT_DEFAULT, WEB_COUNT_MAX);
    let offset = clamp(offset, OFFSET_DEFAULT, OFFSET_MAX);
    let params = web_params(query, count, offset);
    build_request("https://api.search.brave.com/res/v1/web/search", &params, api_key)
}

/// The query parameters of a news search, in wire order; `freshness` is
/// appended only when given.
pub open spec fn spec_news_params(
    query: Seq<char>,
    count: u64,
    offset: u64,
    country: CountryCode,
    lang: LanguageCode,
    freshness: Option<Seq<char>>,
) -> Seq<(Seq<char>, Seq<char>)> {
    let base = seq![
        ("q"@, query),
        ("count"@, spec_decimal(count as nat)),
        ("offset"@, spec_decimal(offset as nat)),
        ("country"@, country_token(country)),
        ("search_lang"@, language_token(lang)),
        ("spellcheck"@, "1"@),
    ];
    match freshness {
        Some(f) => base.push(("freshness"@, f)),
        None => base,
    }
}

fn news_params(
    query: &str,
    count: u64,
    offset: u64,
    country: CountryCode,
    lang: LanguageCode,
    freshness: Option<&str>,
) -> (r: Vec<(String, String)>)
    ensures
        r.deep_view() == spec_news_params(
            query@,
            count,
            offset,
            country,
            lang,
            match freshness {
                Some(f) => Some(f@),
                None => None,
            },
        ),
{
    let mut r: Vec<(String, String)> = Vec::new();
    r.push(("q".to_owned(), query.to_owned()));
    r.push(("count".to_owned(), decimal_string(count)));
    r.push(("offset".to_owned(), decimal_string(offset)));
    r.push(("country".to_owned(), country.to_wire_string()));
    r.push(("search_lang".to_owned(), lang.to_wire_string()));
    r.push(("spellcheck".to_owned(), "1".to_owned()));
    match freshness {
        Some(f) => {
            r.push(("freshness".to_owned(), f.to_owned()));
            proof {
                assert(r.deep_view() =~= spec_news_params(
                    query@,
                    count,
                    offset,
                    country,
                    lang,
                    Some(f@),
                ));
            }
        },
        None => {
            proof {
                assert(r.deep_view() =~= spec_news_params(
                    query@,
                    count,
                    offset,
                    country,
                    lang,
                    None::<Seq<char>>,
                ));
            }
        },
    }
    r
}

/// Plans a news search for already-resolved codes: count defaulted to 20 and
/// clamped to 50, offset defaulted to 0 and clamped to 9, sent with country,
/// language, a spellcheck mark and the optional freshness window against the
/// news search endpoint with the fixed headers.
pub fn plan_news_request(
    query: &str,
    count: Option<u64>,
    offset: Option<u64>,
    country: CountryCode,
    lang: LanguageCode,
    freshness: Option<&str>,
    api_key: &str,
) -> (r: Result<HttpRequest, url::ParseError>)
    ensures
        r is Ok <==> spec_url_ok("https://api.search.brave.com/res/v1/news/search"@),
        r matches Ok(req) ==> {
            &&& req.url@ == spec_url_with_params(
                "https://api.search.brave.com/res/v1/news/search"@,
                spec_news_params(
                    query@,
                    spec_clamp(count, NEWS_COUNT_DEFAULT, NEWS_COUNT_MAX),
                    spec_clamp(offset, OFFSET_DEFAULT, OFFSET_MAX),
                    country,
                    lang,
                    match freshness {
                        Some(f) => Some(f@),
                        None => None,
                    },
                ),
            )
            &&& req.headers.deep_view() == spec_headers(api_key@)
        },
{
    let count = clamp(count, NEWS_COUNT_DEFAULT, NEWS_COUNT_MAX);
    let offset = clamp(offset, OFFSET_DEFAULT, OFFSET_MAX);
    let params = news_params(query, count, offset, country, lang, freshness);
    build_request("https://api.search.brave.com/res/v1/news/search", &params, api_key)
}

/// Resolves the optional country and language inputs of a news search, or
/// produces the exact reply text owed when one of them parses to no code.
/// The country is examined first; an omitted input falls back to the
/// documented default.
pub fn resolve_news_codes(country: Option<&str>, search_lang: Option<&str>) -> (r: Result<
    (CountryCode, LanguageCode),
    String,
>)
    ensures
        r is Ok <==> ({
            &&& (country matches Some(cs) ==> country_input_valid(cs@))
            &&& (search_lang matches Some(ls) ==> language_input_valid(ls@))
        }),
        r matches Ok(codes) ==> {
            &&& match country {
                Some(cs) => spec_lower(cs@) == country_token(codes.0),
                None => codes.0 == CountryCode::US,
            }
            &&& match search_lang {
                Some(ls) => language_matches(codes.1, spec_lower(ls@)),
                None => codes.1 == LanguageCode::EN,
            }
        },
        r matches Err(t) ==> ({
            if (match country {
                Some(cs) => !country_input_valid(cs@),
                None => false,
            }) {
                match country {
                    Some(cs) => t@ == "Error parsing country code: "@ + spec_unknown_code_message(
                        CodeKind::Country,
                        cs@,
                    ),
                    None => false,
                }
            } else {
                match search_lang {
                    Some(ls) => !language_input_valid(ls@) && t@
                        == "Error parsing language code: "@ + spec_unknown_code_message(
                        CodeKind::Language,
                        ls@,
                    ),
                    None => false,
                }
            }
        }),
{
    let country_code = match country {
        Some(cs) => match CountryCode::parse(cs) {
            Ok(c) => {
                proof {
                    assert(country_input_valid(cs@));
                }
                c
            },
            Err(e) => {
                let mut t = "Error parsing country code: ".to_owned();
                let message = e.message();
                t.append(message.as_str());
                return Err(t);
            },
        },
        None => CountryCode::default(),
    };
    let language_code = match search_lang {
        Some(ls) => match LanguageCode::parse(ls) {
            Ok(l) => {
                proof {
                    assert(language_input_valid(ls@));
                }
                l
            },
            Err(e) => {
                let mut t = "Error parsing language code: ".to_owned();
                let message = e.message();
                t.append(message.as_str());
                return Err(t);
            },
        },
        None => LanguageCode::default(),
    };
    Ok((country_code, language_code))
}

/// The query parameters of a locations search, in wire order: the web search
/// endpoint filtered to location results.
pub open spec fn spec_locations_params(query: Seq<char>, count: u64) -> Seq<
    (Seq<char>, Seq<char>),
> {
    seq![
        ("q"@, query),
        ("search_lang"@, "en"@),
        ("result_filter"@, "locations"@),
        ("count"@, spec_decimal(count as nat)),
    ]
}

/// Plans a locations search: count defaulted to 5 and clamped to 20, sent as
/// a web search restricted to location results, with the fixed headers.
pub fn plan_locations_request(query: &str, count: Option<u64>, api_key: &str) -> (r: Result<
    HttpRequest,
    url::ParseError,
>)
    ensures
        r is Ok <==> spec_url_ok("https://api.search.brave.com/res/v1/web/search"@),
        r matches Ok(req) ==> {
            &&& req.url@ == spec_url_with_params(
                "https://api.search.brave.com/res/v1/web/search"@,
                spec_locations_params(
                    query@,
                    spec_clamp(count, LOCAL_COUNT_DEFAULT, LOCAL_COUNT_MAX),
                ),
            )
            &&& req.headers.deep_view() == spec_headers(api_key@)
        },
{
    let count = clamp(count, LOCAL_COUNT_DEFAULT, LOCAL_COUNT_MAX);
    let mut params: Vec<(String, String)> = Vec::new();
    params.push(("q".to_owned(), query.to_owned()));
    params.push(("search_lang".to_owned(), "en".to_owned()));
    params.push(("result_filter".to_owned(), "locations".to_owned()));
    params.push(("count".to_owned(), decimal_string(count)));
    proof {
        assert(params.deep_view() =~= spec_locations_params(query@, count));
    }
    build_request("https://api.search.brave.com/res/v1/web/search", &params, api_key)
}

/// One `ids` query pair per identifier, in order.
pub open spec fn spec_ids_params(ids: Seq<Seq<char>>) -> Seq<(Seq<char>, Seq<char>)> {
    ids.map_values(|id: Seq<char>| ("ids"@, id))
}

fn ids_params(ids: &Vec<String>) -> (r: Vec<(String, String)>)
    ensures
        r.deep_view() == spec_ids_params(ids.deep_view()),
{
    let ghost target: Seq<(Seq<char>, Seq<char>)> = spec_ids_params(ids.deep_view());
    let mut r: Vec<(String, String)> = Vec::new();
    proof {
        assert(r.deep_view() =~= target.take(0));
    }
    let mut i: usize = 0;
    while i < ids.len()
        invariant
            target == spec_ids_params(ids.deep_view()),
            target.len() == ids@.len(),
            i <= ids@.len(),
            r.deep_view() == target.take(i as int),
        decreases ids@.len() - i,
    {
        let ghost before = r.deep_view();
        r.push(("ids".to_owned(), ids[i].clone()));
        proof {
            assert(r.deep_view() =~= before.push(("ids"@, ids@[i as int]@)));
            assert(target.take(i + 1 as int) =~= target.take(i as int).push(target[i as int]));
        }
        i += 1;
    }
    proof {
        assert(target.take(ids@.len() as int) =~= target);
    }
    r
}

/// Plans a point-of-interest detail lookup for `ids`, with the fixed
/// headers.
pub fn plan_poi_request(ids: &Vec<String>, api_key: &str) -> (r: Result<
    HttpRequest,
    url::ParseError,
>)
    ensures
        r is Ok <==> spec_url_ok("https://api.search.brave.com/res/v1/local/pois"@),
        r matches Ok(req) ==> {
            &&& req.url@ == spec_url_with_params(
                "https://api.search.brave.com/res/v1/local/pois"@,
                spec_ids_params(ids.deep_view()),
            )
            &&& req.headers.deep_view() == spec_headers(api_key@)
        },
{
    let params = ids_params(ids);
    build_request("https://api.search.brave.com/res/v1/local/pois", &params, api_key)
}

/// Plans a description lookup for `ids`, with the fixed headers.
pub fn plan_descriptions_request(ids: &Vec<String>, api_key: &str) -> (r: Result<
    HttpRequest,
    url::ParseError,
>)
    ensures
        r is Ok <==> spec_url_ok("https://api.search.brave.com/res/v1/local/descriptions"@),
        r matches Ok(req) ==> {
            &&& req.url@ == spec_url_with_params(
                "https://api.search.brave.com/res/v1/local/descriptions"@,
                spec_ids_params(ids.deep_view()),
            )
            &&& req.headers.deep_view() == spec_headers(api_key@)
        },
{
    let params = ids_params(ids);
    build_request("https://api.search.brave.com/res/v1/local/descriptions", &params, api_key)
}

/// What a local search does after its locations response came back: the
/// ordered fallback chain's next step.
pub enum LocalFollowup {
    /// No location entries: fall back to a plain web search of the same
    /// query, and return that text verbatim.
    WebFallback,
    /// The entries' inline data sufficed: the finished text.
    Text(String),
    /// Inline rendering yielded nothing: fetch details and descriptions for
    /// these identifiers and format those instead.
    NeedDetails(Vec<String>),
}

/// Decides the next step of the local-search fallback chain from the
/// locations response's entries (`None` when the response carried no
/// locations section at all).
pub fn local_followup(locations: &Option<Vec<LocationRef>>) -> (r: LocalFollowup)
    ensures
        match r {
            LocalFollowup::WebFallback => !(locations matches Some(refs) && refs@.len() > 0),
            LocalFollowup::Text(t) => {
                &&& locations matches Some(refs) && refs@.len() > 0 && t@ == spec_format_locations(
                    refs@,
                )
                &&& t@.len() > 0
            },
            LocalFollowup::NeedDetails(ids) => locations matches Some(refs) && refs@.len() > 0
                && spec_format_locations(refs@).len() == 0 && ids.deep_view() == refs@.map_values(
                |l: LocationRef| l.id@,
            ),
        },
{
    match locations {
        None => LocalFollowup::WebFallback,
        Some(refs) => {
            if refs.len() == 0 {
                LocalFollowup::WebFallback
            } else {
                let text = format_location_refs(refs);
                if text.as_str().is_empty() {
                    let ghost target: Seq<Seq<char>> = refs@.map_values(
                        |l: LocationRef| l.id@,
                    );
                    let mut ids: Vec<String> = Vec::new();
                    proof {
                        assert(ids.deep_view() =~= target.take(0));
                    }
                    let mut i: usize = 0;
                    while i < refs.len()
                        invariant
                            target == refs@.map_values(|l: LocationRef| l.id@),
                            target.len() == refs@.len(),
                            i <= refs@.len(),
                            ids.deep_view() == target.take(i as int),
                        decreases refs@.len() - i,
                    {
                        let ghost before = ids.deep_view();
                        ids.push(refs[i].id.clone());
                        proof {
                            assert(ids.deep_view() =~= before.push(refs@[i as int].id@));
                            assert(target.take(i + 1 as int) =~= target.take(i as int).push(
                                target[i as int],
                            ));
                        }
                        i += 1;
                    }
                    proof {
                        assert(target.take(refs@.len() as int) =~= target);
                    }
                    LocalFollowup::NeedDetails(ids)
                } else {
                    LocalFollowup::Text(text)
                }
            }
        },
    }
}

} // verus!
