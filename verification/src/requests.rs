//! Planning of upstream HTTP requests: the fixed header set, and URL
//! construction through the `url` crate (the URL type reqwest re-exports).
use vstd::prelude::*;

verus! {

/// A fully planned upstream GET request: the URL and its headers.
pub struct HttpRequest {
    pub url: String,
    pub headers: Vec<(String, String)>,
}

/// The fixed headers of every upstream call, with the subscription token as
/// the credential.
pub open spec fn spec_headers(api_key: Seq<char>) -> Seq<(Seq<char>, Seq<char>)> {
    seq![
        ("Accept"@, "application/json"@),
        ("Accept-Encoding"@, "gzip"@),
        ("X-Subscription-Token"@, api_key),
    ]
}

fn request_headers(api_key: &str) -> (r: Vec<(String, String)>)
    ensures
        r.deep_view() == spec_headers(api_key@),
{
    let mut r: Vec<(String, String)> = Vec::new();
    r.push(("Accept".to_owned(), "application/json".to_owned()));
    r.push(("Accept-Encoding".to_owned(), "gzip".to_owned()));
    r.push(("X-Subscription-Token".to_owned(), api_key.to_owned()));
    proof {
        assert(r.deep_view() =~= spec_headers(api_key@));
    }
    r
}

/// Declares `url::ParseError`, the error of URL parsing, so that planning
/// functions can hand it to their caller; nothing here reads its inside.
#[verifier::external_type_specification]
#[verifier::external_body]
pub struct ExUrlParseError(url::ParseError);

/// What `url::Url::parse_with_params` serializes for an absolute URL `base`
/// and query pairs `params`: a function of those two values alone.
pub uninterp spec fn spec_url_with_params(
    base: Seq<char>,
    params: Seq<(Seq<char>, Seq<char>)>,
) -> Seq<char>;

/// Whether `url::Url::parse_with_params` succeeds on the base URL `base`:
/// the pairs are appended to the query and never make it fail, so success is
/// a function of `base` alone.
pub uninterp spec fn spec_url_ok(base: Seq<char>) -> bool;

/// Relies on `url::Url::parse_with_params` (reqwest re-exports this type as
/// its `Url`): parses the absolute URL `base`, appends each pair of `params`
/// percent-encoded to its query, and serializes the whole; it fails exactly
/// when parsing `base` fails. The url crate caps a URL's serialization at
/// 4 GB; parameters anywhere near that cap are past this library's machine
/// limits.
#[verifier::external_body]
fn url_with_params(base: &str, params: &Vec<(String, String)>) -> (r: Result<
    String,
    url::ParseError,
>)
    ensures
        r matches Ok(u) ==> u@ == spec_url_with_params(base@, params.deep_view()),
        r is Ok <==> spec_url_ok(base@),
{
    match url::Url::parse_with_params(base, params) {
        Ok(u) => Ok(u.into()),
        Err(e) => Err(e),
    }
}

/// Plans one upstream GET: the URL built from `base` and `params`, with the
/// fixed headers carrying `api_key`. It succeeds exactly when `base` parses
/// as a URL.
pub fn build_request(base: &str, params: &Vec<(String, String)>, api_key: &str) -> (r: Result<
    HttpRequest,
    url::ParseError,
>)
    ensures
        r is Ok <==> spec_url_ok(base@),
        r matches Ok(req) ==> {
            &&& req.url@ == spec_url_with_params(base@, params.deep_view())
            &&& req.headers.deep_view() == spec_headers(api_key@)
        },
{
    match url_with_params(base, params) {
        Ok(url) => Ok(HttpRequest { url, headers: request_headers(api_key) }),
        Err(e) => Err(e),
    }
}

} // verus!
