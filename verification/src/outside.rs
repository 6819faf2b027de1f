//! The calls into other crates that the controllers make in the middle of
//! their logic. Each item states what is taken on trust of the code it calls.
use crate::error::SourceError;
use base64::Engine;
use chrono::TimeZone;
use rand::Rng;
use vstd::prelude::*;

verus! {

/// `String::push`: appends one character.
pub assume_specification[ String::push ](s: &mut String, c: char)
    ensures
        final(s)@ == old(s)@.push(c),
;

/// `String::from_utf8`: succeeds exactly on well-formed UTF-8 and then holds
/// the characters that the bytes encode.
#[verifier::external_body]
pub(crate) fn utf8_text(bytes: &Vec<u8>) -> (r: Option<String>)
    ensures
        r is Some <==> vstd::utf8::valid_utf8(bytes@),
        r matches Some(text) ==> text@ == vstd::utf8::decode_utf8(bytes@),
{
    String::from_utf8(bytes.clone()).ok()
}

/// What `str::to_lowercase` makes of a text.
pub uninterp spec fn lowercase(text: Seq<char>) -> Seq<char>;

/// `str::to_lowercase`: the result depends on the characters alone.
#[verifier::external_body]
pub(crate) fn lowercased(text: &str) -> (r: String)
    ensures
        r@ == lowercase(text@),
{
    text.to_lowercase()
}

/// How a text prints for debugging: between double quotes, with escapes.
pub uninterp spec fn text_debug(text: Seq<char>) -> Seq<char>;

/// `Debug` of `str`: the result depends on the characters alone.
#[verifier::external_body]
pub(crate) fn debug_text(text: &str) -> (r: String)
    ensures
        r@ == text_debug(text@),
{
    format!("{text:?}")
}

/// A letter `A-Z` or `a-z`, or a digit `0-9`.
pub open spec fn alphanumeric(c: char) -> bool {
    ||| 'A' <= c <= 'Z'
    ||| 'a' <= c <= 'z'
    ||| '0' <= c <= '9'
}

/// `rand::distr::Alphanumeric`, sampled once from the thread's generator:
/// some ASCII letter or digit.
#[verifier::external_body]
pub(crate) fn random_alphanumeric() -> (r: char)
    ensures
        alphanumeric(r),
{
    char::from(rand::rng().sample(rand::distr::Alphanumeric))
}

/// `rand::Rng::random_range` on `0..bound`: some number below the bound. The
/// call panics on an empty range.
#[verifier::external_body]
pub(crate) fn random_below(bound: usize) -> (r: usize)
    requires
        bound > 0,
    ensures
        r < bound,
{
    rand::rng().random_range(0..bound)
}

/// A character of the standard Base64 alphabet, padding included.
pub open spec fn base64_char(c: char) -> bool {
    alphanumeric(c) || c == '+' || c == '/' || c == '='
}

/// The standard, padded Base64 text of some bytes.
pub uninterp spec fn base64_standard(bytes: Seq<u8>) -> Seq<char>;

/// `base64::Engine::encode` of the standard engine: four characters of the
/// alphabet for each started group of three bytes.
#[verifier::external_body]
pub(crate) fn base64_encode(bytes: &[u8]) -> (r: String)
    ensures
        r@ == base64_standard(bytes@),
        r@.len() == 4 * ((bytes@.len() + 2) / 3),
        forall|i: int| 0 <= i < r@.len() ==> base64_char(#[trigger] r@[i]),
{
    base64::engine::general_purpose::STANDARD.encode(bytes)
}

/// A character that may stand in a header value: none of the ASCII control
/// characters but the tab.
pub open spec fn header_char(c: char) -> bool {
    (c >= ' ' && c != '\x7f') || c == '\t'
}

/// `http::HeaderValue::from_str`: accepts exactly the texts without control
/// characters, and keeps the text as it is.
#[verifier::external_body]
pub(crate) fn header_value(text: &str) -> (r: Result<String, SourceError>)
    ensures
        r is Ok <==> forall|i: int| 0 <= i < text@.len() ==> header_char(#[trigger] text@[i]),
        r matches Ok(value) ==> value@ == text@,
{
    match http::HeaderValue::from_str(text) {
        Ok(value) => Ok(String::from_utf8_lossy(value.as_bytes()).into_owned()),
        Err(e) => Err(SourceError { display: e.to_string(), debug: format!("{e:?}") }),
    }
}

/// What the `http` crate makes of a request target: the target it keeps, or
/// the display and debug texts of its error.
pub uninterp spec fn built_uri(target: Seq<char>) -> Result<Seq<char>, (Seq<char>, Seq<char>)>;

/// A path that every part of the `http` crate reads as it stands: it starts
/// with a slash, goes on with letters, digits, slashes, hyphens, dots, colons
/// and underscores, and is not longer than a path may be.
pub open spec fn plain_path(target: Seq<char>) -> bool {
    &&& 0 < target.len() <= 65534
    &&& target[0] == '/'
    &&& forall|i: int| 0 <= i < target.len() ==> path_char(#[trigger] target[i])
}

/// A character of a plain path.
pub open spec fn path_char(c: char) -> bool {
    alphanumeric(c) || c == '/' || c == '-' || c == '.' || c == ':' || c == '_'
}

/// `http::request::Builder::uri`, finished with an empty body: the outcome
/// depends on the target alone, and a plain path is kept as it is.
#[verifier::external_body]
pub(crate) fn request_uri(target: &str) -> (r: Result<String, SourceError>)
    ensures
        r is Ok <==> built_uri(target@) is Ok,
        r matches Ok(uri) ==> uri@ == built_uri(target@)->Ok_0,
        r matches Err(e) ==> (e.display@, e.debug@) == built_uri(target@)->Err_0,
        plain_path(target@) ==> r is Ok && r->Ok_0@ == target@,
{
    match http::Request::builder().uri(target).body(()) {
        Ok(request) => Ok(request.uri().to_string()),
        Err(e) => Err(SourceError { display: e.to_string(), debug: format!("{e:?}") }),
    }
}

/// Host, port and path of a URL. The port is absent where it is the default
/// port of the scheme.
pub struct UrlParts {
    pub host: Option<String>,
    pub port: Option<u16>,
    pub path: String,
}

/// What `Url::parse` makes of a text: host, port and path, or the display and
/// debug texts of its error.
pub uninterp spec fn parsed_url(
    text: Seq<char>,
) -> Result<(Option<Seq<char>>, Option<u16>, Seq<char>), (Seq<char>, Seq<char>)>;

/// `url::Url::parse`, read with `host_str`, `port` and `path`: the outcome
/// depends on the text alone.
#[verifier::external_body]
pub(crate) fn parse_url(text: &str) -> (r: Result<UrlParts, SourceError>)
    ensures
        r is Ok <==> parsed_url(text@) is Ok,
        r matches Ok(parts) ==> (parts.host.deep_view(), parts.port, parts.path@) == parsed_url(
            text@,
        )->Ok_0,
        r matches Err(e) ==> (e.display@, e.debug@) == parsed_url(text@)->Err_0,
{
    match url::Url::parse(text) {
        Ok(url) => Ok(
            UrlParts {
                host: url.host_str().map(String::from),
                port: url.port(),
                path: url.path().to_string(),
            },
        ),
        Err(e) => Err(SourceError { display: e.to_string(), debug: format!("{e:?}") }),
    }
}

/// The Unix time, in seconds, of a date and a time of day in UTC.
pub uninterp spec fn utc_seconds(
    year: int,
    month: int,
    day: int,
    hour: int,
    minute: int,
    second: int,
) -> Option<i64>;

/// `chrono::TimeZone::with_ymd_and_hms` on `Utc`, read with `timestamp`: the
/// outcome depends on the six numbers alone, and there is one at least for
/// every time of day on the first 28 days of every month of four-digit years.
#[verifier::external_body]
pub(crate) fn utc_timestamp(
    year: i32,
    month: u32,
    day: u32,
    hour: u32,
    minute: u32,
    second: u32,
) -> (r: Option<i64>)
    ensures
        r == utc_seconds(
            year as int,
            month as int,
            day as int,
            hour as int,
            minute as int,
            second as int,
        ),
        (0 <= year <= 9999 && 1 <= month <= 12 && 1 <= day <= 28 && hour < 24 && minute < 60
            && second < 60) ==> r is Some,
{
    chrono::Utc.with_ymd_and_hms(year, month, day, hour, minute, second).single().map(
        |t| t.timestamp(),
    )
}

/// Where a plain HTTP client posts to: the URL without the credentials in it,
/// and the value of the authorization header that they turned into.
#[derive(Clone, Debug)]
pub struct PostTarget {
    pub url: String,
    pub authorization: Option<String>,
}

/// What `reqwest` makes of the URL of a request: URL and authorization header,
/// or the display and debug texts of its error.
pub uninterp spec fn posted_url(
    url: Seq<char>,
) -> Result<(Seq<char>, Option<Seq<char>>), (Seq<char>, Seq<char>)>;

/// `reqwest::Client::post`, finished with `build`: the outcome depends on the
/// URL alone. The client that it takes is made without TLS and with the
/// resolver of the system, so that there is nothing to go wrong in making it.
#[verifier::external_body]
pub(crate) fn post_target(url: &str) -> (r: Result<PostTarget, SourceError>)
    ensures
        r is Ok <==> posted_url(url@) is Ok,
        r matches Ok(target) ==> (target.url@, target.authorization.deep_view()) == posted_url(
            url@,
        )->Ok_0,
        r matches Err(e) ==> (e.display@, e.debug@) == posted_url(url@)->Err_0,
{
    match reqwest::Client::new().post(url).build() {
        Ok(request) => {
            let value = request.headers().get(reqwest::header::AUTHORIZATION);
            let authorization = value.map(|v| String::from_utf8_lossy(v.as_bytes()).into_owned());
            Ok(PostTarget { url: request.url().to_string(), authorization })
        },
        Err(e) => Err(SourceError { display: e.to_string(), debug: format!("{e:?}") }),
    }
}

} // verus!
