//! The calls into other crates. Each function here states what the called code
//! is taken to do; none of these statements is proved.

use vstd::prelude::*;
use crate::text::{optional_text, optional_text2};

verus! {

/// What `regex::Regex::replace` returns for the regex compiled from `pattern` by
/// `regex::Regex::new`, the haystack `text` and the replacement `replacement`:
/// the haystack with its leftmost match replaced, where `$` and a name in the
/// replacement stand for a capture group. `None` where the pattern does not
/// compile.
pub uninterp spec fn regex_replaced(
    pattern: Seq<char>,
    text: Seq<char>,
    replacement: Seq<char>,
) -> Option<Seq<char>>;

/// The capture group number `group` of the leftmost match of `pattern` in
/// `text`, as `regex::Regex::captures` and `regex::Captures::get` give it: the
/// outer `None` where the pattern does not compile, the inner `None` where
/// nothing matches or the group took no part in the match.
pub uninterp spec fn regex_group(pattern: Seq<char>, text: Seq<char>, group: usize) -> Option<
    Option<Seq<char>>,
>;

/// The text that `base64::Engine::encode` of the engine
/// `base64::engine::general_purpose::STANDARD` gives for `bytes`.
pub uninterp spec fn base64_standard(bytes: Seq<u8>) -> Seq<char>;

/// The string that `serde_json::Value::pointer` finds under `pointer` in the
/// document that `serde_json::from_str` reads from `text`: the outer `None` where
/// `text` is no JSON document, the inner `None` where the pointer finds nothing
/// or finds a value that is no string.
pub uninterp spec fn json_string(text: Seq<char>, pointer: Seq<char>) -> Option<Option<Seq<char>>>;

/// The JSON text that `serde_json` writes for the string `text`: the string in
/// double quotes, escaped.
pub uninterp spec fn json_quoted(text: Seq<char>) -> Seq<char>;

/// The last path segment of the URL that `url::Url::parse` reads from `text`, as
/// `url::Url::path_segments` gives it; `None` where `text` is no URL or the URL
/// has no path segments.
pub uninterp spec fn url_last_segment(text: Seq<char>) -> Option<Seq<char>>;

/// Replaces the leftmost match of `pattern` in `text`. Calls `regex::Regex::new`
/// and `regex::Regex::replace`; the result is whatever they give, `None` where
/// the pattern does not compile.
#[verifier::external_body]
pub(crate) fn regex_replace(pattern: &str, text: &str, replacement: &str) -> (r: Option<String>)
    ensures
        optional_text(r) == regex_replaced(pattern@, text@, replacement@),
{
    match regex::Regex::new(pattern) {
        Ok(re) => Some(re.replace(text, replacement).into_owned()),
        Err(_) => None,
    }
}

/// One capture group of the leftmost match of `pattern` in `text`. Calls
/// `regex::Regex::new`, `regex::Regex::captures` and `regex::Captures::get`.
#[verifier::external_body]
pub(crate) fn regex_capture(pattern: &str, text: &str, group: usize) -> (r: Option<
    Option<String>,
>)
    ensures
        optional_text2(r) == regex_group(pattern@, text@, group),
{
    match regex::Regex::new(pattern) {
        Ok(re) => Some(
            re.captures(text).and_then(|c| c.get(group)).map(|m| m.as_str().to_string()),
        ),
        Err(_) => None,
    }
}

/// Encodes bytes with the standard base64 alphabet and padding. Calls
/// `base64::Engine::encode` on `base64::engine::general_purpose::STANDARD`.
#[verifier::external_body]
pub(crate) fn base64_encode(bytes: &[u8]) -> (r: String)
    ensures
        r@ == base64_standard(bytes@),
{
    base64::Engine::encode(&base64::engine::general_purpose::STANDARD, bytes)
}

/// Looks up a string in a JSON document. Calls `serde_json::from_str` for a
/// `serde_json::Value`, then `serde_json::Value::pointer` and
/// `serde_json::Value::as_str`.
#[verifier::external_body]
pub(crate) fn json_lookup(text: &str, pointer: &str) -> (r: Option<Option<String>>)
    ensures
        optional_text2(r) == json_string(text@, pointer@),
{
    match serde_json::from_str::<serde_json::Value>(text) {
        Ok(v) => Some(v.pointer(pointer).and_then(|x| x.as_str()).map(|s| s.to_string())),
        Err(_) => None,
    }
}

/// Writes a string as JSON. Calls `to_string` on a `serde_json::Value::String`.
#[verifier::external_body]
pub(crate) fn json_quote(text: &str) -> (r: String)
    ensures
        r@ == json_quoted(text@),
{
    serde_json::Value::String(text.to_string()).to_string()
}

/// The last path segment of a URL. Calls `url::Url::parse` and
/// `url::Url::path_segments`.
#[verifier::external_body]
pub(crate) fn url_file_name(text: &str) -> (r: Option<String>)
    ensures
        optional_text(r) == url_last_segment(text@),
{
    match reqwest::Url::parse(text) {
        Ok(url) => url.path_segments().and_then(|s| s.last()).map(|s| s.to_string()),
        Err(_) => None,
    }
}

/// The home directory of the user, as `home::home_dir` finds it in the
/// environment. Nothing is known of it.
#[verifier::external_body]
pub(crate) fn home_dir() -> (r: Option<String>)
{
    home::home_dir().map(|p| p.display().to_string())
}

} // verus!
