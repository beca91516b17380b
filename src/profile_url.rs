use vstd::prelude::*;

use crate::error::LookupError;
use crate::text::eq_text;

verus! {

/// A parsed URL as the lookup reads it: the text before the path (scheme,
/// credentials, host and port) and the path's segments, percent-encoded.
pub struct UrlParts {
    pub base: String,
    pub segments: Vec<String>,
}

impl UrlParts {
    pub open spec fn view(self) -> (Seq<char>, Seq<Seq<char>>) {
        (self.base@, self.segments@.map_values(|s: String| s@))
    }
}

/// What `Url::parse` makes of a text, read as the text before the path and
/// the path's segments; none when it is not an absolute URL or its path
/// has no segments.
pub uninterp spec fn url_parts(s: Seq<char>) -> Option<(Seq<char>, Seq<Seq<char>>)>;

/// Relies on url's `Url::parse`, read through `Url::path_segments` and the
/// slice of the URL up to `Position::BeforePath`.
#[verifier::external_body]
fn parse_url(s: &str) -> (r: Option<UrlParts>)
    ensures
        r matches Some(p) ==> url_parts(s@) == Some(p.view()),
        r is None ==> url_parts(s@) is None,
{
    let url = url::Url::parse(s).ok()?;
    let segments = url.path_segments()?.map(String::from).collect();
    Some(UrlParts { base: url[..url::Position::BeforePath].to_string(), segments })
}

/// The path shapes of a profile URL: `id/<name>` or `profiles/<id>`.
pub open spec fn recognised(segments: Seq<Seq<char>>) -> bool {
    segments.len() >= 2 && (segments[0] == "id"@ || segments[0] == "profiles"@)
}

/// A URL with the path `first/second` and neither query nor fragment.
pub open spec fn canonical(base: Seq<char>, first: Seq<char>, second: Seq<char>) -> Seq<char> {
    base + "/"@ + first + "/"@ + second
}

/// The cache key of parsed URL parts, or none when the path has no
/// recognised shape.
pub open spec fn key_of(parts: (Seq<char>, Seq<Seq<char>>)) -> Option<Seq<char>> {
    if recognised(parts.1) {
        Some(canonical(parts.0, parts.1[0], parts.1[1]))
    } else {
        None
    }
}

/// The cache key of a profile URL, or none when it is not one.
pub open spec fn normalized(u: Seq<char>) -> Option<Seq<char>> {
    match url_parts(u) {
        Some(parts) => key_of(parts),
        None => None,
    }
}

/// The second path segment of parsed URL parts whose path begins with
/// `first`.
pub open spec fn segment_after(parts: (Seq<char>, Seq<Seq<char>>), first: Seq<char>) -> Option<
    Seq<char>,
> {
    if parts.1.len() >= 2 && parts.1[0] == first {
        Some(parts.1[1])
    } else {
        None
    }
}

/// The second path segment of a URL whose path begins with `first`.
pub open spec fn second_segment_after(u: Seq<char>, first: Seq<char>) -> Option<Seq<char>> {
    match url_parts(u) {
        Some(parts) => segment_after(parts, first),
        None => None,
    }
}

/// The cache key of parsed URL parts: the text before the path, then the
/// first two segments; none unless the path is `id/<name>` or
/// `profiles/<id>`.
pub fn canonical_key(parts: &UrlParts) -> (r: Option<String>)
    ensures
        r matches Some(k) ==> key_of(parts.view()) == Some(k@),
        r is None ==> key_of(parts.view()) is None,
{
    let ghost segs = parts.view().1;
    if parts.segments.len() < 2 {
        return None;
    }
    let first = parts.segments[0].as_str();
    let second = parts.segments[1].as_str();
    assert(segs[0] == first@ && segs[1] == second@);
    if !eq_text(first, "id") && !eq_text(first, "profiles") {
        return None;
    }
    let mut key = parts.base.clone();
    key.append("/");
    key.append(first);
    key.append("/");
    key.append(second);
    Some(key)
}

/// The second path segment of parsed URL parts whose path begins with
/// `first`.
pub fn segment_following(parts: &UrlParts, first: &str) -> (r: Option<String>)
    ensures
        r matches Some(s) ==> segment_after(parts.view(), first@) == Some(s@),
        r is None ==> segment_after(parts.view(), first@) is None,
{
    let ghost segs = parts.view().1;
    if parts.segments.len() < 2 {
        return None;
    }
    assert(segs[0] == parts.segments[0]@ && segs[1] == parts.segments[1]@);
    if !eq_text(parts.segments[0].as_str(), first) {
        return None;
    }
    Some(parts.segments[1].clone())
}

/// Strips query and fragment and keeps the first two path segments: the
/// cache key of a profile URL.
pub fn normalize_url(url: &str) -> (r: Result<String, LookupError>)
    ensures
        r matches Ok(k) ==> normalized(url@) == Some(k@),
        r is Err ==> normalized(url@) is None && r == Err::<String, LookupError>(
            LookupError::InvalidUrl,
        ),
{
    match parse_url(url) {
        Some(parts) => match canonical_key(&parts) {
            Some(key) => Ok(key),
            None => Err(LookupError::InvalidUrl),
        },
        None => Err(LookupError::InvalidUrl),
    }
}

/// The second segment of a URL whose path begins with `first`.
fn second_segment(url: &str, first: &str) -> (r: Option<String>)
    ensures
        r matches Some(s) ==> second_segment_after(url@, first@) == Some(s@),
        r is None ==> second_segment_after(url@, first@) is None,
{
    match parse_url(url) {
        Some(parts) => segment_following(&parts, first),
        None => None,
    }
}

/// Whether a URL names a player by a chosen name (`id/<name>`) rather than
/// by identifier.
pub fn is_vanity_url(url: &str) -> (r: bool)
    ensures
        r == (second_segment_after(url@, "id"@) is Some),
{
    second_segment(url, "id").is_some()
}

/// The chosen name in a vanity URL.
pub fn get_username_from_vanity_url(url: &str) -> (r: Option<String>)
    ensures
        r matches Some(s) ==> second_segment_after(url@, "id"@) == Some(s@),
        r is None ==> second_segment_after(url@, "id"@) is None,
{
    second_segment(url, "id")
}

/// The identifier in a direct profile URL, taken verbatim.
pub fn get_steam_id_from_non_vanity_url(url: &str) -> (r: Option<String>)
    ensures
        r matches Some(s) ==> second_segment_after(url@, "profiles"@) == Some(s@),
        r is None ==> second_segment_after(url@, "profiles"@) is None,
{
    second_segment(url, "profiles")
}

/// `u` is a profile URL already in canonical form: the URL parser reads it
/// as the text before its path, then `/first/second`, with a recognised
/// first segment.
pub open spec fn is_canonical(u: Seq<char>) -> bool {
    match url_parts(u) {
        Some((base, segments)) => segments.len() == 2 && recognised(segments) && u == canonical(
            base,
            segments[0],
            segments[1],
        ),
        None => false,
    }
}

/// A canonical profile URL normalises to itself, so normalising it again
/// changes nothing.
pub proof fn lemma_normalize_idempotent(u: Seq<char>)
    requires
        is_canonical(u),
    ensures
        normalized(u) == Some(u),
        normalized(normalized(u).unwrap()) == normalized(u),
{
}

/// A URL that does not parse, lacks a second path segment, or begins with a
/// segment other than `id` or `profiles` has no cache key.
pub proof fn lemma_unrecognised_has_no_key(u: Seq<char>)
    requires
        url_parts(u) matches Some((_, segments)) ==> segments.len() < 2 || (segments[0]
            != "id"@ && segments[0] != "profiles"@),
    ensures
        normalized(u) is None,
{
}

} // verus!
