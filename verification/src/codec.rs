//! Text forms of identifiers and payloads, through the crates that define them.
use vstd::prelude::*;
use vstd::arithmetic::power::pow;
use base64::Engine;
use rand::Rng;

verus! {

/// The lowercase hexadecimal digit of `n` (0 to 15).
pub open spec fn hex_digit(n: int) -> char {
    if n < 10 {
        (48 + n) as char
    } else {
        (87 + n) as char
    }
}

/// Hyphens that precede position `i` of a hyphenated UUID.
pub open spec fn hyphens_before(i: int) -> int {
    if i < 9 {
        0
    } else if i < 14 {
        1
    } else if i < 19 {
        2
    } else if i < 24 {
        3
    } else {
        4
    }
}

/// The `k`-th hexadecimal digit of `x`, counted from the most significant of 32.
pub open spec fn nibble(x: u128, k: int) -> int {
    (x as int / pow(16, (31 - k) as nat)) % 16
}

/// A UUID in its hyphenated lowercase form, as `Uuid::to_string` writes it:
/// 32 hexadecimal digits of the big-endian value, with hyphens after the 8th,
/// 12th, 16th and 20th.
pub open spec fn uuid_text(x: u128) -> Seq<char> {
    Seq::new(
        36,
        |i: int|
            if i == 8 || i == 13 || i == 18 || i == 23 {
                '-'
            } else {
                hex_digit(nibble(x, i - hyphens_before(i)))
            },
    )
}

/// `uuid::Uuid::from_u128(id).to_string()`: the hyphenated lowercase text of a UUID.
#[verifier::external_body]
pub(crate) fn uuid_string(id: u128) -> (r: String)
    ensures
        r@ == uuid_text(id),
{
    uuid::Uuid::from_u128(id).to_string()
}

/// The standard base64 encoding (RFC 4648 alphabet, with `=` padding) of the
/// UTF-8 bytes of `text`.
pub uninterp spec fn base64_standard(text: Seq<char>) -> Seq<char>;

/// `base64::engine::general_purpose::STANDARD.encode(text)`.
#[verifier::external_body]
pub(crate) fn base64_encode(text: &str) -> (r: String)
    ensures
        r@ == base64_standard(text@),
{
    base64::engine::general_purpose::STANDARD.encode(text)
}

/// Whether `url::Url::parse` accepts `text`.
pub uninterp spec fn url_parses(text: Seq<char>) -> bool;

/// The URL `base`, parsed, with one more path segment `segment`, as `url::Url`
/// serialises it; `None` when the URL cannot be a base (has no path segments).
pub uninterp spec fn url_with_segment(base: Seq<char>, segment: Seq<char>) -> Option<Seq<char>>;

/// Why a URL could not be given a path segment.
pub enum UrlError {
    /// The text is not a URL; the parser's explanation.
    Parse(String),
    /// The URL cannot be a base, so it has no path to extend.
    CannotBeABase,
}

/// `Url::parse(base)`, then `path_segments_mut()` and `push(segment)`, then
/// `to_string()`. The text of a parse error is the parser's and is not stated.
#[verifier::external_body]
pub(crate) fn push_url_segment(base: &str, segment: &str) -> (r: Result<String, UrlError>)
    ensures
        (r matches Err(UrlError::Parse(_))) <==> !url_parses(base@),
        (r matches Err(UrlError::CannotBeABase)) <==> (url_parses(base@) && url_with_segment(base@, segment@) is None),
        r matches Ok(s) ==> url_with_segment(base@, segment@) == Some(s@),
{
    let mut url = match url::Url::parse(base) {
        Ok(u) => u,
        Err(e) => return Err(UrlError::Parse(e.to_string())),
    };
    match url.path_segments_mut() {
        Ok(mut segs) => {
            segs.push(segment);
        },
        Err(_) => return Err(UrlError::CannotBeABase),
    }
    Ok(url.to_string())
}

/// `rand::thread_rng().gen_range(0..=max)`: a random number from 0 to `max`.
#[verifier::external_body]
pub(crate) fn random_up_to(max: u64) -> (r: u64)
    ensures
        r <= max,
{
    rand::thread_rng().gen_range(0..=max)
}

} // verus!
