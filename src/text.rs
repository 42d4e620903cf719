//! Text conversions that the library takes from std.
use vstd::prelude::*;

verus! {

/// What `String::from_utf8_lossy` makes of a byte sequence.
pub uninterp spec fn lossy_text(b: Seq<u8>) -> Seq<char>;

/// What `str::trim` leaves of a character sequence.
pub uninterp spec fn trimmed(s: Seq<char>) -> Seq<char>;

/// Relies on `String::from_utf8_lossy`: decodes UTF-8, replacing invalid
/// sequences with U+FFFD; the result depends on the bytes alone.
#[verifier::external_body]
pub(crate) fn decode_lossy(b: &[u8]) -> (r: String)
    ensures
        r@ == lossy_text(b@),
        b@.len() == 0 ==> r@.len() == 0,
{
    String::from_utf8_lossy(b).into_owned()
}

/// Relies on `str::trim`: drops leading and trailing white space; the result
/// depends on the characters alone.
#[verifier::external_body]
pub(crate) fn trim_text(s: &str) -> (r: String)
    ensures
        r@ == trimmed(s@),
        s@.len() == 0 ==> r@.len() == 0,
{
    s.trim().to_string()
}

/// The version text that a tool printed on its standard output: decoded
/// leniently and stripped of surrounding white space.
pub fn version_text(stdout: &[u8]) -> (r: String)
    ensures
        r@ == trimmed(lossy_text(stdout@)),
{
    let decoded = decode_lossy(stdout);
    trim_text(decoded.as_str())
}

} // verus!
