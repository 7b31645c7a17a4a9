//! Caller identity extraction.
//!
//! The caller is read out of the stringified `From` header with the pattern
//! `<[^:]+:(?<a>[^@]+)@.*$`: inside angle brackets, the user part between
//! the URI scheme's colon and the `@`.  A header without such a URI yields
//! the empty string, and the call proceeds with an anonymous caller.

use vstd::prelude::*;

verus! {

/// What the extraction pattern yields on a haystack: the first capture
/// group of every match, concatenated; empty when the pattern does not
/// compile.  The result depends on the pattern and the haystack alone.
pub uninterp spec fn regex_group1_concat(pattern: Seq<char>, hay: Seq<char>) -> Seq<char>;

/// Relies on regex's `Regex::new` and `Regex::captures_iter`: concatenates
/// capture group 1 of every match of `pattern` in `hay`, and yields the
/// empty string when the pattern is rejected.
#[verifier::external_body]
fn regex_concat_captures(pattern: &str, hay: &str) -> (r: String)
    ensures
        r@ == regex_group1_concat(pattern@, hay@),
{
    match regex::Regex::new(pattern) {
        Err(_) => String::new(),
        Ok(re) => {
            let mut out = String::new();
            for cap in re.captures_iter(hay) {
                if let Some(m) = cap.get(1) {
                    out.push_str(m.as_str());
                }
            }
            out
        },
    }
}

/// Extract the caller's user part from a stringified `From` header.
pub fn extract_caller(from_header: &str) -> (r: String)
    ensures
        r@ == regex_group1_concat("<[^:]+:(?<a>[^@]+)@.*$"@, from_header@),
{
    regex_concat_captures("<[^:]+:(?<a>[^@]+)@.*$", from_header)
}

} // verus!
