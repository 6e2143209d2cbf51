//! The calls this library makes into code whose behaviour it does not prove:
//! the `regex` crate, the `rand` crate, and `str::to_lowercase` of std.

use vstd::prelude::*;

verus! {

/// Whether `regex::Regex::new` accepts `pattern`: the pattern is valid and the
/// compiled program fits the default size limit. It depends on the pattern alone.
pub uninterp spec fn regex_accepts(pattern: Seq<char>) -> bool;

/// How many items `regex::Regex::captures_iter` yields for the regex built from
/// `pattern` over `text`: the successive non-overlapping matches.
pub uninterp spec fn regex_match_count(pattern: Seq<char>, text: Seq<char>) -> nat;

/// What `str::to_lowercase` returns for `s`.
pub uninterp spec fn lowercase(s: Seq<char>) -> Seq<char>;

/// Compiles `pattern` with `regex::Regex::new`, and on success gives back the
/// regex's `Display` text, which the crate documents as the original pattern.
/// Trusted: `Some` exactly when `Regex::new` succeeds, and the text is the
/// pattern itself.
#[verifier::external_body]
pub(crate) fn compile_regex(pattern: &str) -> (res: Option<String>)
    ensures
        res is Some <==> regex_accepts(pattern@),
        res matches Some(p) ==> p@ == pattern@,
{
    match regex::Regex::new(pattern) {
        Ok(r) => Some(r.to_string()),
        Err(_) => None,
    }
}

/// Builds the regex of `pattern` with `regex::Regex::new` and counts what
/// `captures_iter` yields over `text`. Trusted: `None` exactly when
/// `Regex::new` fails, otherwise the count named by `regex_match_count`.
#[verifier::external_body]
pub(crate) fn count_regex_matches(pattern: &str, text: &str) -> (res: Option<usize>)
    ensures
        res is Some <==> regex_accepts(pattern@),
        res matches Some(k) ==> k as nat == regex_match_count(pattern@, text@),
{
    match regex::Regex::new(pattern) {
        Ok(r) => Some(r.captures_iter(text).count()),
        Err(_) => None,
    }
}

/// `rand::random::<bool>()`, a coin flip. Nothing is promised of the outcome.
#[verifier::external_body]
pub(crate) fn coin_flip() -> bool {
    rand::random::<bool>()
}

/// `str::to_lowercase`. Trusted: the result is the one named by `lowercase`,
/// a function of the text alone. What that lowercase is (the Unicode
/// lowercase mapping) is left unsaid.
#[verifier::external_body]
pub(crate) fn to_lowercase(s: &str) -> (res: String)
    ensures
        res@ == lowercase(s@),
{
    s.to_lowercase()
}

} // verus!
