//! The path predicate: which string literals count as references to an asset.

use vstd::prelude::*;

verus! {

/// Whether `value` begins with `./`.
pub open spec fn has_relative_prefix(value: Seq<char>) -> bool {
    seq!['.', '/'].is_prefix_of(value)
}

/// Whether `value` ends with `.wasm`.
pub open spec fn has_wasm_suffix(value: Seq<char>) -> bool {
    seq!['.', 'w', 'a', 's', 'm'].is_suffix_of(value)
}

/// The path predicate. Either condition alone is enough: a relative path
/// qualifies whatever its extension, and a `.wasm` file qualifies wherever it
/// lies.
pub open spec fn path_predicate(value: Seq<char>) -> bool {
    has_relative_prefix(value) || has_wasm_suffix(value)
}

/// `str::starts_with` with a string as the pattern. Trusted: the result is
/// taken to say whether the characters of `prefix` are the first characters
/// of `s`.
#[verifier::external_body]
fn str_starts_with(s: &str, prefix: &str) -> (r: bool)
    ensures
        r == prefix@.is_prefix_of(s@),
{
    s.starts_with(prefix)
}

/// `str::ends_with` with a string as the pattern. Trusted: the result is
/// taken to say whether the characters of `suffix` are the last characters
/// of `s`.
#[verifier::external_body]
fn str_ends_with(s: &str, suffix: &str) -> (r: bool)
    ensures
        r == suffix@.is_suffix_of(s@),
{
    s.ends_with(suffix)
}

/// Decides the path predicate for `value`.
pub fn is_asset_path(value: &str) -> (r: bool)
    ensures
        r == path_predicate(value@),
{
    proof {
        reveal_strlit("./");
        reveal_strlit(".wasm");
        assert("./"@ =~= seq!['.', '/']);
        assert(".wasm"@ =~= seq!['.', 'w', 'a', 's', 'm']);
    }
    str_starts_with(value, "./") || str_ends_with(value, ".wasm")
}

} // verus!
