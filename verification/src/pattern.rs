//! The calls into `regex`, with what is taken on trust about them.

use vstd::prelude::*;

verus! {

#[verifier::external_type_specification]
#[verifier::external_body]
pub struct ExRegex(regex::Regex);

#[verifier::external_type_specification]
#[verifier::external_body]
pub struct ExRegexError(regex::Error);

/// Whether a compiled expression finds a match anywhere in the text, as
/// `regex::Regex::is_match` reports it.
pub uninterp spec fn accepts(compiled: regex::Regex, text: Seq<char>) -> bool;

/// Whether `regex::Regex::new` compiles the pattern.
pub uninterp spec fn compiles(pattern: Seq<char>) -> bool;

/// Whether the expression that `regex::Regex::new` compiles from `pattern`
/// finds a match anywhere in the text.
pub uninterp spec fn pattern_accepts(pattern: Seq<char>, text: Seq<char>) -> bool;

/// Calls `regex::Regex::new`. Whether the pattern compiles, and what the
/// compiled expression matches, depends on the pattern alone; nothing is
/// claimed about which patterns compile.
#[verifier::external_body]
pub(crate) fn compile(pattern: &str) -> (r: Result<regex::Regex, regex::Error>)
    ensures
        r is Ok <==> compiles(pattern@),
        r matches Ok(compiled) ==> forall|text: Seq<char>|
            #[trigger] accepts(compiled, text) == pattern_accepts(pattern@, text),
{
    regex::Regex::new(pattern)
}

/// Calls `regex::Regex::is_match`.
#[verifier::external_body]
pub(crate) fn is_match(compiled: &regex::Regex, text: &str) -> (r: bool)
    ensures
        r == accepts(*compiled, text@),
{
    compiled.is_match(text)
}

} // verus!
