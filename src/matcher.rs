//! The regular-expression engine, as seen by the verified code.
//!
//! A `regex::Regex` is opaque here. What it does on a text is a function of
//! the regex and the text alone, so the engine's results are named as such
//! functions; the pattern a regex was compiled from is named as well.
use regex::Regex;
use vstd::prelude::*;

verus! {

#[verifier::external_type_specification]
#[verifier::external_body]
pub struct ExRegex(Regex);

/// Whether `Regex::new` accepts pattern `p`: the syntax is valid and the
/// compiled program stays under the default size limit.
pub uninterp spec fn compiles(p: Seq<char>) -> bool;

/// The pattern string that a regex was compiled from (what `Regex::as_str` gives).
pub uninterp spec fn regex_source(re: Regex) -> Seq<char>;

/// Whether `re` finds a match anywhere in `text`.
pub uninterp spec fn has_match(re: Regex, text: Seq<char>) -> bool;

/// The text that `replace_all` gives for `re` on `text` with the replacement
/// template `template`.
pub uninterp spec fn replaced_all(re: Regex, text: Seq<char>, template: Seq<char>) -> Seq<char>;

/// Relies on `regex::Regex::new`: it succeeds exactly on the patterns it
/// accepts, and the regex it returns keeps the pattern it was given
/// (`Regex::as_str`). The error is handed on as its displayed message.
#[verifier::external_body]
pub(crate) fn compile(p: &str) -> (r: Result<Regex, String>)
    ensures
        r is Ok <==> compiles(p@),
        r matches Ok(re) ==> regex_source(re) == p@,
{
    match Regex::new(p) {
        Ok(re) => Ok(re),
        Err(e) => Err(format!("{}", e)),
    }
}

/// Relies on `regex::Regex::is_match`: whether there is a match anywhere in
/// the haystack.
#[verifier::external_body]
pub(crate) fn is_match(re: &Regex, text: &str) -> (r: bool)
    ensures
        r == has_match(*re, text@),
{
    re.is_match(text)
}

/// Relies on `regex::Regex::replace_all` with a `&str` template: every
/// non-overlapping match replaced by the expanded template (`$n`, `${name}`;
/// a group that does not exist expands to nothing).
#[verifier::external_body]
pub(crate) fn replace_all(re: &Regex, text: &str, template: &str) -> (r: String)
    ensures
        r@ == replaced_all(*re, text@, template@),
{
    re.replace_all(text, template).into_owned()
}

} // verus!
