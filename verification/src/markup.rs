//! Taking embedded markup out of a group's display name before it is shown.

use vstd::prelude::*;

verus! {

/// The markup that is taken out: an opening `<`, a `$` or `&`, and on to a
/// closing `>`.
pub const MARKUP_PATTERN: &'static str = "<[$&].+>";

/// The error of the regex crate, kept opaque.
#[verifier::external_type_specification]
#[verifier::external_body]
pub struct ExRegexError(regex::Error);

/// Whether `regex::Regex::new` accepts `pattern` on a target whose `usize`
/// has `word_bits` bits. The width is part of the question: besides the
/// syntax the engine holds the compiled states against a limit in bytes,
/// and one state takes 32 bytes where `usize` has 64 bits and 16 bytes
/// where it has 32.
pub uninterp spec fn regex_accepts(pattern: Seq<char>, word_bits: nat) -> bool;

/// What the regex crate makes of `haystack` when every non-overlapping
/// match of `pattern` is replaced by `replacement`.
pub uninterp spec fn regex_replaced(
    pattern: Seq<char>,
    haystack: Seq<char>,
    replacement: Seq<char>,
) -> Seq<char>;

/// Trusted: `regex::Regex::new` on `pattern`, then `Regex::replace_all` on
/// `haystack` with `replacement`. Whether the pattern compiles depends on
/// the pattern and on the width of `usize` alone and is named by
/// `regex_accepts`. Where it compiles, the text that comes back depends on
/// the three strings alone and is named by `regex_replaced`.
#[verifier::external_body]
fn replace_all(pattern: &str, haystack: &str, replacement: &str) -> (out: Result<
    String,
    regex::Error,
>)
    ensures
        out is Ok <==> regex_accepts(pattern@, usize::BITS as nat),
        out matches Ok(text) ==> text@ == regex_replaced(pattern@, haystack@, replacement@),
{
    match regex::Regex::new(pattern) {
        Ok(regex) => Ok(regex.replace_all(haystack, replacement).into_owned()),
        Err(error) => Err(error),
    }
}

/// The markup pattern was not accepted by the regex engine.
#[derive(Debug)]
pub struct BadPattern;

/// A display name with its markup taken out.
pub open spec fn markup_stripped(name: Seq<char>) -> Seq<char> {
    regex_replaced(MARKUP_PATTERN@, name, ""@)
}

/// What a replacement came to, with the engine's error turned into ours.
pub fn stripped(outcome: Result<String, regex::Error>) -> (out: Result<String, BadPattern>)
    ensures
        match outcome {
            Ok(text) => out == Ok::<String, BadPattern>(text),
            Err(_) => out is Err,
        },
{
    match outcome {
        Ok(text) => Ok(text),
        Err(_) => Err(BadPattern),
    }
}

/// Whether the regex engine accepts the markup pattern on this target.
pub open spec fn markup_pattern_accepted() -> bool {
    regex_accepts(MARKUP_PATTERN@, usize::BITS as nat)
}

/// Takes the markup out of a group's display name and leaves the rest as
/// it is. It succeeds wherever the engine accepts the markup pattern,
/// whatever the name.
pub fn strip_markup(name: &str) -> (out: Result<String, BadPattern>)
    ensures
        out is Ok <==> markup_pattern_accepted(),
        out matches Ok(text) ==> text@ == markup_stripped(name@),
{
    stripped(replace_all(MARKUP_PATTERN, name, ""))
}

} // verus!
