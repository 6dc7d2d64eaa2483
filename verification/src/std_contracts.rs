//! What this crate takes on trust of the standard library.
//!
//! The examples call a handful of `String` and `str` methods for which the verifier has
//! no contract of its own. Each gets one here, stated as the documentation of the standard
//! library states it. Nothing in this file is proved: every other proof in the crate that
//! touches these methods rests on the lines below.

use vstd::prelude::*;

verus! {

/// `String::from` on a string slice: the new `String` holds the characters of the slice.
pub assume_specification<'a>[ <String as core::convert::From<&'a str>>::from ](
    s: &str,
) -> (text: String)
    ensures
        text@ == s@,
;

/// `==` on two string slices: true exactly when they hold the same characters.
pub assume_specification[ <str as PartialEq<str>>::eq ](left: &str, right: &str) -> (same: bool)
    ensures
        same == (left@ == right@),
;

/// `String::push_str`: the slice is appended to the end of the `String`.
pub assume_specification[ String::push_str ](text: &mut String, tail: &str)
    ensures
        final(text)@ == old(text)@ + tail@,
;

/// `String::push`: the character is appended to the end of the `String`.
pub assume_specification[ String::push ](text: &mut String, ch: char)
    ensures
        final(text)@ == old(text)@.push(ch),
;

/// `String::clear`: the `String` is left without contents.
pub assume_specification[ String::clear ](text: &mut String)
    ensures
        final(text)@ == Seq::<char>::empty(),
;

/// `text` with every occurrence of `pattern` replaced by `with`. Occurrences are found
/// from the left, and the search resumes behind each one, so they never overlap. The
/// empty pattern occurs at every character boundary: once before each character and
/// once at the end.
pub open spec fn replaced(text: Seq<char>, pattern: Seq<char>, with: Seq<char>) -> Seq<char>
    decreases text.len(),
{
    if pattern.len() == 0 {
        if text.len() == 0 {
            with
        } else {
            with + seq![text[0]] + replaced(text.drop_first(), pattern, with)
        }
    } else if text.len() < pattern.len() {
        text
    } else if text.subrange(0, pattern.len() as int) == pattern {
        with + replaced(text.subrange(pattern.len() as int, text.len() as int), pattern, with)
    } else {
        seq![text[0]] + replaced(text.drop_first(), pattern, with)
    }
}

/// `str::replace` with a string slice as the pattern: a new `String` in which all matches
/// of the pattern are replaced. The matches are the disjoint ones that a search from the
/// left finds, which is what [`replaced`] spells out.
#[verifier::external_body]
pub(crate) fn str_replace(text: &str, pattern: &str, with: &str) -> (out: String)
    ensures
        out@ == replaced(text@, pattern@, with@),
{
    text.replace(pattern, with)
}

/// Formats the address that the reference holds, with `{:p}`, and drops the text. An
/// address differs from run to run, so it is not handed to verified code.
#[verifier::external_body]
pub(crate) fn get_addr(r: &char) {
    format!("{:p}", r);
}

} // verus!
