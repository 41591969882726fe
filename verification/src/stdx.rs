//! Contracts for the few functions of the standard library that the crate
//! calls and that `vstd` does not specify. They are believed, not proved.
use crate::text::texts;
use vstd::prelude::*;
use vstd::utf8::{decode_utf8, valid_utf8};

verus! {

/// `String::push` appends the character to the end of the string.
pub assume_specification[ String::push ](s: &mut String, c: char)
    ensures
        final(s)@ == old(s)@.push(c),
;

/// `std::str::from_utf8` accepts exactly the byte sequences that are valid
/// UTF-8, and the string it returns holds the characters they encode.
#[verifier::external_body]
pub(crate) fn str_from_utf8(bytes: &[u8]) -> (out: Option<&str>)
    ensures
        out is Some <==> valid_utf8(bytes@),
        out is Some ==> out->0@ == decode_utf8(bytes@),
{
    std::str::from_utf8(bytes).ok()
}

/// The text that the `Debug` format of the standard library writes for a
/// list of strings.
pub uninterp spec fn debug_text(items: Seq<Seq<char>>) -> Seq<char>;

/// Formats a list of strings with `{:?}`. The text depends on the strings
/// alone; the contract gives it a name and says nothing more of it.
#[verifier::external_body]
pub(crate) fn debug_format(items: &[String]) -> (out: String)
    ensures
        out@ == debug_text(texts(items@)),
{
    format!("{:?}", items)
}

/// The text that the `Debug` format of the standard library writes for a
/// string.
pub uninterp spec fn debug_string(s: Seq<char>) -> Seq<char>;

/// Formats a string with `{:?}`. The text depends on the string alone;
/// the contract gives it a name and says nothing more of it.
#[verifier::external_body]
pub(crate) fn debug_format_str(s: &str) -> (out: String)
    ensures
        out@ == debug_string(s@),
{
    format!("{:?}", s)
}

} // verus!
