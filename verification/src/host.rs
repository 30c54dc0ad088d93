//! What the host system answers: text in the forms in which the system hands it over.

use vstd::prelude::*;
use vstd::utf8::{decode_utf8, valid_utf8};

verus! {

/// What `Debug` prints for a character: in single quotes, with escapes.
pub uninterp spec fn shown_char(c: char) -> Seq<char>;

/// What `Debug` prints for a string: in double quotes, with escapes.
pub uninterp spec fn shown_text(s: Seq<char>) -> Seq<char>;

/// Bytes as text, with U+FFFD in place of what is not UTF-8.
pub uninterp spec fn lossy_text(bytes: Seq<u8>) -> Seq<char>;

/// `char`'s `Debug`: the character in single quotes, escaped where it would not show. How a
/// character is escaped is left unsaid.
#[verifier::external_body]
pub(crate) fn show_char(c: char) -> (r: String)
    ensures
        r@ == shown_char(c),
{
    format!("{c:?}")
}

/// `str`'s `Debug`: the string in double quotes, escaped where it would not show. How characters
/// are escaped is left unsaid.
#[verifier::external_body]
pub(crate) fn show_text(s: &str) -> (r: String)
    ensures
        r@ == shown_text(s@),
{
    format!("{s:?}")
}

/// `String::from_utf8`: the text that bytes encode, if they are valid UTF-8.
#[verifier::external_body]
pub(crate) fn read_utf8(bytes: Vec<u8>) -> (r: Option<String>)
    ensures
        match r {
            Some(s) => valid_utf8(bytes@) && s@ == decode_utf8(bytes@),
            None => !valid_utf8(bytes@),
        },
{
    String::from_utf8(bytes).ok()
}

/// `String::from_utf8_lossy`: the text that bytes encode; where they are not valid UTF-8,
/// replacement characters stand. Where these stand is left unsaid.
#[verifier::external_body]
pub(crate) fn read_lossy(bytes: &[u8]) -> (r: String)
    ensures
        r@ == lossy_text(bytes@),
        valid_utf8(bytes@) ==> r@ == decode_utf8(bytes@),
{
    String::from_utf8_lossy(bytes).into_owned()
}

} // verus!
