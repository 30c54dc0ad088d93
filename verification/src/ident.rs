//! What makes a name or a record new: random identifiers and the time.

use crate::text::{digit_value, is_digit, part};
use chrono::Utc;
use uuid::Uuid;
use vstd::prelude::*;

verus! {

/// Whether a character is a lowercase hexadecimal digit.
pub open spec fn is_hex_digit(c: char) -> bool {
    is_digit(c) || 'a' as u32 <= c as u32 <= 'f' as u32
}

/// Whether a text is an identifier of eight hexadecimal digits.
pub open spec fn is_short_id(s: Seq<char>) -> bool {
    s.len() == 8 && forall|i: int| 0 <= i < 8 ==> is_hex_digit(#[trigger] s[i])
}

/// Whether a text has the form of a UUID: hexadecimal digits in groups of 8, 4, 4, 4 and 12.
pub open spec fn is_uuid_text(s: Seq<char>) -> bool {
    &&& s.len() == 36
    &&& forall|i: int|
        0 <= i < 36 ==> if i == 8 || i == 13 || i == 18 || i == 23 {
            #[trigger] s[i] == '-'
        } else {
            is_hex_digit(s[i])
        }
}

/// The number that the two digits of `s` from position `i` on stand for.
pub open spec fn two_digits(s: Seq<char>, i: int) -> nat {
    digit_value(s[i]) * 10 + digit_value(s[i + 1])
}

/// Whether a text ends in a month, a day and a time, as in `-05-30T12:00:00Z`, after a year, which
/// has four digits or more.
pub open spec fn is_timestamp(s: Seq<char>) -> bool {
    let n = s.len() as int;
    &&& n >= 20
    &&& s[n - 1] == 'Z'
    &&& s[n - 4] == ':'
    &&& s[n - 7] == ':'
    &&& s[n - 10] == 'T'
    &&& s[n - 13] == '-'
    &&& s[n - 16] == '-'
    &&& forall|i: int|
        n - 20 <= i < n - 1 && i != n - 4 && i != n - 7 && i != n - 10 && i != n - 13 && i != n
            - 16 ==> is_digit(#[trigger] s[i])
    &&& 1 <= two_digits(s, n - 15) <= 12
    &&& 1 <= two_digits(s, n - 12) <= 31
    &&& two_digits(s, n - 9) <= 23
    &&& two_digits(s, n - 6) <= 59
    &&& two_digits(s, n - 3) <= 60
}

/// `Uuid::new_v4` of `uuid`, printed: a random UUID in lowercase. Which one is left to chance.
#[verifier::external_body]
pub(crate) fn random_uuid() -> (r: String)
    ensures
        is_uuid_text(r@),
{
    Uuid::new_v4().to_string()
}

/// `Utc::now` of `chrono`, printed in ISO 8601 to the second: year, month, day, hour, minute and
/// second, each in its range. Which time it is is left open; the clock must not stand before 1970.
#[verifier::external_body]
pub(crate) fn utc_now_text() -> (r: String)
    ensures
        is_timestamp(r@),
{
    Utc::now().format("%Y-%m-%dT%H:%M:%SZ").to_string()
}

/// The first group of a UUID.
pub fn short_id_of(uuid: &str) -> (r: String)
    requires
        is_uuid_text(uuid@),
    ensures
        r@ == uuid@.take(8),
        is_short_id(r@),
{
    let r = part(uuid, 0, 8);
    assert(r@ =~= uuid@.take(8));
    r
}

/// A new identifier of eight hexadecimal digits.
pub fn new_short_id() -> (r: String)
    ensures
        is_short_id(r@),
{
    short_id_of(random_uuid().as_str())
}

/// The current time in ISO 8601, to the second, in UTC.
pub fn now_iso8601() -> (r: String)
    ensures
        is_timestamp(r@),
{
    utc_now_text()
}

} // verus!
