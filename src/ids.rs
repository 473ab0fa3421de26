//! Identifiers and instants of rows: UUIDs held as 128-bit integers, and
//! timestamps held as microseconds since the Unix epoch.
use vstd::prelude::*;

verus! {

/// A UUID, held as its 128-bit value (most significant byte first, as in its text form).
#[derive(Clone, Copy, Debug, PartialEq, Eq, Structural, Hash)]
pub struct Uuid {
    pub bits: u128,
}

/// An instant, in microseconds since the Unix epoch (UTC).
#[derive(Clone, Copy, Debug, PartialEq, Eq, Structural, Hash)]
pub struct Timestamp {
    pub micros: i64,
}

/// The lowercase hexadecimal digit for `d` (0 <= d < 16).
pub open spec fn hex_digit(d: int) -> char {
    seq!['0', '1', '2', '3', '4', '5', '6', '7', '8', '9', 'a', 'b', 'c', 'd', 'e', 'f'][d]
}

/// The `k`-th hexadecimal digit of `v`, counted from the most significant one (0 <= k < 32).
pub open spec fn nibble(v: u128, k: int) -> int {
    (v as int / vstd::arithmetic::power::pow(16, (31 - k) as nat)) % 16
}

/// Which of the 32 digits stands at position `i` of the hyphenated form.
pub open spec fn digit_at(i: int) -> int {
    if i < 8 { i } else if i < 13 { i - 1 } else if i < 18 { i - 2 } else if i < 23 { i - 3 } else { i - 4 }
}

/// The hyphenated lowercase form `xxxxxxxx-xxxx-xxxx-xxxx-xxxxxxxxxxxx` of `v`.
pub open spec fn hyphenated(v: u128) -> Seq<char> {
    Seq::new(
        36,
        |i: int|
            if i == 8 || i == 13 || i == 18 || i == 23 {
                '-'
            } else {
                hex_digit(nibble(v, digit_at(i)))
            },
    )
}

/// What `uuid::Uuid::parse_str` accepts, and the value it reads.
pub uninterp spec fn uuid_parse_result(s: Seq<char>) -> Option<u128>;

/// Relies on `uuid::Uuid::parse_str`: the value read from the text, or `None` where it rejects it.
#[verifier::external_body]
fn parse_uuid_text(s: &str) -> (r: Option<u128>)
    ensures
        r == uuid_parse_result(s@),
{
    uuid::Uuid::parse_str(s).ok().map(|u| u.as_u128())
}

/// Relies on the `Display` impl of `uuid::Uuid`: the hyphenated lowercase form.
#[verifier::external_body]
fn uuid_to_text(bits: u128) -> (r: String)
    ensures
        r@ == hyphenated(bits),
{
    uuid::Uuid::from_u128(bits).to_string()
}

impl Uuid {
    /// Reads a UUID from text in any form that `uuid::Uuid::parse_str` accepts.
    pub fn parse(s: &str) -> (r: Option<Uuid>)
        ensures
            r == (match uuid_parse_result(s@) {
                Some(bits) => Some(Uuid { bits }),
                None => None::<Uuid>,
            }),
    {
        match parse_uuid_text(s) {
            Some(bits) => Some(Uuid { bits }),
            None => None,
        }
    }

    /// The hyphenated lowercase text of this UUID.
    pub fn to_text(&self) -> (r: String)
        ensures
            r@ == hyphenated(self.bits),
    {
        uuid_to_text(self.bits)
    }
}

} // verus!
