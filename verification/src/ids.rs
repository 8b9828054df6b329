//! Identifiers that tie a request to its build, its record and its history.

use vstd::prelude::*;

verus! {

/// The character for a hexadecimal digit, in lower case.
pub open spec fn hex_digit(n: u128) -> char {
    if n == 0 {
        '0'
    } else if n == 1 {
        '1'
    } else if n == 2 {
        '2'
    } else if n == 3 {
        '3'
    } else if n == 4 {
        '4'
    } else if n == 5 {
        '5'
    } else if n == 6 {
        '6'
    } else if n == 7 {
        '7'
    } else if n == 8 {
        '8'
    } else if n == 9 {
        '9'
    } else if n == 10 {
        'a'
    } else if n == 11 {
        'b'
    } else if n == 12 {
        'c'
    } else if n == 13 {
        'd'
    } else if n == 14 {
        'e'
    } else {
        'f'
    }
}

/// One of the 32 hexadecimal digits of a 128-bit value, counted from the
/// most significant one.
pub open spec fn uuid_digit(value: u128, k: int) -> char {
    hex_digit((value >> ((4 * (31 - k)) as u128)) & 0xf)
}

/// One of the 36 characters of the canonical text of an identifier: the
/// digits in groups of 8, 4, 4, 4 and 12, with a hyphen between groups.
pub open spec fn uuid_char(value: u128, i: int) -> char {
    if i == 8 || i == 13 || i == 18 || i == 23 {
        '-'
    } else if i < 8 {
        uuid_digit(value, i)
    } else if i < 13 {
        uuid_digit(value, i - 1)
    } else if i < 18 {
        uuid_digit(value, i - 2)
    } else if i < 23 {
        uuid_digit(value, i - 3)
    } else {
        uuid_digit(value, i - 4)
    }
}

/// The canonical text of a 128-bit identifier: its hexadecimal digits in
/// lower case and hyphenated, as in `550e8400-e29b-41d4-a716-446655440000`.
pub open spec fn uuid_text(value: u128) -> Seq<char> {
    Seq::new(36, |i: int| uuid_char(value, i))
}

/// The value is marked as a random UUID: its version is 4, and its variant
/// is the one of RFC 9562.
pub open spec fn is_random_uuid(value: u128) -> bool {
    value & 0x0000_0000_0000_f000_c000_0000_0000_0000
        == 0x0000_0000_0000_4000_8000_0000_0000_0000
}

/// The identifier that `uuid` reads out of a text, if it accepts the text.
pub uninterp spec fn uuid_parsed(text: Seq<char>) -> Option<u128>;

/// Unique ID of a single request. It also names the exchange and the response
/// that come of the request. Two IDs are the same when their values are.
#[derive(Clone, Copy, Debug, PartialEq, Eq, Hash, PartialOrd, Ord, Structural)]
pub struct RequestId(pub u128);

impl RequestId {
    /// A fresh ID, drawn at random.
    pub fn new() -> (id: RequestId)
        ensures
            is_random_uuid(id.0),
    {
        RequestId(random_uuid())
    }

    /// The canonical text of the ID.
    pub fn to_text(&self) -> (text: String)
        ensures
            text@ == uuid_text(self.0),
            uuid_parsed(text@) == Some(self.0),
    {
        format_uuid(self.0)
    }

    /// Read an ID from text. `None` where the text is no UUID.
    pub fn parse(text: &str) -> (id: Option<RequestId>)
        ensures
            id == match uuid_parsed(text@) {
                Some(value) => Some(RequestId(value)),
                None => None,
            },
    {
        match parse_uuid(text) {
            Some(value) => Some(RequestId(value)),
            None => None,
        }
    }
}

impl Default for RequestId {
    fn default() -> (id: RequestId)
        ensures
            is_random_uuid(id.0),
    {
        RequestId::new()
    }
}

/// `uuid::Uuid::new_v4`, as the 128-bit integer of `Uuid::as_u128`. The value
/// is random but for the six bits that `new_v4` sets to mark its version
/// and its variant, and only those are claimed.
#[verifier::external_body]
fn random_uuid() -> (value: u128)
    ensures
        is_random_uuid(value),
{
    uuid::Uuid::new_v4().as_u128()
}

/// `Uuid::from_u128` followed by the `Display` of `uuid::Uuid`, which writes
/// the hyphenated lower-case form: the 32 hexadecimal digits of the value,
/// most significant first, with hyphens after the digits 8, 12, 16 and 20.
/// The contract states that text, and that `Uuid::parse_str` reads the same
/// value back out of it.
#[verifier::external_body]
fn format_uuid(value: u128) -> (text: String)
    ensures
        text@ == uuid_text(value),
        uuid_parsed(text@) == Some(value),
{
    uuid::Uuid::from_u128(value).to_string()
}

/// `uuid::Uuid::parse_str`, the result as the integer of `Uuid::as_u128`:
/// `None` where it reports an error.
#[verifier::external_body]
fn parse_uuid(text: &str) -> (value: Option<u128>)
    ensures
        value == uuid_parsed(text@),
{
    match uuid::Uuid::parse_str(text) {
        Ok(id) => Some(id.as_u128()),
        Err(_) => None,
    }
}

} // verus!
