//! The two value types of the document store that a ticket record holds: the
//! record identifier and the point in time.

use std::str::FromStr;
use vstd::prelude::*;

verus! {

/// A point in time, as milliseconds since the Unix epoch.
#[derive(Clone, Copy, Debug, PartialEq, Eq, Structural)]
pub struct DateTime {
    millis: i64,
}

impl View for DateTime {
    type V = int;

    closed spec fn view(&self) -> int {
        self.millis as int
    }
}

impl DateTime {
    pub fn from_millis(millis: i64) -> (date: DateTime)
        ensures
            date@ == millis,
    {
        DateTime { millis }
    }

    pub fn timestamp_millis(self) -> (millis: i64)
        ensures
            millis == self@,
    {
        self.millis
    }
}

/// The value of a hexadecimal digit, in either case.
pub open spec fn hex_value(c: char) -> Option<int> {
    if '0' <= c <= '9' {
        Some(c as int - '0' as int)
    } else if 'a' <= c <= 'f' {
        Some(c as int - 'a' as int + 10)
    } else if 'A' <= c <= 'F' {
        Some(c as int - 'A' as int + 10)
    } else {
        None
    }
}

/// The lower-case hexadecimal digit of a value below 16.
pub open spec fn hex_digit(value: int) -> char {
    if value < 10 {
        (value + '0' as int) as char
    } else {
        (value - 10 + 'a' as int) as char
    }
}

/// Whether a text is the hexadecimal form of an identifier: 24 digits.
pub open spec fn is_object_id_hex(text: Seq<char>) -> bool {
    &&& text.len() == 24
    &&& forall|i: int| 0 <= i < 24 ==> (#[trigger] hex_value(text[i])) is Some
}

/// The twelve bytes that 24 hexadecimal digits stand for, two digits a byte,
/// the high one first.
pub open spec fn bytes_of_hex(text: Seq<char>) -> Seq<u8> {
    Seq::new(12, |i: int| (16 * hex_value(text[2 * i])->0 + hex_value(text[2 * i + 1])->0) as u8)
}

/// The 24 lower-case hexadecimal digits of twelve bytes.
pub open spec fn hex_of_bytes(bytes: Seq<u8>) -> Seq<char> {
    Seq::new(
        24,
        |i: int|
            if i % 2 == 0 {
                hex_digit(bytes[i / 2] as int / 16)
            } else {
                hex_digit(bytes[i / 2] as int % 16)
            },
    )
}

/// `ObjectId::from_str` of the document store's driver, which reads an
/// identifier from its hexadecimal form. It accepts exactly the texts of 24
/// hexadecimal digits, in either case, and gives the twelve bytes they stand
/// for.
#[verifier::external_body]
fn object_id_from_str(text: &str) -> (bytes: Option<[u8; 12]>)
    ensures
        bytes is Some <==> is_object_id_hex(text@),
        bytes matches Some(b) ==> b@ == bytes_of_hex(text@),
{
    match mongodb::bson::oid::ObjectId::from_str(text) {
        Ok(id) => Some(id.bytes()),
        Err(_) => None,
    }
}

/// `ObjectId::to_string` of the document store's driver, which writes an
/// identifier as 24 lower-case hexadecimal digits.
#[verifier::external_body]
fn object_id_to_string(bytes: [u8; 12]) -> (text: String)
    ensures
        text@ == hex_of_bytes(bytes@),
{
    mongodb::bson::oid::ObjectId::from_bytes(bytes).to_string()
}

/// `ObjectId::new` of the document store's driver, which makes an identifier
/// from the clock, a value drawn once per process and a counter. Nothing is
/// promised of the bytes; the driver stops the process if the clock stands
/// before 1970 or after 2106.
#[verifier::external_body]
fn object_id_new() -> (bytes: [u8; 12]) {
    mongodb::bson::oid::ObjectId::new().bytes()
}

/// The identifier of a record: twelve bytes.
#[derive(Clone, Copy, Debug, PartialEq, Eq)]
pub struct ObjectId {
    id: [u8; 12],
}

impl View for ObjectId {
    type V = Seq<u8>;

    closed spec fn view(&self) -> Seq<u8> {
        self.id@
    }
}

impl ObjectId {
    /// An identifier that the driver has just made.
    pub fn new() -> (id: ObjectId)
        ensures
            id@.len() == 12,
    {
        ObjectId { id: object_id_new() }
    }

    pub fn from_bytes(bytes: [u8; 12]) -> (id: ObjectId)
        ensures
            id@ == bytes@,
    {
        ObjectId { id: bytes }
    }

    pub fn bytes(&self) -> (bytes: [u8; 12])
        ensures
            bytes@ == self@,
    {
        self.id
    }

    /// Reads an identifier from 24 hexadecimal digits; any other text is no
    /// identifier.
    pub fn parse_str(text: &str) -> (id: Option<ObjectId>)
        ensures
            id is Some <==> is_object_id_hex(text@),
            id matches Some(found) ==> found@ == bytes_of_hex(text@),
    {
        match object_id_from_str(text) {
            Some(bytes) => Some(ObjectId { id: bytes }),
            None => None,
        }
    }

    /// The identifier as 24 lower-case hexadecimal digits.
    pub fn to_hex(&self) -> (text: String)
        ensures
            text@ == hex_of_bytes(self@),
    {
        object_id_to_string(self.id)
    }

    /// Whether two identifiers are the same.
    pub fn equals(&self, other: &ObjectId) -> (same: bool)
        ensures
            same == (self@ == other@),
    {
        let mut i: usize = 0;
        while i < 12
            invariant
                i <= 12,
                forall|j: int| 0 <= j < i ==> self.id@[j] == other.id@[j],
            decreases 12 - i,
        {
            if self.id[i] != other.id[i] {
                return false;
            }
            i = i + 1;
        }
        assert(self.id@ =~= other.id@);
        true
    }
}

/// The digit of a value below 16 has that value.
pub proof fn hex_digit_has_its_value(value: int)
    requires
        0 <= value < 16,
    ensures
        hex_value(hex_digit(value)) == Some(value),
{
}

/// The hexadecimal form of twelve bytes is the form of an identifier, and
/// stands for those bytes.
pub proof fn hex_round_trip(bytes: Seq<u8>)
    requires
        bytes.len() == 12,
    ensures
        is_object_id_hex(hex_of_bytes(bytes)),
        bytes_of_hex(hex_of_bytes(bytes)) == bytes,
{
    let text = hex_of_bytes(bytes);
    assert forall|i: int| 0 <= i < 24 implies (#[trigger] hex_value(text[i])) is Some by {
        let b = bytes[i / 2] as int;
        hex_digit_has_its_value(b / 16);
        hex_digit_has_its_value(b % 16);
    }
    assert forall|i: int| 0 <= i < 12 implies bytes_of_hex(text)[i] == bytes[i] by {
        let b = bytes[i] as int;
        hex_digit_has_its_value(b / 16);
        hex_digit_has_its_value(b % 16);
        assert((2 * i) / 2 == i && (2 * i) % 2 == 0);
        assert((2 * i + 1) / 2 == i && (2 * i + 1) % 2 == 1);
        assert(text[2 * i] == hex_digit(b / 16));
        assert(text[2 * i + 1] == hex_digit(b % 16));
        assert(16 * (b / 16) + b % 16 == b);
    }
    assert(bytes_of_hex(text) =~= bytes);
}

} // verus!
