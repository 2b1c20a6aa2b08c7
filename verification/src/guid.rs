//! Identifiers of clients, users and sessions: UUIDs, held as their 128 bits.

use std::str::FromStr;
use vstd::prelude::*;

verus! {

/// The 128 bits that `uuid::Uuid` reads out of a text, most significant byte
/// first, or `None` where it rejects the text.
pub uninterp spec fn uuid_parse(text: Seq<char>) -> Option<u128>;

/// The text that `uuid::Uuid` writes for 128 bits: lower-case hexadecimal
/// digits in five hyphenated groups.
pub uninterp spec fn uuid_text(bits: u128) -> Seq<char>;

/// Calls `uuid::Uuid::from_str` and reads the bits with `Uuid::as_u128`. The
/// outcome depends on the text alone: it succeeds exactly where `uuid_parse`
/// is `Some`, and then with those bits.
#[verifier::external_body]
fn parse_bits(text: &str) -> (r: Result<u128, uuid::Error>)
    ensures
        r is Ok <==> uuid_parse(text@) is Some,
        r matches Ok(bits) ==> uuid_parse(text@) == Some(bits),
{
    match uuid::Uuid::from_str(text) {
        Ok(id) => Ok(id.as_u128()),
        Err(e) => Err(e),
    }
}

/// Builds the `uuid::Uuid` of the bits with `Uuid::from_u128` and writes it
/// with its `Display` impl. The text depends on the bits alone.
#[verifier::external_body]
fn write_bits(bits: u128) -> (s: String)
    ensures
        s@ == uuid_text(bits),
{
    uuid::Uuid::from_u128(bits).to_string()
}

/// A UUID.
#[derive(Debug, Clone, Copy, PartialEq, Eq, Structural, Hash)]
pub struct Guid {
    /// The identifier's 16 bytes as one number, most significant byte first.
    pub bits: u128,
}

impl Guid {
    /// The identifier with the given bits.
    pub fn from_bits(bits: u128) -> (id: Guid)
        ensures
            id.bits == bits,
    {
        Guid { bits }
    }

    /// Reads an identifier from its text, in any of the forms that UUIDs are
    /// written in.
    pub fn parse(text: &str) -> (r: Result<Guid, uuid::Error>)
        ensures
            r is Ok <==> uuid_parse(text@) is Some,
            r matches Ok(id) ==> uuid_parse(text@) == Some(id.bits),
    {
        match parse_bits(text) {
            Ok(bits) => Ok(Guid { bits }),
            Err(e) => Err(e),
        }
    }

    /// The identifier in hyphenated lower-case form, as the gateway expects it.
    pub fn text(&self) -> (s: String)
        ensures
            s@ == uuid_text(self.bits),
    {
        write_bits(self.bits)
    }
}

impl Default for Guid {
    /// The nil identifier.
    fn default() -> (id: Guid)
        ensures
            id.bits == 0,
    {
        Guid { bits: 0 }
    }
}

} // verus!
