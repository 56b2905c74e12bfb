//! Unique identifiers of nodes.

use vstd::prelude::*;
use vstd::string::*;
use crate::error::ParseUuidError;

verus! {

/// What the `uuid` crate reads from a text: the identifier as a number of
/// 128 bits, or the message of its failure.
pub uninterp spec fn uuid_value(text: Seq<char>) -> Result<u128, Seq<char>>;

/// `<uuid::Uuid as FromStr>::from_str`, then `Uuid::as_u128`. Assumed: the
/// result is the same for the same text. The failure is turned into its
/// message.
#[verifier::external_body]
fn parse_uuid_text(text: &str) -> (r: Result<u128, String>)
    ensures
        match r {
            Ok(value) => uuid_value(text@) == Ok::<u128, Seq<char>>(value),
            Err(message) => uuid_value(text@) == Err::<u128, Seq<char>>(message@),
        },
{
    match <uuid::Uuid as std::str::FromStr>::from_str(text) {
        Ok(id) => Ok(id.as_u128()),
        Err(e) => Err(e.to_string()),
    }
}

/// The unique identifier of a node: a value of 128 bits.
#[derive(Debug, PartialEq, Eq, Structural, Clone, Copy, Hash)]
pub struct Uuid {
    pub value: u128,
}

impl Uuid {
    /// Reads an identifier in one of the forms that the `uuid` crate
    /// accepts: hyphenated, plain, in braces, or as a URN.
    pub fn from_str(s: &str) -> (r: Result<Uuid, ParseUuidError>)
        ensures
            match r {
                Ok(id) => uuid_value(s@) == Ok::<u128, Seq<char>>(id.value),
                Err(e) => uuid_value(s@) == Err::<u128, Seq<char>>(e.0@),
            },
    {
        match parse_uuid_text(s) {
            Ok(value) => Ok(Uuid { value }),
            Err(message) => Err(ParseUuidError(message)),
        }
    }

    /// The identifier as a number.
    pub fn as_u128(&self) -> (value: u128)
        ensures
            value == self.value,
    {
        self.value
    }
}

} // verus!
