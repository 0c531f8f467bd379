//! User identities.
//!
//! An identity is an opaque 128-bit value that the relying party assigns when
//! a registration begins. Clients carry it as text, in the canonical form of a
//! UUID, and echo it back in later calls.

use crate::engine::{format_identity, identity_of_text, parse_identity};
use crate::error::CeremonyError;
use vstd::prelude::*;

verus! {

/// The hexadecimal digit, in lower case, of a number below sixteen.
pub open spec fn hex_digit(nibble: int) -> char {
    seq!['0', '1', '2', '3', '4', '5', '6', '7', '8', '9', 'a', 'b', 'c', 'd', 'e', 'f'][nibble]
}

/// The canonical text of the UUID with the given 128 bits: its 32 hexadecimal
/// digits in lower case, the most significant first, in groups of 8, 4, 4, 4
/// and 12 digits with a hyphen between two groups.
pub open spec fn text_of_identity(value: u128) -> Seq<char> {
    Seq::new(
        36,
        |i: int|
            if i == 8 || i == 13 || i == 18 || i == 23 {
                '-'
            } else {
                let hyphens: int = if i > 23 {
                    4
                } else if i > 18 {
                    3
                } else if i > 13 {
                    2
                } else if i > 8 {
                    1
                } else {
                    0
                };
                let digit = i - hyphens;
                hex_digit(((value >> ((4 * (31 - digit)) as u128)) & 0xf) as int)
            },
    )
}

/// The identity of one user: the 128 bits of a UUID.
#[derive(Clone, Copy, Debug, PartialEq, Eq, Hash, Structural)]
pub struct UserId(pub u128);

impl UserId {
    /// The identity that a text denotes, if it denotes one.
    pub open spec fn parsed(text: Seq<char>) -> Option<UserId> {
        match identity_of_text(text) {
            Some(value) => Some(UserId(value)),
            None => None,
        }
    }

    /// The text under which this identity travels.
    pub open spec fn text(self) -> Seq<char> {
        text_of_identity(self.0)
    }

    /// Reads an identity from the text that a client sent. A text that is not
    /// an identity gives `None`.
    pub fn parse(text: &str) -> (id: Option<UserId>)
        ensures
            id == Self::parsed(text@),
    {
        match parse_identity(text) {
            Some(value) => Some(UserId(value)),
            None => None,
        }
    }

    /// Reads an identity as [`UserId::parse`] does, and reports a text that is
    /// not an identity as `MalformedIdentity`.
    pub fn read(text: &str) -> (id: Result<UserId, CeremonyError>)
        ensures
            id == match Self::parsed(text@) {
                Some(user) => Ok::<UserId, CeremonyError>(user),
                None => Err::<UserId, CeremonyError>(CeremonyError::MalformedIdentity),
            },
    {
        match parse_identity(text) {
            Some(value) => Ok(UserId(value)),
            None => Err(CeremonyError::MalformedIdentity),
        }
    }

    /// Writes the identity as text. Reading the text back gives this identity
    /// again.
    pub fn to_text(&self) -> (text: String)
        ensures
            text@ == self.text(),
            text@.len() == 36,
            Self::parsed(text@) == Some(*self),
    {
        format_identity(self.0)
    }

    /// The 128 bits of the identity.
    pub fn value(&self) -> (value: u128)
        ensures
            value == self.0,
    {
        self.0
    }
}

} // verus!
