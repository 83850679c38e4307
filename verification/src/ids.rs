//! Run and step identifiers.

use vstd::prelude::*;

use crate::text;

verus! {

/// Identifier of a single run, a UUID by its 128-bit value.
#[derive(Debug, Clone, Copy, PartialEq, Eq, Hash, Structural)]
pub struct RunId(pub u128);

/// Identifier of one provider turn within a run, a UUID by its 128-bit value.
#[derive(Debug, Clone, Copy, PartialEq, Eq, Hash, Structural)]
pub struct StepId(pub u128);

/// Whether a UUID is of version 4 in the RFC 4122 variant.
pub open spec fn is_uuid_v4(n: u128) -> bool {
    (n >> 76) & 0xf == 4 && (n >> 62) & 0x3 == 2
}

/// The hexadecimal digit at place `k` of a UUID, from the front.
pub open spec fn uuid_digit(n: u128, k: int) -> char {
    text::hex_char(((n >> ((124 - 4 * k) as u128)) & 0xf) as int)
}

/// A UUID as text: groups of 8, 4, 4, 4 and 12 digits with hyphens between.
pub open spec fn uuid_text(n: u128) -> Seq<char> {
    Seq::new(
        36,
        |i: int|
            if i == 8 || i == 13 || i == 18 || i == 23 {
                '-'
            } else if i < 8 {
                uuid_digit(n, i)
            } else if i < 13 {
                uuid_digit(n, i - 1)
            } else if i < 18 {
                uuid_digit(n, i - 2)
            } else if i < 23 {
                uuid_digit(n, i - 3)
            } else {
                uuid_digit(n, i - 4)
            },
    )
}

/// Calls `uuid::Uuid::new_v4`. The value is random but for the bits that say version and variant.
#[verifier::external_body]
fn new_v4() -> (r: u128)
    ensures
        is_uuid_v4(r),
{
    uuid::Uuid::new_v4().as_u128()
}

/// Calls `to_string` of `uuid::Uuid`, which writes lower-case digits with hyphens.
#[verifier::external_body]
fn display_uuid(n: u128) -> (r: String)
    ensures
        r@ == uuid_text(n),
{
    uuid::Uuid::from_u128(n).to_string()
}

impl RunId {
    /// A fresh identifier. Which one is left to chance.
    pub fn new() -> (r: Self)
        ensures
            is_uuid_v4(r.0),
    {
        RunId(new_v4())
    }

    /// The identifier as text.
    pub fn text(&self) -> (r: String)
        ensures
            r@ == uuid_text(self.0),
    {
        display_uuid(self.0)
    }
}

impl Default for RunId {
    fn default() -> (r: Self)
        ensures
            is_uuid_v4(r.0),
    {
        RunId::new()
    }
}

impl StepId {
    /// A fresh identifier. Which one is left to chance.
    pub fn new() -> (r: Self)
        ensures
            is_uuid_v4(r.0),
    {
        StepId(new_v4())
    }

    /// The identifier as text.
    pub fn text(&self) -> (r: String)
        ensures
            r@ == uuid_text(self.0),
    {
        display_uuid(self.0)
    }
}

impl Default for StepId {
    fn default() -> (r: Self)
        ensures
            is_uuid_v4(r.0),
    {
        StepId::new()
    }
}

} // verus!
