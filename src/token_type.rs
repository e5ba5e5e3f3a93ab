//! The kinds of token, and of token supply, with their wire numbers.
use vstd::prelude::*;

verus! {

/// Whether a token's units are interchangeable or each unique.
#[derive(Clone, Copy, Debug, PartialEq, Eq, Structural)]
pub enum TokenType {
    /// Interchangeable units, like a currency. Wire number 0.
    FungibleCommon,
    /// Unique units, each with a serial number. Wire number 1.
    NonFungibleUnique,
}

/// Whether a token's supply has an upper bound.
#[derive(Clone, Copy, Debug, PartialEq, Eq, Structural)]
pub enum TokenSupplyType {
    /// No upper bound. Wire number 0.
    Infinite,
    /// At most the token's maximum supply. Wire number 1.
    Finite,
}

impl TokenType {
    pub open spec fn spec_to_wire(self) -> i32 {
        match self {
            TokenType::FungibleCommon => 0,
            TokenType::NonFungibleUnique => 1,
        }
    }

    /// The token type of a wire number; a number it does not know gives the
    /// default, `FungibleCommon`.
    pub open spec fn spec_from_wire(v: i32) -> TokenType {
        if v == 1 {
            TokenType::NonFungibleUnique
        } else {
            TokenType::FungibleCommon
        }
    }

    /// The wire number of this token type.
    pub fn to_wire(&self) -> (r: i32)
        ensures
            r == self.spec_to_wire(),
    {
        match self {
            TokenType::FungibleCommon => 0,
            TokenType::NonFungibleUnique => 1,
        }
    }

    /// The token type of a wire number; never fails.
    pub fn from_wire(v: i32) -> (r: TokenType)
        ensures
            r == TokenType::spec_from_wire(v),
    {
        if v == 1 {
            TokenType::NonFungibleUnique
        } else {
            TokenType::FungibleCommon
        }
    }
}

impl TokenSupplyType {
    pub open spec fn spec_to_wire(self) -> i32 {
        match self {
            TokenSupplyType::Infinite => 0,
            TokenSupplyType::Finite => 1,
        }
    }

    /// The supply type of a wire number; a number it does not know gives the
    /// default, `Infinite`.
    pub open spec fn spec_from_wire(v: i32) -> TokenSupplyType {
        if v == 1 {
            TokenSupplyType::Finite
        } else {
            TokenSupplyType::Infinite
        }
    }

    /// The wire number of this supply type.
    pub fn to_wire(&self) -> (r: i32)
        ensures
            r == self.spec_to_wire(),
    {
        match self {
            TokenSupplyType::Infinite => 0,
            TokenSupplyType::Finite => 1,
        }
    }

    /// The supply type of a wire number; never fails.
    pub fn from_wire(v: i32) -> (r: TokenSupplyType)
        ensures
            r == TokenSupplyType::spec_from_wire(v),
    {
        if v == 1 {
            TokenSupplyType::Finite
        } else {
            TokenSupplyType::Infinite
        }
    }
}

/// A wire number outside those known decodes to the default variant, and each
/// known variant decodes back from its own number.
pub proof fn lemma_token_enum_defaults(v: i32, t: TokenType, s: TokenSupplyType)
    ensures
        v != 0 && v != 1 ==> TokenType::spec_from_wire(v) == TokenType::FungibleCommon,
        v != 0 && v != 1 ==> TokenSupplyType::spec_from_wire(v) == TokenSupplyType::Infinite,
        TokenType::spec_from_wire(t.spec_to_wire()) == t,
        TokenSupplyType::spec_from_wire(s.spec_to_wire()) == s,
{
}

} // verus!
