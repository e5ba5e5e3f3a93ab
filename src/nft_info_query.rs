//! Asking for the details of one NFT.
use vstd::prelude::*;

use crate::checksum::validate_each;
use crate::error::DecodeError;
use crate::ids::{widen, EntityId, TokenId};
use crate::transaction::Query;
use crate::wire;

verus! {

/// One NFT: a token and a serial number within it.
#[derive(Clone, Copy, Debug, PartialEq, Eq, Structural)]
pub struct NftId {
    pub token_id: TokenId,
    pub serial: u64,
}

impl NftId {
    pub open spec fn spec_to_wire(self) -> wire::NftId {
        wire::NftId { token_id: Some(self.token_id.spec_to_wire()), serial_number: self.serial as i64 }
    }

    pub open spec fn spec_from_wire(w: wire::NftId) -> Result<NftId, DecodeError> {
        match w.token_id {
            Some(t) => Ok(NftId { token_id: EntityId::spec_from_wire(t), serial: widen(w.serial_number) }),
            None => Err(DecodeError::MissingField),
        }
    }

    /// Encodes this NFT identifier.
    pub fn to_wire(&self) -> (r: wire::NftId)
        ensures
            r == self.spec_to_wire(),
    {
        wire::NftId { token_id: Some(self.token_id.to_wire()), serial_number: self.serial as i64 }
    }

    /// Decodes an NFT identifier; it must name its token.
    pub fn from_wire(w: wire::NftId) -> (r: Result<NftId, DecodeError>)
        ensures
            r == NftId::spec_from_wire(w),
    {
        match w.token_id {
            Some(t) => Ok(NftId { token_id: EntityId::from_wire(t), serial: w.serial_number as u64 }),
            None => Err(DecodeError::MissingField),
        }
    }
}

/// The fields of an NFT info query.
#[derive(Clone, Copy, Debug, PartialEq, Eq, Structural)]
pub struct TokenNftInfoQueryData {
    pub nft_id: Option<NftId>,
}

/// Gets info on an NFT for a given token and serial number.
pub type TokenNftInfoQuery = Query<TokenNftInfoQueryData>;

impl TokenNftInfoQueryData {
    pub open spec fn spec_to_wire(self) -> wire::TokenGetNftInfoQuery {
        wire::TokenGetNftInfoQuery {
            nft_id: match self.nft_id {
                Some(n) => Some(n.spec_to_wire()),
                None => None,
            },
        }
    }

    pub open spec fn spec_from_wire(w: wire::TokenGetNftInfoQuery) -> Result<
        TokenNftInfoQueryData,
        DecodeError,
    > {
        match w.nft_id {
            Some(n) => match NftId::spec_from_wire(n) {
                Ok(n) => Ok(TokenNftInfoQueryData { nft_id: Some(n) }),
                Err(e) => Err(e),
            },
            None => Ok(TokenNftInfoQueryData { nft_id: None }),
        }
    }

    /// The identifiers whose checksums are checked: the NFT's token, where set.
    pub open spec fn spec_checksum_targets(self) -> Seq<EntityId> {
        match self.nft_id {
            Some(n) => seq![n.token_id],
            None => Seq::empty(),
        }
    }

    /// Checks the checksum of the NFT's token, where one is set, with `validate`.
    pub fn validate_checksums<E, F: Fn(EntityId) -> Result<(), E>>(&self, validate: &F) -> (r: Result<
        (),
        E,
    >)
        requires
            forall|id: EntityId| validate.requires((id,)),
        ensures
            r is Ok ==> forall|i: int|
                0 <= i < self.spec_checksum_targets().len() ==> validate.ensures(
                    (self.spec_checksum_targets()[i],),
                    Ok(()),
                ),
            r matches Err(e) ==> exists|i: int|
                0 <= i < self.spec_checksum_targets().len() && validate.ensures(
                    (self.spec_checksum_targets()[i],),
                    Err(e),
                ) && forall|j: int|
                    0 <= j < i ==> validate.ensures((self.spec_checksum_targets()[j],), Ok(())),
    {
        let mut ids: Vec<EntityId> = Vec::new();
        if let Some(n) = self.nft_id {
            ids.push(n.token_id);
        }
        assert(ids@ =~= self.spec_checksum_targets());
        validate_each(&ids, validate)
    }

    /// Encodes this query as its wire message.
    pub fn to_wire(&self) -> (r: wire::TokenGetNftInfoQuery)
        ensures
            r == self.spec_to_wire(),
    {
        let nft_id = match self.nft_id {
            Some(n) => Some(n.to_wire()),
            None => None,
        };
        wire::TokenGetNftInfoQuery { nft_id }
    }

    /// Decodes a query from its wire message.
    pub fn from_wire(w: &wire::TokenGetNftInfoQuery) -> (r: Result<TokenNftInfoQueryData, DecodeError>)
        ensures
            r == TokenNftInfoQueryData::spec_from_wire(*w),
    {
        match w.nft_id {
            Some(n) => match NftId::from_wire(n) {
                Ok(n) => Ok(TokenNftInfoQueryData { nft_id: Some(n) }),
                Err(e) => Err(e),
            },
            None => Ok(TokenNftInfoQueryData { nft_id: None }),
        }
    }
}

impl Default for TokenNftInfoQueryData {
    fn default() -> (r: TokenNftInfoQueryData)
        ensures
            r == (TokenNftInfoQueryData { nft_id: None }),
    {
        TokenNftInfoQueryData { nft_id: None }
    }
}

impl TokenNftInfoQuery {
    /// A query that names no NFT yet.
    pub fn new() -> (r: TokenNftInfoQuery)
        ensures
            r.data == (TokenNftInfoQueryData { nft_id: None }),
    {
        Query { data: TokenNftInfoQueryData::default() }
    }

    /// Sets the NFT whose details are requested.
    pub fn nft_id(&mut self, nft_id: NftId) -> (r: &mut Self)
        ensures
            r.data == (TokenNftInfoQueryData { nft_id: Some(nft_id) }),
            *final(r) == *final(self),
    {
        self.data.nft_id = Some(nft_id);
        self
    }
}

/// Decoding the wire form of an NFT info query gives it back.
pub proof fn lemma_nft_info_query_round_trip(d: TokenNftInfoQueryData)
    ensures
        TokenNftInfoQueryData::spec_from_wire(d.spec_to_wire()) == Ok::<
            TokenNftInfoQueryData,
            DecodeError,
        >(d),
{
    if let Some(n) = d.nft_id {
        n.token_id.lemma_round_trip();
        crate::ids::lemma_narrow_widen(n.serial);
    }
}

} // verus!
