//! Entity identifiers: `shard.realm.num` triples.
use vstd::prelude::*;

use crate::wire;

verus! {

/// The identifier of a ledger entity, written `shard.realm.num`.
#[derive(Clone, Copy, Debug, PartialEq, Eq, Structural)]
pub struct EntityId {
    pub shard: u64,
    pub realm: u64,
    pub num: u64,
}

/// The identifier of an account.
pub type AccountId = EntityId;

/// The identifier of a smart contract.
pub type ContractId = EntityId;

/// The identifier of a file.
pub type FileId = EntityId;

/// The identifier of a token.
pub type TokenId = EntityId;

/// A wire `int64` read back as the `u64` it was narrowed from.
pub open spec fn widen(x: i64) -> u64 {
    x as u64
}

/// A `u64` narrowed to a wire `int64` (two's complement; large values become negative).
pub open spec fn narrow(x: u64) -> i64 {
    x as i64
}

/// Narrowing to the wire width and widening back gives the original number.
pub proof fn lemma_narrow_widen(x: u64)
    ensures
        widen(narrow(x)) == x,
{
    assert((x as i64) as u64 == x) by (bit_vector);
}

impl EntityId {
    /// The entity `0.0.num`.
    pub fn from_num(num: u64) -> (r: EntityId)
        ensures
            r == (EntityId { shard: 0, realm: 0, num }),
    {
        EntityId { shard: 0, realm: 0, num }
    }

    pub open spec fn spec_to_wire(self) -> wire::Id {
        wire::Id { shard_num: narrow(self.shard), realm_num: narrow(self.realm), num: narrow(self.num) }
    }

    pub open spec fn spec_from_wire(w: wire::Id) -> EntityId {
        EntityId { shard: widen(w.shard_num), realm: widen(w.realm_num), num: widen(w.num) }
    }

    /// Encodes this identifier as its wire triple.
    pub fn to_wire(&self) -> (r: wire::Id)
        ensures
            r == self.spec_to_wire(),
    {
        wire::Id { shard_num: self.shard as i64, realm_num: self.realm as i64, num: self.num as i64 }
    }

    /// Decodes a wire triple.
    pub fn from_wire(w: wire::Id) -> (r: EntityId)
        ensures
            r == EntityId::spec_from_wire(w),
    {
        EntityId { shard: w.shard_num as u64, realm: w.realm_num as u64, num: w.num as u64 }
    }

    /// Decoding the encoding of an identifier gives it back.
    pub proof fn lemma_round_trip(self)
        ensures
            EntityId::spec_from_wire(self.spec_to_wire()) == self,
    {
        lemma_narrow_widen(self.shard);
        lemma_narrow_widen(self.realm);
        lemma_narrow_widen(self.num);
    }
}

/// The wire form of an optional identifier.
pub open spec fn spec_opt_id_to_wire(o: Option<EntityId>) -> Option<wire::Id> {
    match o {
        Some(id) => Some(id.spec_to_wire()),
        None => None,
    }
}

/// The identifier that an optional wire identifier stands for.
pub open spec fn spec_opt_id_from_wire(o: Option<wire::Id>) -> Option<EntityId> {
    match o {
        Some(w) => Some(EntityId::spec_from_wire(w)),
        None => None,
    }
}

/// Encodes an optional identifier.
pub fn opt_id_to_wire(o: Option<EntityId>) -> (r: Option<wire::Id>)
    ensures
        r == spec_opt_id_to_wire(o),
{
    match o {
        Some(id) => Some(id.to_wire()),
        None => None,
    }
}

/// Decodes an optional identifier.
pub fn opt_id_from_wire(o: Option<wire::Id>) -> (r: Option<EntityId>)
    ensures
        r == spec_opt_id_from_wire(o),
{
    match o {
        Some(w) => Some(EntityId::from_wire(w)),
        None => None,
    }
}

/// Decoding the encoding of an optional identifier gives it back.
pub proof fn lemma_opt_id_round_trip(o: Option<EntityId>)
    ensures
        spec_opt_id_from_wire(spec_opt_id_to_wire(o)) == o,
{
    if let Some(id) = o {
        id.lemma_round_trip();
    }
}

impl From<u64> for EntityId {
    fn from(num: u64) -> (r: EntityId) {
        EntityId { shard: 0, realm: 0, num }
    }
}

impl vstd::std_specs::convert::FromSpecImpl<u64> for EntityId {
    open spec fn obeys_from_spec() -> bool {
        true
    }

    open spec fn from_spec(num: u64) -> EntityId {
        EntityId { shard: 0, realm: 0, num }
    }
}

} // verus!
