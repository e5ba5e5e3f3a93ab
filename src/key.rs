//! Public keys and the keys that guard ledger entities.
use vstd::prelude::*;

use crate::error::DecodeError;
use crate::ids::{ContractId, EntityId};
use crate::wire;

verus! {

/// A public key of one of the two signature algorithms the ledger accepts.
#[derive(Clone, Copy, Debug, PartialEq, Eq)]
pub enum PublicKey {
    /// A 32-byte Ed25519 key.
    Ed25519([u8; 32]),
    /// A 33-byte compressed ECDSA secp256k1 key.
    EcdsaSecp256k1([u8; 33]),
}

/// What may be required to sign for an entity.
#[derive(Clone, Copy, Debug, PartialEq, Eq)]
pub enum Key {
    /// A signature by this public key.
    Single(PublicKey),
    /// A call from this contract.
    ContractId(ContractId),
    /// A call from this contract, also through a delegate call.
    DelegatableContractId(ContractId),
}

/// The bytes of `v`, copied into an array of their length.
fn array32(v: &Vec<u8>) -> (r: [u8; 32])
    requires
        v@.len() == 32,
    ensures
        r@ == v@,
{
    let mut a: [u8; 32] = [0u8; 32];
    let mut i: usize = 0;
    while i < 32
        invariant
            i <= 32,
            v@.len() == 32,
            forall|j: int| 0 <= j < i ==> a@[j] == v@[j],
        decreases 32 - i,
    {
        a[i] = v[i];
        i = i + 1;
    }
    assert(a@ =~= v@);
    a
}

/// The bytes of `v`, copied into an array of their length.
fn array33(v: &Vec<u8>) -> (r: [u8; 33])
    requires
        v@.len() == 33,
    ensures
        r@ == v@,
{
    let mut a: [u8; 33] = [0u8; 33];
    let mut i: usize = 0;
    while i < 33
        invariant
            i <= 33,
            v@.len() == 33,
            forall|j: int| 0 <= j < i ==> a@[j] == v@[j],
        decreases 33 - i,
    {
        a[i] = v[i];
        i = i + 1;
    }
    assert(a@ =~= v@);
    a
}

/// The bytes of `a` as a vector.
fn bytes_of<const N: usize>(a: &[u8; N]) -> (r: Vec<u8>)
    ensures
        r@ == a@,
{
    let mut v: Vec<u8> = Vec::new();
    let mut i: usize = 0;
    while i < N
        invariant
            i <= N,
            a@.len() == N,
            v@ == a@.subrange(0, i as int),
        decreases N - i,
    {
        v.push(a[i]);
        i = i + 1;
        assert(v@ =~= a@.subrange(0, i as int));
    }
    assert(a@.subrange(0, N as int) =~= a@);
    v
}

impl Key {
    /// `w` is the wire form of this key.
    pub open spec fn encoded_as(self, w: wire::Key) -> bool {
        match self {
            Key::Single(PublicKey::Ed25519(b)) => w.key matches Some(
                wire::KeyKind::Ed25519(v),
            ) && v@ == b@,
            Key::Single(PublicKey::EcdsaSecp256k1(b)) => w.key matches Some(
                wire::KeyKind::EcdsaSecp256k1(v),
            ) && v@ == b@,
            Key::ContractId(id) => w.key matches Some(wire::KeyKind::ContractId(c)) && c
                == id.spec_to_wire(),
            Key::DelegatableContractId(id) => w.key matches Some(
                wire::KeyKind::DelegatableContractId(c),
            ) && c == id.spec_to_wire(),
        }
    }

    /// The key that the wire form `w` stands for, or why there is none.
    pub open spec fn spec_from_wire(w: wire::Key) -> Result<Key, DecodeError> {
        match w.key {
            None => Err(DecodeError::MissingField),
            Some(wire::KeyKind::Ed25519(v)) => if v@.len() == 32 {
                Ok(Key::Single(PublicKey::Ed25519(choose|a: [u8; 32]| a@ == v@)))
            } else {
                Err(DecodeError::InvalidKeyLength)
            },
            Some(wire::KeyKind::EcdsaSecp256k1(v)) => if v@.len() == 33 {
                Ok(Key::Single(PublicKey::EcdsaSecp256k1(choose|a: [u8; 33]| a@ == v@)))
            } else {
                Err(DecodeError::InvalidKeyLength)
            },
            Some(wire::KeyKind::ContractId(c)) => Ok(Key::ContractId(EntityId::spec_from_wire(c))),
            Some(wire::KeyKind::DelegatableContractId(c)) => Ok(
                Key::DelegatableContractId(EntityId::spec_from_wire(c)),
            ),
        }
    }

    /// Encodes this key.
    pub fn to_wire(&self) -> (r: wire::Key)
        ensures
            self.encoded_as(r),
    {
        let kind = match self {
            Key::Single(PublicKey::Ed25519(b)) => wire::KeyKind::Ed25519(bytes_of(b)),
            Key::Single(PublicKey::EcdsaSecp256k1(b)) => wire::KeyKind::EcdsaSecp256k1(bytes_of(b)),
            Key::ContractId(id) => wire::KeyKind::ContractId(id.to_wire()),
            Key::DelegatableContractId(id) => wire::KeyKind::DelegatableContractId(id.to_wire()),
        };
        wire::Key { key: Some(kind) }
    }

    /// Decodes a key; public key bytes must have their algorithm's length.
    pub fn from_wire(w: &wire::Key) -> (r: Result<Key, DecodeError>)
        ensures
            r == Key::spec_from_wire(*w),
    {
        match &w.key {
            None => Err(DecodeError::MissingField),
            Some(wire::KeyKind::Ed25519(v)) => {
                if v.len() == 32 {
                    let a = array32(v);
                    proof {
                        let c = choose|x: [u8; 32]| x@ == v@;
                        assert(c =~= a);
                    }
                    Ok(Key::Single(PublicKey::Ed25519(a)))
                } else {
                    Err(DecodeError::InvalidKeyLength)
                }
            },
            Some(wire::KeyKind::EcdsaSecp256k1(v)) => {
                if v.len() == 33 {
                    let a = array33(v);
                    proof {
                        let c = choose|x: [u8; 33]| x@ == v@;
                        assert(c =~= a);
                    }
                    Ok(Key::Single(PublicKey::EcdsaSecp256k1(a)))
                } else {
                    Err(DecodeError::InvalidKeyLength)
                }
            },
            Some(wire::KeyKind::ContractId(c)) => Ok(Key::ContractId(EntityId::from_wire(*c))),
            Some(wire::KeyKind::DelegatableContractId(c)) => Ok(
                Key::DelegatableContractId(EntityId::from_wire(*c)),
            ),
        }
    }

    /// A key decodes back from any wire form of it.
    pub proof fn lemma_round_trip(self, w: wire::Key)
        requires
            self.encoded_as(w),
        ensures
            Key::spec_from_wire(w) == Ok::<Key, DecodeError>(self),
    {
        match self {
            Key::Single(PublicKey::Ed25519(b)) => {
                let c = choose|a: [u8; 32]| a@ == b@;
                assert(c =~= b);
            },
            Key::Single(PublicKey::EcdsaSecp256k1(b)) => {
                let c = choose|a: [u8; 33]| a@ == b@;
                assert(c =~= b);
            },
            Key::ContractId(id) => id.lemma_round_trip(),
            Key::DelegatableContractId(id) => id.lemma_round_trip(),
        }
    }
}

/// `w` is the wire form of the optional key `k`.
pub open spec fn opt_key_encoded_as(k: Option<Key>, w: Option<wire::Key>) -> bool {
    match (k, w) {
        (None, None) => true,
        (Some(k), Some(w)) => k.encoded_as(w),
        _ => false,
    }
}

pub open spec fn spec_opt_key_from_wire(w: Option<wire::Key>) -> Result<Option<Key>, DecodeError> {
    match w {
        Some(w) => match Key::spec_from_wire(w) {
            Ok(k) => Ok(Some(k)),
            Err(e) => Err(e),
        },
        None => Ok(None),
    }
}

/// Encodes an optional key.
pub fn opt_key_to_wire(k: &Option<Key>) -> (r: Option<wire::Key>)
    ensures
        opt_key_encoded_as(*k, r),
{
    match k {
        Some(k) => Some(k.to_wire()),
        None => None,
    }
}

/// Decodes an optional key.
pub fn opt_key_from_wire(w: &Option<wire::Key>) -> (r: Result<Option<Key>, DecodeError>)
    ensures
        r == spec_opt_key_from_wire(*w),
{
    match w {
        Some(w) => match Key::from_wire(w) {
            Ok(k) => Ok(Some(k)),
            Err(e) => Err(e),
        },
        None => Ok(None),
    }
}

/// An optional key decodes back from any wire form of it.
pub proof fn lemma_opt_key_round_trip(k: Option<Key>, w: Option<wire::Key>)
    requires
        opt_key_encoded_as(k, w),
    ensures
        spec_opt_key_from_wire(w) == Ok::<Option<Key>, DecodeError>(k),
{
    if let Some(k) = k {
        k.lemma_round_trip(w.unwrap());
    }
}

} // verus!
