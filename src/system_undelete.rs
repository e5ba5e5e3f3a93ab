//! Restoring a file or a smart contract that a system delete removed.
use vstd::prelude::*;

use crate::checksum::{collect_set_ids, set_ids, validate_each};
use crate::error::DecodeError;
use crate::ids::{ContractId, EntityId, FileId};
use crate::transaction::Transaction;
use crate::wire;

verus! {

/// What to undelete: a file or a contract. The setters keep at most one of
/// the two set.
#[derive(Clone, Copy, Debug, PartialEq, Eq, Structural)]
pub struct SystemUndeleteTransactionData {
    pub file_id: Option<FileId>,
    pub contract_id: Option<ContractId>,
}

/// Undeletes a file or smart contract that a system delete removed.
pub type SystemUndeleteTransaction = Transaction<SystemUndeleteTransactionData>;

/// The remote service that an undelete is sent to.
#[derive(Clone, Copy, Debug, PartialEq, Eq, Structural)]
pub enum UndeleteService {
    File,
    SmartContract,
}

impl SystemUndeleteTransactionData {
    /// At most one of the file and the contract is set.
    pub open spec fn wf(self) -> bool {
        !(self.file_id is Some && self.contract_id is Some)
    }

    /// This undelete after the contract to restore is set to `id`.
    pub open spec fn with_contract_id(self, id: ContractId) -> SystemUndeleteTransactionData {
        SystemUndeleteTransactionData { file_id: None, contract_id: Some(id) }
    }

    /// This undelete after the file to restore is set to `id`.
    pub open spec fn with_file_id(self, id: FileId) -> SystemUndeleteTransactionData {
        SystemUndeleteTransactionData { file_id: Some(id), contract_id: None }
    }

    /// The wire `id` oneof: the contract, where one is set, wins over the file.
    pub open spec fn spec_to_wire(self) -> wire::SystemUndeleteTransactionBody {
        wire::SystemUndeleteTransactionBody {
            id: match (self.contract_id, self.file_id) {
                (Some(c), _) => Some(wire::UndeleteId::ContractId(c.spec_to_wire())),
                (None, Some(f)) => Some(wire::UndeleteId::FileId(f.spec_to_wire())),
                (None, None) => None,
            },
        }
    }

    pub open spec fn spec_from_wire(w: wire::SystemUndeleteTransactionBody) -> SystemUndeleteTransactionData {
        match w.id {
            Some(wire::UndeleteId::FileId(f)) => SystemUndeleteTransactionData {
                file_id: Some(EntityId::spec_from_wire(f)),
                contract_id: None,
            },
            Some(wire::UndeleteId::ContractId(c)) => SystemUndeleteTransactionData {
                file_id: None,
                contract_id: Some(EntityId::spec_from_wire(c)),
            },
            None => SystemUndeleteTransactionData { file_id: None, contract_id: None },
        }
    }

    /// The service the undelete goes to: the file service where a file is set,
    /// else the smart contract service (also where neither is set).
    pub open spec fn spec_service(self) -> UndeleteService {
        if self.file_id is Some {
            UndeleteService::File
        } else {
            UndeleteService::SmartContract
        }
    }

    /// The identifiers whose checksums are checked, in order.
    pub open spec fn spec_checksum_targets(self) -> Seq<EntityId> {
        set_ids(seq![self.contract_id, self.file_id])
    }

    /// Encodes this undelete as its wire message.
    pub fn to_wire(&self) -> (r: wire::SystemUndeleteTransactionBody)
        ensures
            r == self.spec_to_wire(),
    {
        let id = match (self.contract_id, self.file_id) {
            (Some(c), _) => Some(wire::UndeleteId::ContractId(c.to_wire())),
            (None, Some(f)) => Some(wire::UndeleteId::FileId(f.to_wire())),
            (None, None) => None,
        };
        wire::SystemUndeleteTransactionBody { id }
    }

    /// Decodes an undelete from its wire message.
    pub fn from_wire(w: &wire::SystemUndeleteTransactionBody) -> (r: SystemUndeleteTransactionData)
        ensures
            r == SystemUndeleteTransactionData::spec_from_wire(*w),
            r.wf(),
    {
        match w.id {
            Some(wire::UndeleteId::FileId(f)) => SystemUndeleteTransactionData {
                file_id: Some(EntityId::from_wire(f)),
                contract_id: None,
            },
            Some(wire::UndeleteId::ContractId(c)) => SystemUndeleteTransactionData {
                file_id: None,
                contract_id: Some(EntityId::from_wire(c)),
            },
            None => SystemUndeleteTransactionData { file_id: None, contract_id: None },
        }
    }

    /// The service to send this undelete to.
    pub fn service(&self) -> (r: UndeleteService)
        ensures
            r == self.spec_service(),
    {
        if self.file_id.is_some() {
            UndeleteService::File
        } else {
            UndeleteService::SmartContract
        }
    }

    /// The identifiers whose checksums are checked: the contract, then the file,
    /// each where set.
    pub fn checksum_targets(&self) -> (r: Vec<EntityId>)
        ensures
            r@ == self.spec_checksum_targets(),
    {
        let ids: Vec<Option<EntityId>> = vec![self.contract_id, self.file_id];
        assert(ids@ == seq![self.contract_id, self.file_id]);
        collect_set_ids(&ids)
    }

    /// Checks the checksum of each identifier that is set with `validate`, and
    /// returns the first failure.
    pub fn validate_checksums<E, F: Fn(EntityId) -> Result<(), E>>(&self, validate: &F) -> (r: Result<
        (),
        E,
    >)
        requires
            forall|id: EntityId| validate.requires((id,)),
        ensures
            r is Ok ==> forall|i: int|
                0 <= i < self.spec_checksum_targets().len() ==> validate.ensures(
                    (self.spec_checksum_targets()[i],),
                    Ok(()),
                ),
            r matches Err(e) ==> exists|i: int|
                0 <= i < self.spec_checksum_targets().len() && validate.ensures(
                    (self.spec_checksum_targets()[i],),
                    Err(e),
                ) && forall|j: int|
                    0 <= j < i ==> validate.ensures((self.spec_checksum_targets()[j],), Ok(())),
    {
        let ids = self.checksum_targets();
        validate_each(&ids, validate)
    }
}

impl Default for SystemUndeleteTransactionData {
    fn default() -> (r: SystemUndeleteTransactionData)
        ensures
            r == (SystemUndeleteTransactionData { file_id: None, contract_id: None }),
    {
        SystemUndeleteTransactionData { file_id: None, contract_id: None }
    }
}

impl SystemUndeleteTransaction {
    /// A transaction that names nothing to undelete yet.
    pub fn new() -> (r: SystemUndeleteTransaction)
        ensures
            r.data == (SystemUndeleteTransactionData { file_id: None, contract_id: None }),
            r.data.wf(),
    {
        Transaction { data: SystemUndeleteTransactionData::default() }
    }

    /// Sets the contract to undelete, and clears the file.
    pub fn contract_id(&mut self, id: ContractId) -> (r: &mut Self)
        ensures
            r.data == old(self).data.with_contract_id(id),
            r.data.wf(),
            *final(r) == *final(self),
    {
        self.data.file_id = None;
        self.data.contract_id = Some(id);
        self
    }

    /// Sets the file to undelete, and clears the contract.
    pub fn file_id(&mut self, id: FileId) -> (r: &mut Self)
        ensures
            r.data == old(self).data.with_file_id(id),
            r.data.wf(),
            *final(r) == *final(self),
    {
        self.data.contract_id = None;
        self.data.file_id = Some(id);
        self
    }
}

/// Setting the file after the contract, or the contract after the file, leaves
/// only the one set last.
pub proof fn lemma_undelete_exclusive(d: SystemUndeleteTransactionData, c: ContractId, f: FileId)
    ensures
        d.with_contract_id(c).with_file_id(f) == (SystemUndeleteTransactionData {
            file_id: Some(f),
            contract_id: None,
        }),
        d.with_file_id(f).with_contract_id(c) == (SystemUndeleteTransactionData {
            file_id: None,
            contract_id: Some(c),
        }),
{
}

/// Decoding the wire form of an undelete that names at most one target gives
/// it back.
pub proof fn lemma_undelete_round_trip(d: SystemUndeleteTransactionData)
    requires
        d.wf(),
    ensures
        SystemUndeleteTransactionData::spec_from_wire(d.spec_to_wire()) == d,
{
    if let Some(f) = d.file_id {
        f.lemma_round_trip();
    }
    if let Some(c) = d.contract_id {
        c.lemma_round_trip();
    }
}

/// Where both a contract and a file are set, the wire form names the contract
/// alone; where only a file is set, it names the file.
pub proof fn lemma_undelete_contract_precedence(d: SystemUndeleteTransactionData)
    ensures
        d.contract_id matches Some(c) ==> d.spec_to_wire().id == Some(
            wire::UndeleteId::ContractId(c.spec_to_wire()),
        ),
        d.contract_id is None && d.file_id is Some ==> d.spec_to_wire().id == Some(
            wire::UndeleteId::FileId(d.file_id.unwrap().spec_to_wire()),
        ),
{
}

} // verus!
