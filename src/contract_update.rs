//! Updating the properties of a smart contract.
use vstd::prelude::*;

use crate::checksum::{collect_set_ids, set_ids, validate_each};
use crate::error::DecodeError;
use crate::ids::{
    lemma_opt_id_round_trip, opt_id_from_wire, opt_id_to_wire, spec_opt_id_from_wire,
    spec_opt_id_to_wire, AccountId, ContractId, EntityId,
};
use crate::key::{
    lemma_opt_key_round_trip, opt_key_encoded_as, opt_key_from_wire, opt_key_to_wire,
    spec_opt_key_from_wire, Key,
};
use crate::time::{
    lemma_opt_time_round_trip, opt_duration_from_wire, opt_duration_to_wire,
    opt_timestamp_from_wire, opt_timestamp_to_wire, opt_timestamp_wf,
    spec_opt_duration_from_wire, spec_opt_duration_to_wire, spec_opt_timestamp_from_wire,
    spec_opt_timestamp_to_wire, Duration, Timestamp,
};
use crate::transaction::Transaction;
use crate::wire;

verus! {

/// The fields of a contract update. Every field is optional: an unset field
/// leaves that property of the contract as it is.
#[derive(Clone, Debug, PartialEq, Eq)]
pub struct ContractUpdateTransactionData {
    pub contract_id: Option<ContractId>,
    pub expires_at: Option<Timestamp>,
    pub admin_key: Option<Key>,
    pub auto_renew_period: Option<Duration>,
    pub contract_memo: Option<String>,
    pub max_automatic_token_associations: Option<u32>,
    pub auto_renew_account_id: Option<AccountId>,
    pub staked_account_id: Option<AccountId>,
    pub staked_node_id: Option<u64>,
    pub decline_staking_reward: Option<bool>,
}

/// Updates the fields of a smart contract to the given values.
pub type ContractUpdateTransaction = Transaction<ContractUpdateTransactionData>;

impl ContractUpdateTransactionData {
    /// The update that changes nothing.
    pub open spec fn spec_empty() -> ContractUpdateTransactionData {
        ContractUpdateTransactionData {
            contract_id: None,
            expires_at: None,
            admin_key: None,
            auto_renew_period: None,
            contract_memo: None,
            max_automatic_token_associations: None,
            auto_renew_account_id: None,
            staked_account_id: None,
            staked_node_id: None,
            decline_staking_reward: None,
        }
    }

    /// The expiry, if set, is a well-formed point in time.
    pub open spec fn wf(self) -> bool {
        opt_timestamp_wf(self.expires_at)
    }

    /// The member of the wire `staked_id` oneof: the node, where one is set,
    /// wins over the account.
    pub open spec fn spec_staked_id(self) -> Option<wire::StakedId> {
        match (self.staked_node_id, self.staked_account_id) {
            (Some(node), _) => Some(wire::StakedId::StakedNodeId(node as i64)),
            (None, Some(account)) => Some(wire::StakedId::StakedAccountId(account.spec_to_wire())),
            (None, None) => None,
        }
    }

    /// `w` is the wire form of this update.
    pub open spec fn encoded_as(self, w: wire::ContractUpdateTransactionBody) -> bool {
        &&& w.contract_id == spec_opt_id_to_wire(self.contract_id)
        &&& w.expiration_time == spec_opt_timestamp_to_wire(self.expires_at)
        &&& opt_key_encoded_as(self.admin_key, w.admin_key)
        &&& w.proxy_account_id is None
        &&& w.auto_renew_period == spec_opt_duration_to_wire(self.auto_renew_period)
        &&& w.file_id is None
        &&& w.max_automatic_token_associations == match self.max_automatic_token_associations {
            Some(max) => Some(max as i32),
            None => None::<i32>,
        }
        &&& w.auto_renew_account_id == spec_opt_id_to_wire(self.auto_renew_account_id)
        &&& w.decline_reward == self.decline_staking_reward
        &&& w.staked_id == self.spec_staked_id()
        &&& w.memo_field == match self.contract_memo {
            Some(memo) => Some(wire::MemoField::MemoWrapper(memo)),
            None => None::<wire::MemoField>,
        }
    }

    /// The update that the wire message `w` stands for, or why there is none.
    /// Both members of the memo oneof give the memo; the deprecated proxy
    /// account and file are ignored.
    pub open spec fn spec_from_wire(w: wire::ContractUpdateTransactionBody) -> Result<
        ContractUpdateTransactionData,
        DecodeError,
    > {
        match (spec_opt_timestamp_from_wire(w.expiration_time), spec_opt_key_from_wire(w.admin_key)) {
            (Err(e), _) => Err(e),
            (Ok(_), Err(e)) => Err(e),
            (Ok(expires_at), Ok(admin_key)) => Ok(
                ContractUpdateTransactionData {
                    contract_id: spec_opt_id_from_wire(w.contract_id),
                    expires_at,
                    admin_key,
                    auto_renew_period: spec_opt_duration_from_wire(w.auto_renew_period),
                    contract_memo: match w.memo_field {
                        Some(wire::MemoField::Memo(m)) => Some(m),
                        Some(wire::MemoField::MemoWrapper(m)) => Some(m),
                        None => None,
                    },
                    max_automatic_token_associations: match w.max_automatic_token_associations {
                        Some(max) => Some(max as u32),
                        None => None,
                    },
                    auto_renew_account_id: spec_opt_id_from_wire(w.auto_renew_account_id),
                    staked_account_id: match w.staked_id {
                        Some(wire::StakedId::StakedAccountId(a)) => Some(EntityId::spec_from_wire(a)),
                        _ => None,
                    },
                    staked_node_id: match w.staked_id {
                        Some(wire::StakedId::StakedNodeId(n)) => Some(n as u64),
                        _ => None,
                    },
                    decline_staking_reward: w.decline_reward,
                },
            ),
        }
    }

    /// The identifiers whose checksums are checked, in order.
    pub open spec fn spec_checksum_targets(self) -> Seq<EntityId> {
        set_ids(seq![self.contract_id, self.auto_renew_account_id, self.staked_account_id])
    }

    /// The identifiers whose checksums are checked: the contract, the auto-renew
    /// account and the staked account, each where set.
    pub fn checksum_targets(&self) -> (r: Vec<EntityId>)
        ensures
            r@ == self.spec_checksum_targets(),
    {
        let ids: Vec<Option<EntityId>> = vec![
            self.contract_id,
            self.auto_renew_account_id,
            self.staked_account_id,
        ];
        assert(ids@ == seq![self.contract_id, self.auto_renew_account_id, self.staked_account_id]);
        collect_set_ids(&ids)
    }

    /// Checks the checksum of each identifier that is set with `validate`, and
    /// returns the first failure.
    pub fn validate_checksums<E, F: Fn(EntityId) -> Result<(), E>>(&self, validate: &F) -> (r: Result<
        (),
        E,
    >)
        requires
            forall|id: EntityId| validate.requires((id,)),
        ensures
            r is Ok ==> forall|i: int|
                0 <= i < self.spec_checksum_targets().len() ==> validate.ensures(
                    (self.spec_checksum_targets()[i],),
                    Ok(()),
                ),
            r matches Err(e) ==> exists|i: int|
                0 <= i < self.spec_checksum_targets().len() && validate.ensures(
                    (self.spec_checksum_targets()[i],),
                    Err(e),
                ) && forall|j: int|
                    0 <= j < i ==> validate.ensures((self.spec_checksum_targets()[j],), Ok(())),
    {
        let ids = self.checksum_targets();
        validate_each(&ids, validate)
    }

    /// Encodes this update as its wire message.
    pub fn to_wire(&self) -> (r: wire::ContractUpdateTransactionBody)
        requires
            self.wf(),
        ensures
            self.encoded_as(r),
    {
        let staked_id = match (self.staked_node_id, self.staked_account_id) {
            (Some(node), _) => Some(wire::StakedId::StakedNodeId(node as i64)),
            (None, Some(account)) => Some(wire::StakedId::StakedAccountId(account.to_wire())),
            (None, None) => None,
        };
        let memo_field = match &self.contract_memo {
            Some(memo) => Some(wire::MemoField::MemoWrapper(memo.clone())),
            None => None,
        };
        let max_automatic_token_associations = match self.max_automatic_token_associations {
            Some(max) => Some(max as i32),
            None => None,
        };
        wire::ContractUpdateTransactionBody {
            contract_id: opt_id_to_wire(self.contract_id),
            expiration_time: opt_timestamp_to_wire(self.expires_at),
            admin_key: opt_key_to_wire(&self.admin_key),
            proxy_account_id: None,
            auto_renew_period: opt_duration_to_wire(self.auto_renew_period),
            file_id: None,
            max_automatic_token_associations,
            auto_renew_account_id: opt_id_to_wire(self.auto_renew_account_id),
            decline_reward: self.decline_staking_reward,
            staked_id,
            memo_field,
        }
    }

    /// Decodes a contract update from its wire message.
    pub fn from_wire(w: &wire::ContractUpdateTransactionBody) -> (r: Result<
        ContractUpdateTransactionData,
        DecodeError,
    >)
        ensures
            r == ContractUpdateTransactionData::spec_from_wire(*w),
            r matches Ok(d) ==> d.wf(),
    {
        let expires_at = match opt_timestamp_from_wire(w.expiration_time) {
            Ok(t) => t,
            Err(e) => return Err(e),
        };
        let admin_key = match opt_key_from_wire(&w.admin_key) {
            Ok(k) => k,
            Err(e) => return Err(e),
        };
        let contract_memo = match &w.memo_field {
            Some(wire::MemoField::Memo(m)) => Some(m.clone()),
            Some(wire::MemoField::MemoWrapper(m)) => Some(m.clone()),
            None => None,
        };
        let max_automatic_token_associations = match w.max_automatic_token_associations {
            Some(max) => Some(max as u32),
            None => None,
        };
        let (staked_account_id, staked_node_id) = match w.staked_id {
            Some(wire::StakedId::StakedAccountId(a)) => (Some(EntityId::from_wire(a)), None),
            Some(wire::StakedId::StakedNodeId(n)) => (None, Some(n as u64)),
            None => (None, None),
        };
        Ok(
            ContractUpdateTransactionData {
                contract_id: opt_id_from_wire(w.contract_id),
                expires_at,
                admin_key,
                auto_renew_period: opt_duration_from_wire(w.auto_renew_period),
                contract_memo,
                max_automatic_token_associations,
                auto_renew_account_id: opt_id_from_wire(w.auto_renew_account_id),
                staked_account_id,
                staked_node_id,
                decline_staking_reward: w.decline_reward,
            },
        )
    }
}

impl Default for ContractUpdateTransactionData {
    fn default() -> (r: ContractUpdateTransactionData)
        ensures
            r == ContractUpdateTransactionData::spec_empty(),
    {
        ContractUpdateTransactionData {
            contract_id: None,
            expires_at: None,
            admin_key: None,
            auto_renew_period: None,
            contract_memo: None,
            max_automatic_token_associations: None,
            auto_renew_account_id: None,
            staked_account_id: None,
            staked_node_id: None,
            decline_staking_reward: None,
        }
    }
}

impl ContractUpdateTransaction {
    /// A transaction that updates nothing yet.
    pub fn new() -> (r: ContractUpdateTransaction)
        ensures
            r.data == ContractUpdateTransactionData::spec_empty(),
    {
        Transaction { data: ContractUpdateTransactionData::default() }
    }

    /// Sets the contract to be updated.
    pub fn contract_id(&mut self, contract_id: ContractId) -> (r: &mut Self)
        ensures
            r.data == (ContractUpdateTransactionData { contract_id: Some(contract_id), ..old(self).data }),
            *final(r) == *final(self),
    {
        self.data.contract_id = Some(contract_id);
        self
    }

    /// Sets the admin key.
    pub fn admin_key(&mut self, key: Key) -> (r: &mut Self)
        ensures
            r.data == (ContractUpdateTransactionData { admin_key: Some(key), ..old(self).data }),
            *final(r) == *final(self),
    {
        self.data.admin_key = Some(key);
        self
    }

    /// Sets the new expiration time to extend to (ignored if equal to or before the current one).
    pub fn expires_at(&mut self, at: Timestamp) -> (r: &mut Self)
        requires
            at.wf(),
        ensures
            r.data == (ContractUpdateTransactionData { expires_at: Some(at), ..old(self).data }),
            *final(r) == *final(self),
    {
        self.data.expires_at = Some(at);
        self
    }

    /// Sets the auto renew period for this smart contract.
    pub fn auto_renew_period(&mut self, period: Duration) -> (r: &mut Self)
        ensures
            r.data == (ContractUpdateTransactionData { auto_renew_period: Some(period), ..old(self).data }),
            *final(r) == *final(self),
    {
        self.data.auto_renew_period = Some(period);
        self
    }

    /// Sets the memo for the smart contract.
    pub fn contract_memo(&mut self, memo: String) -> (r: &mut Self)
        ensures
            r.data == (ContractUpdateTransactionData { contract_memo: Some(memo), ..old(self).data }),
            *final(r) == *final(self),
    {
        self.data.contract_memo = Some(memo);
        self
    }

    /// Sets the maximum number of tokens that this contract can be automatically associated with.
    pub fn max_automatic_token_associations(&mut self, max: u32) -> (r: &mut Self)
        ensures
            r.data == (ContractUpdateTransactionData { max_automatic_token_associations: Some(max), ..old(self).data }),
            *final(r) == *final(self),
    {
        self.data.max_automatic_token_associations = Some(max);
        self
    }

    /// Sets the account to be used at the contract's expiration time to extend the
    /// life of the contract.
    pub fn auto_renew_account_id(&mut self, account_id: AccountId) -> (r: &mut Self)
        ensures
            r.data == (ContractUpdateTransactionData { auto_renew_account_id: Some(account_id), ..old(self).data }),
            *final(r) == *final(self),
    {
        self.data.auto_renew_account_id = Some(account_id);
        self
    }

    /// Sets the ID of the account to which this contract is staking.
    /// On the wire, a staked node set as well takes precedence.
    pub fn staked_account_id(&mut self, id: AccountId) -> (r: &mut Self)
        ensures
            r.data == (ContractUpdateTransactionData { staked_account_id: Some(id), ..old(self).data }),
            *final(r) == *final(self),
    {
        self.data.staked_account_id = Some(id);
        self
    }

    /// Sets the ID of the node to which this contract is staking.
    /// On the wire, it takes precedence over a staked account.
    pub fn staked_node_id(&mut self, id: u64) -> (r: &mut Self)
        ensures
            r.data == (ContractUpdateTransactionData { staked_node_id: Some(id), ..old(self).data }),
            *final(r) == *final(self),
    {
        self.data.staked_node_id = Some(id);
        self
    }

    /// Set to true, the contract declines receiving a staking reward.
    pub fn decline_staking_reward(&mut self, decline: bool) -> (r: &mut Self)
        ensures
            r.data == (ContractUpdateTransactionData { decline_staking_reward: Some(decline), ..old(self).data }),
            *final(r) == *final(self),
    {
        self.data.decline_staking_reward = Some(decline);
        self
    }
}

/// Decoding the wire form of a well-formed update gives it back, where at
/// most one of the staked account and the staked node is set.
pub proof fn lemma_contract_update_round_trip(
    d: ContractUpdateTransactionData,
    w: wire::ContractUpdateTransactionBody,
)
    requires
        d.wf(),
        !(d.staked_account_id is Some && d.staked_node_id is Some),
        d.encoded_as(w),
    ensures
        ContractUpdateTransactionData::spec_from_wire(w) == Ok::<
            ContractUpdateTransactionData,
            DecodeError,
        >(d),
{
    lemma_opt_time_round_trip(d.expires_at, d.auto_renew_period);
    lemma_opt_key_round_trip(d.admin_key, w.admin_key);
    lemma_opt_id_round_trip(d.contract_id);
    lemma_opt_id_round_trip(d.auto_renew_account_id);
    lemma_opt_id_round_trip(d.staked_account_id);
    if let Some(n) = d.staked_node_id {
        crate::ids::lemma_narrow_widen(n);
    }
    if let Some(max) = d.max_automatic_token_associations {
        assert((max as i32) as u32 == max) by (bit_vector);
    }
}

/// Where both a staked account and a staked node are set, the wire form holds
/// the node alone; decoding it gives the update with the account cleared.
pub proof fn lemma_staked_node_precedence(
    d: ContractUpdateTransactionData,
    w: wire::ContractUpdateTransactionBody,
)
    requires
        d.wf(),
        d.staked_account_id is Some,
        d.staked_node_id is Some,
        d.encoded_as(w),
    ensures
        w.staked_id == Some(wire::StakedId::StakedNodeId(d.staked_node_id.unwrap() as i64)),
        ContractUpdateTransactionData::spec_from_wire(w) == Ok::<
            ContractUpdateTransactionData,
            DecodeError,
        >(ContractUpdateTransactionData { staked_account_id: None, ..d }),
{
    lemma_contract_update_round_trip(ContractUpdateTransactionData { staked_account_id: None, ..d }, w);
}

} // verus!
