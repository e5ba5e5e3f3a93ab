//! Creating a new token.
use vstd::prelude::*;

use crate::checksum::{collect_set_ids, set_ids, validate_each};
use crate::custom_fee::{
    fees_address_slots, fees_from_wire, fees_to_wire, lemma_fees_round_trip,
    push_fee_address_slots, spec_fees_from_wire, spec_fees_to_wire,
    AnyCustomFee,
};
use crate::error::DecodeError;
use crate::hbar::Hbar;
use crate::ids::{
    lemma_narrow_widen, lemma_opt_id_round_trip, narrow, opt_id_from_wire, opt_id_to_wire,
    spec_opt_id_from_wire, spec_opt_id_to_wire, widen, AccountId, EntityId,
};
use crate::key::{
    lemma_opt_key_round_trip, opt_key_encoded_as, opt_key_from_wire, opt_key_to_wire,
    spec_opt_key_from_wire, Key,
};
use crate::time::{
    lemma_opt_time_round_trip, opt_duration_from_wire, opt_duration_to_wire,
    opt_timestamp_from_wire, opt_timestamp_to_wire, opt_timestamp_wf,
    spec_opt_duration_from_wire, spec_opt_duration_to_wire, spec_opt_timestamp_from_wire,
    spec_opt_timestamp_to_wire, Duration, Timestamp,
};
use crate::token_type::{TokenSupplyType, TokenType};
use crate::transaction::Transaction;
use crate::wire;

verus! {

/// The default auto-renew period: 90 days, in seconds.
pub const DEFAULT_AUTO_RENEW_PERIOD_SECONDS: i64 = 7_776_000;

/// The fields of a token creation.
///
/// A non-fungible unique token should have an initial supply of 0, and a token
/// of infinite supply a maximum supply of 0; the ledger, not this builder,
/// rejects the others.
#[derive(Clone, Debug, PartialEq, Eq)]
pub struct TokenCreateTransactionData {
    /// The publicly visible name of the token.
    pub name: String,
    /// The publicly visible token symbol.
    pub symbol: String,
    /// The number of decimal places a fungible token is divisible by.
    pub decimals: u32,
    /// The initial supply of fungible tokens to mint to the treasury account.
    pub initial_supply: u64,
    /// The account which will act as a treasury for the token.
    pub treasury_account_id: Option<AccountId>,
    /// The key which can perform update/delete operations on the token.
    pub admin_key: Option<Key>,
    /// The key which can grant or revoke KYC of an account for the token's transactions.
    pub kyc_key: Option<Key>,
    /// The key which can sign to freeze or unfreeze an account for token transactions.
    pub freeze_key: Option<Key>,
    /// The key which can wipe the token balance of an account.
    pub wipe_key: Option<Key>,
    /// The key which can change the supply of a token.
    pub supply_key: Option<Key>,
    /// The default freeze status of accounts relative to this token: if true, an
    /// account must be unfrozen before it can receive the token.
    pub freeze_default: bool,
    /// The time at which the token should expire.
    pub expiration_time: Option<Timestamp>,
    /// An account which will be automatically charged to renew the token's expiration.
    pub auto_renew_account_id: Option<AccountId>,
    /// The interval at which the auto-renew account will be charged to extend the token's expiry.
    pub auto_renew_period: Option<Duration>,
    /// The memo associated with the token.
    pub token_memo: String,
    /// The token type.
    pub token_type: TokenType,
    /// The token supply type.
    pub token_supply_type: TokenSupplyType,
    /// The maximum number of tokens that can be in circulation.
    pub max_supply: u64,
    /// The key which can change the token's custom fee schedule.
    pub fee_schedule_key: Option<Key>,
    /// The custom fees to be assessed during a transfer.
    pub custom_fees: Vec<AnyCustomFee>,
    /// The key which can pause and unpause the token.
    pub pause_key: Option<Key>,
}

/// The fields of a token creation as values: the custom fees as a sequence.
pub struct TokenCreateFields {
    pub name: Seq<char>,
    pub symbol: Seq<char>,
    pub decimals: u32,
    pub initial_supply: u64,
    pub treasury_account_id: Option<AccountId>,
    pub admin_key: Option<Key>,
    pub kyc_key: Option<Key>,
    pub freeze_key: Option<Key>,
    pub wipe_key: Option<Key>,
    pub supply_key: Option<Key>,
    pub freeze_default: bool,
    pub expiration_time: Option<Timestamp>,
    pub auto_renew_account_id: Option<AccountId>,
    pub auto_renew_period: Option<Duration>,
    pub token_memo: Seq<char>,
    pub token_type: TokenType,
    pub token_supply_type: TokenSupplyType,
    pub max_supply: u64,
    pub fee_schedule_key: Option<Key>,
    pub custom_fees: Seq<AnyCustomFee>,
    pub pause_key: Option<Key>,
}

impl View for TokenCreateTransactionData {
    type V = TokenCreateFields;

    open spec fn view(&self) -> TokenCreateFields {
        TokenCreateFields {
            name: self.name@,
            symbol: self.symbol@,
            decimals: self.decimals,
            initial_supply: self.initial_supply,
            treasury_account_id: self.treasury_account_id,
            admin_key: self.admin_key,
            kyc_key: self.kyc_key,
            freeze_key: self.freeze_key,
            wipe_key: self.wipe_key,
            supply_key: self.supply_key,
            freeze_default: self.freeze_default,
            expiration_time: self.expiration_time,
            auto_renew_account_id: self.auto_renew_account_id,
            auto_renew_period: self.auto_renew_period,
            token_memo: self.token_memo@,
            token_type: self.token_type,
            token_supply_type: self.token_supply_type,
            max_supply: self.max_supply,
            fee_schedule_key: self.fee_schedule_key,
            custom_fees: self.custom_fees@,
            pause_key: self.pause_key,
        }
    }
}

/// Create a new token.
///
/// The treasury account receives the initial supply, and the tokens of every
/// later mint.
pub type TokenCreateTransaction = Transaction<TokenCreateTransactionData>;

impl TokenCreateFields {
    /// A new token creation: empty strings and zero amounts, no keys, an
    /// auto-renew period of 90 days, fungible and of infinite supply.
    pub open spec fn spec_default() -> TokenCreateFields {
        TokenCreateFields {
            name: Seq::empty(),
            symbol: Seq::empty(),
            decimals: 0,
            initial_supply: 0,
            treasury_account_id: None,
            admin_key: None,
            kyc_key: None,
            freeze_key: None,
            wipe_key: None,
            supply_key: None,
            freeze_default: false,
            expiration_time: None,
            auto_renew_account_id: None,
            auto_renew_period: Some(Duration { seconds: DEFAULT_AUTO_RENEW_PERIOD_SECONDS }),
            token_memo: Seq::empty(),
            token_type: TokenType::FungibleCommon,
            token_supply_type: TokenSupplyType::Infinite,
            max_supply: 0,
            fee_schedule_key: None,
            custom_fees: Seq::empty(),
            pause_key: None,
        }
    }

    /// The expiry, if set, is a well-formed point in time.
    pub open spec fn wf(self) -> bool {
        opt_timestamp_wf(self.expiration_time)
    }

    /// These fields after the expiry is set to `t`: the auto-renew period is
    /// cleared, since only one of the two may be sent.
    pub open spec fn with_expiration_time(self, t: Timestamp) -> TokenCreateFields {
        TokenCreateFields { expiration_time: Some(t), auto_renew_period: None, ..self }
    }

    /// These fields after the auto-renew period is set to `p`.
    pub open spec fn with_auto_renew_period(self, p: Duration) -> TokenCreateFields {
        TokenCreateFields { auto_renew_period: Some(p), ..self }
    }

    /// The identifiers whose checksums are checked, in order: the treasury
    /// account, the auto-renew account, then for each custom fee its collector
    /// account and its denominating token; each where set.
    pub open spec fn spec_checksum_targets(self) -> Seq<EntityId> {
        set_ids(
            seq![self.treasury_account_id, self.auto_renew_account_id] + fees_address_slots(
                self.custom_fees,
            ),
        )
    }

    /// `w` is the wire form of these fields.
    pub open spec fn encoded_as(self, w: wire::TokenCreateTransactionBody) -> bool {
        &&& w.name@ == self.name
        &&& w.symbol@ == self.symbol
        &&& w.decimals == self.decimals
        &&& w.initial_supply == self.initial_supply
        &&& w.treasury == spec_opt_id_to_wire(self.treasury_account_id)
        &&& opt_key_encoded_as(self.admin_key, w.admin_key)
        &&& opt_key_encoded_as(self.kyc_key, w.kyc_key)
        &&& opt_key_encoded_as(self.freeze_key, w.freeze_key)
        &&& opt_key_encoded_as(self.wipe_key, w.wipe_key)
        &&& opt_key_encoded_as(self.supply_key, w.supply_key)
        &&& w.freeze_default == self.freeze_default
        &&& w.expiry == spec_opt_timestamp_to_wire(self.expiration_time)
        &&& w.auto_renew_account == spec_opt_id_to_wire(self.auto_renew_account_id)
        &&& w.auto_renew_period == spec_opt_duration_to_wire(self.auto_renew_period)
        &&& w.memo@ == self.token_memo
        &&& w.token_type == self.token_type.spec_to_wire()
        &&& w.supply_type == self.token_supply_type.spec_to_wire()
        &&& w.max_supply == narrow(self.max_supply)
        &&& opt_key_encoded_as(self.fee_schedule_key, w.fee_schedule_key)
        &&& w.custom_fees@ == spec_fees_to_wire(self.custom_fees)
        &&& opt_key_encoded_as(self.pause_key, w.pause_key)
    }

    /// The fields that the wire message `w` stands for, or the error of the
    /// first field that cannot be decoded. Token and supply type numbers that
    /// are not known decode to the defaults.
    pub open spec fn spec_from_wire(w: wire::TokenCreateTransactionBody) -> Result<
        TokenCreateFields,
        DecodeError,
    > {
        let admin_key = spec_opt_key_from_wire(w.admin_key);
        let kyc_key = spec_opt_key_from_wire(w.kyc_key);
        let freeze_key = spec_opt_key_from_wire(w.freeze_key);
        let wipe_key = spec_opt_key_from_wire(w.wipe_key);
        let supply_key = spec_opt_key_from_wire(w.supply_key);
        let expiration_time = spec_opt_timestamp_from_wire(w.expiry);
        let fee_schedule_key = spec_opt_key_from_wire(w.fee_schedule_key);
        let custom_fees = spec_fees_from_wire(w.custom_fees@);
        let pause_key = spec_opt_key_from_wire(w.pause_key);
        if admin_key is Err {
            Err(admin_key->Err_0)
        } else if kyc_key is Err {
            Err(kyc_key->Err_0)
        } else if freeze_key is Err {
            Err(freeze_key->Err_0)
        } else if wipe_key is Err {
            Err(wipe_key->Err_0)
        } else if supply_key is Err {
            Err(supply_key->Err_0)
        } else if expiration_time is Err {
            Err(expiration_time->Err_0)
        } else if fee_schedule_key is Err {
            Err(fee_schedule_key->Err_0)
        } else if custom_fees is Err {
            Err(custom_fees->Err_0)
        } else if pause_key is Err {
            Err(pause_key->Err_0)
        } else {
            Ok(
                TokenCreateFields {
                    name: w.name@,
                    symbol: w.symbol@,
                    decimals: w.decimals,
                    initial_supply: w.initial_supply,
                    treasury_account_id: spec_opt_id_from_wire(w.treasury),
                    admin_key: admin_key->Ok_0,
                    kyc_key: kyc_key->Ok_0,
                    freeze_key: freeze_key->Ok_0,
                    wipe_key: wipe_key->Ok_0,
                    supply_key: supply_key->Ok_0,
                    freeze_default: w.freeze_default,
                    expiration_time: expiration_time->Ok_0,
                    auto_renew_account_id: spec_opt_id_from_wire(w.auto_renew_account),
                    auto_renew_period: spec_opt_duration_from_wire(w.auto_renew_period),
                    token_memo: w.memo@,
                    token_type: TokenType::spec_from_wire(w.token_type),
                    token_supply_type: TokenSupplyType::spec_from_wire(w.supply_type),
                    max_supply: widen(w.max_supply),
                    fee_schedule_key: fee_schedule_key->Ok_0,
                    custom_fees: custom_fees->Ok_0,
                    pause_key: pause_key->Ok_0,
                },
            )
        }
    }
}

impl TokenCreateTransactionData {
    /// The fee that a token creation offers to pay where no other is given:
    /// 40 hbar.
    pub fn default_max_transaction_fee(&self) -> (r: Hbar)
        ensures
            r.tinybars == 40 * 100_000_000,
    {
        Hbar::from_hbars(40)
    }

    /// Encodes this token creation as its wire message.
    pub fn to_wire(&self) -> (r: wire::TokenCreateTransactionBody)
        requires
            self@.wf(),
        ensures
            self@.encoded_as(r),
    {
        wire::TokenCreateTransactionBody {
            name: self.name.clone(),
            symbol: self.symbol.clone(),
            decimals: self.decimals,
            initial_supply: self.initial_supply,
            treasury: opt_id_to_wire(self.treasury_account_id),
            admin_key: opt_key_to_wire(&self.admin_key),
            kyc_key: opt_key_to_wire(&self.kyc_key),
            freeze_key: opt_key_to_wire(&self.freeze_key),
            wipe_key: opt_key_to_wire(&self.wipe_key),
            supply_key: opt_key_to_wire(&self.supply_key),
            freeze_default: self.freeze_default,
            expiry: opt_timestamp_to_wire(self.expiration_time),
            auto_renew_account: opt_id_to_wire(self.auto_renew_account_id),
            auto_renew_period: opt_duration_to_wire(self.auto_renew_period),
            memo: self.token_memo.clone(),
            token_type: self.token_type.to_wire(),
            supply_type: self.token_supply_type.to_wire(),
            max_supply: self.max_supply as i64,
            fee_schedule_key: opt_key_to_wire(&self.fee_schedule_key),
            custom_fees: fees_to_wire(&self.custom_fees),
            pause_key: opt_key_to_wire(&self.pause_key),
        }
    }

    /// Decodes a token creation from its wire message.
    pub fn from_wire(w: &wire::TokenCreateTransactionBody) -> (r: Result<TokenCreateTransactionData, DecodeError>)
        ensures
            r is Ok <==> TokenCreateFields::spec_from_wire(*w) is Ok,
            r matches Ok(d) ==> TokenCreateFields::spec_from_wire(*w) == Ok::<TokenCreateFields, DecodeError>(d@),
            r matches Err(e) ==> TokenCreateFields::spec_from_wire(*w) == Err::<TokenCreateFields, DecodeError>(e),
            r matches Ok(d) ==> d@.wf(),
    {
        let admin_key = match opt_key_from_wire(&w.admin_key) {
            Ok(v) => v,
            Err(e) => return Err(e),
        };
        let kyc_key = match opt_key_from_wire(&w.kyc_key) {
            Ok(v) => v,
            Err(e) => return Err(e),
        };
        let freeze_key = match opt_key_from_wire(&w.freeze_key) {
            Ok(v) => v,
            Err(e) => return Err(e),
        };
        let wipe_key = match opt_key_from_wire(&w.wipe_key) {
            Ok(v) => v,
            Err(e) => return Err(e),
        };
        let supply_key = match opt_key_from_wire(&w.supply_key) {
            Ok(v) => v,
            Err(e) => return Err(e),
        };
        let expiration_time = match opt_timestamp_from_wire(w.expiry) {
            Ok(v) => v,
            Err(e) => return Err(e),
        };
        let fee_schedule_key = match opt_key_from_wire(&w.fee_schedule_key) {
            Ok(v) => v,
            Err(e) => return Err(e),
        };
        let custom_fees = match fees_from_wire(&w.custom_fees) {
            Ok(v) => v,
            Err(e) => return Err(e),
        };
        let pause_key = match opt_key_from_wire(&w.pause_key) {
            Ok(v) => v,
            Err(e) => return Err(e),
        };
        Ok(TokenCreateTransactionData {
            name: w.name.clone(),
            symbol: w.symbol.clone(),
            decimals: w.decimals,
            initial_supply: w.initial_supply,
            treasury_account_id: opt_id_from_wire(w.treasury),
            admin_key,
            kyc_key,
            freeze_key,
            wipe_key,
            supply_key,
            freeze_default: w.freeze_default,
            expiration_time,
            auto_renew_account_id: opt_id_from_wire(w.auto_renew_account),
            auto_renew_period: opt_duration_from_wire(w.auto_renew_period),
            token_memo: w.memo.clone(),
            token_type: TokenType::from_wire(w.token_type),
            token_supply_type: TokenSupplyType::from_wire(w.supply_type),
            max_supply: w.max_supply as u64,
            fee_schedule_key,
            custom_fees,
            pause_key,
        })
    }

    /// The identifiers whose checksums are checked: the treasury account, the
    /// auto-renew account, then for each custom fee its collector account and
    /// its denominating token; each where set.
    pub fn checksum_targets(&self) -> (r: Vec<EntityId>)
        ensures
            r@ == self@.spec_checksum_targets(),
    {
        let mut ids: Vec<Option<EntityId>> = vec![self.treasury_account_id, self.auto_renew_account_id];
        assert(ids@ == seq![self.treasury_account_id, self.auto_renew_account_id]);
        push_fee_address_slots(&mut ids, &self.custom_fees);
        collect_set_ids(&ids)
    }

    /// Checks the checksum of each address that is set with `validate`, and
    /// returns the first failure.
    pub fn validate_checksums<E, F: Fn(EntityId) -> Result<(), E>>(&self, validate: &F) -> (r: Result<(), E>)
        requires
            forall|id: EntityId| validate.requires((id,)),
        ensures
            r is Ok ==> forall|i: int|
                0 <= i < self@.spec_checksum_targets().len() ==> validate.ensures(
                    (self@.spec_checksum_targets()[i],),
                    Ok(()),
                ),
            r matches Err(e) ==> exists|i: int|
                0 <= i < self@.spec_checksum_targets().len() && validate.ensures(
                    (self@.spec_checksum_targets()[i],),
                    Err(e),
                ) && forall|j: int|
                    0 <= j < i ==> validate.ensures((self@.spec_checksum_targets()[j],), Ok(())),
    {
        let ids = self.checksum_targets();
        validate_each(&ids, validate)
    }
}

impl Default for TokenCreateTransactionData {
    fn default() -> (r: TokenCreateTransactionData)
        ensures
            r@ == TokenCreateFields::spec_default(),
    {
        TokenCreateTransactionData {
            name: String::new(),
            symbol: String::new(),
            decimals: 0,
            initial_supply: 0,
            treasury_account_id: None,
            admin_key: None,
            kyc_key: None,
            freeze_key: None,
            wipe_key: None,
            supply_key: None,
            freeze_default: false,
            expiration_time: None,
            auto_renew_account_id: None,
            auto_renew_period: Some(Duration::seconds(DEFAULT_AUTO_RENEW_PERIOD_SECONDS)),
            token_memo: String::new(),
            token_type: TokenType::FungibleCommon,
            token_supply_type: TokenSupplyType::Infinite,
            max_supply: 0,
            fee_schedule_key: None,
            custom_fees: Vec::new(),
            pause_key: None,
        }
    }
}

impl TokenCreateTransaction {
    /// A token creation with every field at its default.
    pub fn new() -> (r: TokenCreateTransaction)
        ensures
            r.data@ == TokenCreateFields::spec_default(),
    {
        Transaction { data: TokenCreateTransactionData::default() }
    }

    /// Returns the publicly visible name of the token.
    pub fn get_name(&self) -> (r: &str)
        ensures
            r@ == self.data.name@,
    {
        self.data.name.as_str()
    }

    /// Sets the publicly visible name of the token.
    pub fn name(&mut self, name: String) -> (r: &mut Self)
        ensures
            r.data@ == (TokenCreateFields { name: name@, ..old(self).data@ }),
            *final(r) == *final(self),
    {
        self.data.name = name;
        self
    }

    /// Returns the publicly visible token symbol.
    pub fn get_symbol(&self) -> (r: &str)
        ensures
            r@ == self.data.symbol@,
    {
        self.data.symbol.as_str()
    }

    /// Sets the publicly visible token symbol.
    pub fn symbol(&mut self, symbol: String) -> (r: &mut Self)
        ensures
            r.data@ == (TokenCreateFields { symbol: symbol@, ..old(self).data@ }),
            *final(r) == *final(self),
    {
        self.data.symbol = symbol;
        self
    }

    /// Returns the number of decimal places a fungible token is divisible by.
    pub fn get_decimals(&self) -> (r: u32)
        ensures
            r == self.data.decimals,
    {
        self.data.decimals
    }

    /// Sets the number of decimal places a fungible token is divisible by.
    pub fn decimals(&mut self, decimals: u32) -> (r: &mut Self)
        ensures
            r.data@ == (TokenCreateFields { decimals: decimals, ..old(self).data@ }),
            *final(r) == *final(self),
    {
        self.data.decimals = decimals;
        self
    }

    /// Returns the initial supply of fungible tokens to mint to the treasury account.
    pub fn get_initial_supply(&self) -> (r: u64)
        ensures
            r == self.data.initial_supply,
    {
        self.data.initial_supply
    }

    /// Sets the initial supply of fungible tokens to mint to the treasury account.
    pub fn initial_supply(&mut self, initial_supply: u64) -> (r: &mut Self)
        ensures
            r.data@ == (TokenCreateFields { initial_supply: initial_supply, ..old(self).data@ }),
            *final(r) == *final(self),
    {
        self.data.initial_supply = initial_supply;
        self
    }

    /// Returns the account which will act as a treasury for the token.
    pub fn get_treasury_account_id(&self) -> (r: Option<AccountId>)
        ensures
            r == self.data.treasury_account_id,
    {
        self.data.treasury_account_id
    }

    /// Sets the account which will act as a treasury for the token.
    pub fn treasury_account_id(&mut self, treasury_account_id: AccountId) -> (r: &mut Self)
        ensures
            r.data@ == (TokenCreateFields { treasury_account_id: Some(treasury_account_id), ..old(self).data@ }),
            *final(r) == *final(self),
    {
        self.data.treasury_account_id = Some(treasury_account_id);
        self
    }

    /// Returns the key which can perform update/delete operations on the token.
    pub fn get_admin_key(&self) -> (r: Option<&Key>)
        ensures
            r is Some <==> self.data.admin_key is Some,
            r matches Some(k) ==> self.data.admin_key == Some(*k),
    {
        self.data.admin_key.as_ref()
    }

    /// Sets the key which can perform update/delete operations on the token.
    pub fn admin_key(&mut self, admin_key: Key) -> (r: &mut Self)
        ensures
            r.data@ == (TokenCreateFields { admin_key: Some(admin_key), ..old(self).data@ }),
            *final(r) == *final(self),
    {
        self.data.admin_key = Some(admin_key);
        self
    }

    /// Returns the key which can grant or revoke KYC of an account for the token's transactions.
    pub fn get_kyc_key(&self) -> (r: Option<&Key>)
        ensures
            r is Some <==> self.data.kyc_key is Some,
            r matches Some(k) ==> self.data.kyc_key == Some(*k),
    {
        self.data.kyc_key.as_ref()
    }

    /// Sets the key which can grant or revoke KYC of an account for the token's transactions.
    pub fn kyc_key(&mut self, kyc_key: Key) -> (r: &mut Self)
        ensures
            r.data@ == (TokenCreateFields { kyc_key: Some(kyc_key), ..old(self).data@ }),
            *final(r) == *final(self),
    {
        self.data.kyc_key = Some(kyc_key);
        self
    }

    /// Returns the key which can sign to freeze or unfreeze an account for token transactions.
    pub fn get_freeze_key(&self) -> (r: Option<&Key>)
        ensures
            r is Some <==> self.data.freeze_key is Some,
            r matches Some(k) ==> self.data.freeze_key == Some(*k),
    {
        self.data.freeze_key.as_ref()
    }

    /// Sets the key which can sign to freeze or unfreeze an account for token transactions.
    pub fn freeze_key(&mut self, freeze_key: Key) -> (r: &mut Self)
        ensures
            r.data@ == (TokenCreateFields { freeze_key: Some(freeze_key), ..old(self).data@ }),
            *final(r) == *final(self),
    {
        self.data.freeze_key = Some(freeze_key);
        self
    }

    /// Returns the key which can wipe the token balance of an account.
    pub fn get_wipe_key(&self) -> (r: Option<&Key>)
        ensures
            r is Some <==> self.data.wipe_key is Some,
            r matches Some(k) ==> self.data.wipe_key == Some(*k),
    {
        self.data.wipe_key.as_ref()
    }

    /// Sets the key which can wipe the token balance of an account.
    pub fn wipe_key(&mut self, wipe_key: Key) -> (r: &mut Self)
        ensures
            r.data@ == (TokenCreateFields { wipe_key: Some(wipe_key), ..old(self).data@ }),
            *final(r) == *final(self),
    {
        self.data.wipe_key = Some(wipe_key);
        self
    }

    /// Returns the key which can change the supply of a token.
    pub fn get_supply_key(&self) -> (r: Option<&Key>)
        ensures
            r is Some <==> self.data.supply_key is Some,
            r matches Some(k) ==> self.data.supply_key == Some(*k),
    {
        self.data.supply_key.as_ref()
    }

    /// Sets the key which can change the supply of a token.
    pub fn supply_key(&mut self, supply_key: Key) -> (r: &mut Self)
        ensures
            r.data@ == (TokenCreateFields { supply_key: Some(supply_key), ..old(self).data@ }),
            *final(r) == *final(self),
    {
        self.data.supply_key = Some(supply_key);
        self
    }

    /// Returns the default freeze status of accounts relative to this token: if true, an
    /// account must be unfrozen before it can receive the token.
    pub fn get_freeze_default(&self) -> (r: bool)
        ensures
            r == self.data.freeze_default,
    {
        self.data.freeze_default
    }

    /// Sets the default freeze status of accounts relative to this token: if true, an
    /// account must be unfrozen before it can receive the token.
    pub fn freeze_default(&mut self, freeze_default: bool) -> (r: &mut Self)
        ensures
            r.data@ == (TokenCreateFields { freeze_default: freeze_default, ..old(self).data@ }),
            *final(r) == *final(self),
    {
        self.data.freeze_default = freeze_default;
        self
    }

    /// Returns the time at which the token should expire.
    pub fn get_expiration_time(&self) -> (r: Option<Timestamp>)
        ensures
            r == self.data.expiration_time,
    {
        self.data.expiration_time
    }

    /// Sets the time at which the token should expire.
    /// Clears the auto-renew period: only one of the two is sent.
    pub fn expiration_time(&mut self, expiration_time: Timestamp) -> (r: &mut Self)
        requires
            expiration_time.wf(),
        ensures
            r.data@ == old(self).data@.with_expiration_time(expiration_time),
            *final(r) == *final(self),
    {
        self.data.expiration_time = Some(expiration_time);
        self.data.auto_renew_period = None;
        self
    }

    /// Returns an account which will be automatically charged to renew the token's expiration.
    pub fn get_auto_renew_account_id(&self) -> (r: Option<AccountId>)
        ensures
            r == self.data.auto_renew_account_id,
    {
        self.data.auto_renew_account_id
    }

    /// Sets an account which will be automatically charged to renew the token's expiration.
    pub fn auto_renew_account_id(&mut self, auto_renew_account_id: AccountId) -> (r: &mut Self)
        ensures
            r.data@ == (TokenCreateFields { auto_renew_account_id: Some(auto_renew_account_id), ..old(self).data@ }),
            *final(r) == *final(self),
    {
        self.data.auto_renew_account_id = Some(auto_renew_account_id);
        self
    }

    /// Returns the interval at which the auto-renew account will be charged to extend the token's expiry.
    pub fn get_auto_renew_period(&self) -> (r: Option<Duration>)
        ensures
            r == self.data.auto_renew_period,
    {
        self.data.auto_renew_period
    }

    /// Sets the interval at which the auto-renew account will be charged to extend the token's expiry.
    pub fn auto_renew_period(&mut self, auto_renew_period: Duration) -> (r: &mut Self)
        ensures
            r.data@ == old(self).data@.with_auto_renew_period(auto_renew_period),
            *final(r) == *final(self),
    {
        self.data.auto_renew_period = Some(auto_renew_period);
        self
    }

    /// Returns the memo associated with the token.
    pub fn get_token_memo(&self) -> (r: &str)
        ensures
            r@ == self.data.token_memo@,
    {
        self.data.token_memo.as_str()
    }

    /// Sets the memo associated with the token.
    pub fn token_memo(&mut self, token_memo: String) -> (r: &mut Self)
        ensures
            r.data@ == (TokenCreateFields { token_memo: token_memo@, ..old(self).data@ }),
            *final(r) == *final(self),
    {
        self.data.token_memo = token_memo;
        self
    }

    /// Returns the token type.
    pub fn get_token_type(&self) -> (r: TokenType)
        ensures
            r == self.data.token_type,
    {
        self.data.token_type
    }

    /// Sets the token type.
    pub fn token_type(&mut self, token_type: TokenType) -> (r: &mut Self)
        ensures
            r.data@ == (TokenCreateFields { token_type: token_type, ..old(self).data@ }),
            *final(r) == *final(self),
    {
        self.data.token_type = token_type;
        self
    }

    /// Returns the token supply type.
    pub fn get_token_supply_type(&self) -> (r: TokenSupplyType)
        ensures
            r == self.data.token_supply_type,
    {
        self.data.token_supply_type
    }

    /// Sets the token supply type.
    pub fn token_supply_type(&mut self, token_supply_type: TokenSupplyType) -> (r: &mut Self)
        ensures
            r.data@ == (TokenCreateFields { token_supply_type: token_supply_type, ..old(self).data@ }),
            *final(r) == *final(self),
    {
        self.data.token_supply_type = token_supply_type;
        self
    }

    /// Returns the maximum number of tokens that can be in circulation.
    pub fn get_max_supply(&self) -> (r: u64)
        ensures
            r == self.data.max_supply,
    {
        self.data.max_supply
    }

    /// Sets the maximum number of tokens that can be in circulation.
    pub fn max_supply(&mut self, max_supply: u64) -> (r: &mut Self)
        ensures
            r.data@ == (TokenCreateFields { max_supply: max_supply, ..old(self).data@ }),
            *final(r) == *final(self),
    {
        self.data.max_supply = max_supply;
        self
    }

    /// Returns the key which can change the token's custom fee schedule.
    pub fn get_fee_schedule_key(&self) -> (r: Option<&Key>)
        ensures
            r is Some <==> self.data.fee_schedule_key is Some,
            r matches Some(k) ==> self.data.fee_schedule_key == Some(*k),
    {
        self.data.fee_schedule_key.as_ref()
    }

    /// Sets the key which can change the token's custom fee schedule.
    pub fn fee_schedule_key(&mut self, fee_schedule_key: Key) -> (r: &mut Self)
        ensures
            r.data@ == (TokenCreateFields { fee_schedule_key: Some(fee_schedule_key), ..old(self).data@ }),
            *final(r) == *final(self),
    {
        self.data.fee_schedule_key = Some(fee_schedule_key);
        self
    }

    /// Returns the custom fees to be assessed during a transfer.
    pub fn get_custom_fees(&self) -> (r: &[AnyCustomFee])
        ensures
            r@ == self.data.custom_fees@,
    {
        self.data.custom_fees.as_slice()
    }

    /// Sets the custom fees to be assessed during a transfer.
    pub fn custom_fees(&mut self, custom_fees: Vec<AnyCustomFee>) -> (r: &mut Self)
        ensures
            r.data@ == (TokenCreateFields { custom_fees: custom_fees@, ..old(self).data@ }),
            *final(r) == *final(self),
    {
        self.data.custom_fees = custom_fees;
        self
    }

    /// Returns the key which can pause and unpause the token.
    pub fn get_pause_key(&self) -> (r: Option<&Key>)
        ensures
            r is Some <==> self.data.pause_key is Some,
            r matches Some(k) ==> self.data.pause_key == Some(*k),
    {
        self.data.pause_key.as_ref()
    }

    /// Sets the key which can pause and unpause the token.
    pub fn pause_key(&mut self, pause_key: Key) -> (r: &mut Self)
        ensures
            r.data@ == (TokenCreateFields { pause_key: Some(pause_key), ..old(self).data@ }),
            *final(r) == *final(self),
    {
        self.data.pause_key = Some(pause_key);
        self
    }
}

/// Decoding the wire form of well-formed token creation fields gives them back.
pub proof fn lemma_token_create_round_trip(d: TokenCreateFields, w: wire::TokenCreateTransactionBody)
    requires
        d.wf(),
        d.encoded_as(w),
    ensures
        TokenCreateFields::spec_from_wire(w) == Ok::<TokenCreateFields, DecodeError>(d),
{
    lemma_opt_id_round_trip(d.treasury_account_id);
    lemma_opt_key_round_trip(d.admin_key, w.admin_key);
    lemma_opt_key_round_trip(d.kyc_key, w.kyc_key);
    lemma_opt_key_round_trip(d.freeze_key, w.freeze_key);
    lemma_opt_key_round_trip(d.wipe_key, w.wipe_key);
    lemma_opt_key_round_trip(d.supply_key, w.supply_key);
    lemma_opt_id_round_trip(d.auto_renew_account_id);
    lemma_opt_key_round_trip(d.fee_schedule_key, w.fee_schedule_key);
    lemma_opt_key_round_trip(d.pause_key, w.pause_key);
    lemma_opt_time_round_trip(d.expiration_time, d.auto_renew_period);
    lemma_fees_round_trip(d.custom_fees);
    lemma_narrow_widen(d.max_supply);
}

/// Setting the expiry after the auto-renew period leaves the expiry set and
/// the period cleared.
pub proof fn lemma_expiry_clears_auto_renew_period(d: TokenCreateFields, p: Duration, t: Timestamp)
    ensures
        d.with_auto_renew_period(p).with_expiration_time(t).expiration_time == Some(t),
        d.with_auto_renew_period(p).with_expiration_time(t).auto_renew_period is None,
{
}

/// Whatever numbers the wire message holds for the token type and the supply
/// type, they decide neither whether it decodes nor any other field.
pub proof fn lemma_token_enums_never_fail(w: wire::TokenCreateTransactionBody, token_type: i32, supply_type: i32)
    ensures
        ({
            let v = wire::TokenCreateTransactionBody { token_type, supply_type, ..w };
            &&& TokenCreateFields::spec_from_wire(v) is Ok <==> TokenCreateFields::spec_from_wire(w) is Ok
            &&& TokenCreateFields::spec_from_wire(v) matches Ok(f) ==> f.token_type == TokenType::spec_from_wire(token_type)
                && f.token_supply_type == TokenSupplyType::spec_from_wire(supply_type)
        }),
{
}

} // verus!
