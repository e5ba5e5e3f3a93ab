//! The wire messages that the builders encode into and decode from.
//!
//! Every integer has the width and signedness that the wire schema gives it;
//! an optional sub-message is an `Option`, and a oneof group is an `Option`
//! of an enum with one variant per member.
use vstd::prelude::*;

verus! {

/// An entity number triple (`AccountID`, `ContractID`, `FileID`, `TokenID`).
#[derive(Clone, Copy, Debug, PartialEq, Eq, Structural)]
pub struct Id {
    pub shard_num: i64,
    pub realm_num: i64,
    pub num: i64,
}

/// A point in time: seconds and nanoseconds since the Unix epoch.
#[derive(Clone, Copy, Debug, PartialEq, Eq, Structural)]
pub struct Timestamp {
    pub seconds: i64,
    pub nanos: i32,
}

/// A length of time in whole seconds.
#[derive(Clone, Copy, Debug, PartialEq, Eq, Structural)]
pub struct Duration {
    pub seconds: i64,
}

/// The `key` oneof of a `Key` message.
#[derive(Clone, Debug)]
pub enum KeyKind {
    ContractId(Id),
    Ed25519(Vec<u8>),
    EcdsaSecp256k1(Vec<u8>),
    DelegatableContractId(Id),
}

/// A `Key` message; its oneof may be unset.
#[derive(Clone, Debug)]
pub struct Key {
    pub key: Option<KeyKind>,
}

/// The `staked_id` oneof of a contract update.
#[derive(Clone, Copy, Debug, PartialEq, Eq, Structural)]
pub enum StakedId {
    StakedAccountId(Id),
    StakedNodeId(i64),
}

/// The `memo_field` oneof of a contract update: the deprecated plain memo, or
/// the wrapped memo that can also say "unchanged".
#[derive(Clone, Debug)]
pub enum MemoField {
    Memo(String),
    MemoWrapper(String),
}

/// `ContractUpdateTransactionBody`.
#[derive(Clone, Debug)]
pub struct ContractUpdateTransactionBody {
    pub contract_id: Option<Id>,
    pub expiration_time: Option<Timestamp>,
    pub admin_key: Option<Key>,
    /// Deprecated: always left unset.
    pub proxy_account_id: Option<Id>,
    pub auto_renew_period: Option<Duration>,
    /// Deprecated: always left unset.
    pub file_id: Option<Id>,
    pub max_automatic_token_associations: Option<i32>,
    pub auto_renew_account_id: Option<Id>,
    pub decline_reward: Option<bool>,
    pub staked_id: Option<StakedId>,
    pub memo_field: Option<MemoField>,
}

/// The `id` oneof of a system undelete: what is to be restored.
#[derive(Clone, Copy, Debug, PartialEq, Eq, Structural)]
pub enum UndeleteId {
    FileId(Id),
    ContractId(Id),
}

/// `SystemUndeleteTransactionBody`.
#[derive(Clone, Copy, Debug, PartialEq, Eq, Structural)]
pub struct SystemUndeleteTransactionBody {
    pub id: Option<UndeleteId>,
}

/// `NftID`: a token and the serial number of one of its NFTs.
#[derive(Clone, Copy, Debug, PartialEq, Eq, Structural)]
pub struct NftId {
    pub token_id: Option<Id>,
    pub serial_number: i64,
}

/// `TokenGetNftInfoQuery`, without the payment header that the transport adds.
#[derive(Clone, Copy, Debug, PartialEq, Eq, Structural)]
pub struct TokenGetNftInfoQuery {
    pub nft_id: Option<NftId>,
}

/// `FixedFee`.
#[derive(Clone, Copy, Debug, PartialEq, Eq, Structural)]
pub struct FixedFee {
    pub amount: i64,
    pub denominating_token_id: Option<Id>,
}

/// `Fraction`.
#[derive(Clone, Copy, Debug, PartialEq, Eq, Structural)]
pub struct Fraction {
    pub numerator: i64,
    pub denominator: i64,
}

/// `FractionalFee`.
#[derive(Clone, Copy, Debug, PartialEq, Eq, Structural)]
pub struct FractionalFee {
    pub fractional_amount: Option<Fraction>,
    pub minimum_amount: i64,
    pub maximum_amount: i64,
    pub net_of_transfers: bool,
}

/// `RoyaltyFee`.
#[derive(Clone, Copy, Debug, PartialEq, Eq, Structural)]
pub struct RoyaltyFee {
    pub exchange_value_fraction: Option<Fraction>,
    pub fallback_fee: Option<FixedFee>,
}

/// The `fee` oneof of a custom fee.
#[derive(Clone, Copy, Debug, PartialEq, Eq, Structural)]
pub enum Fee {
    FixedFee(FixedFee),
    FractionalFee(FractionalFee),
    RoyaltyFee(RoyaltyFee),
}

/// `CustomFee`.
#[derive(Clone, Copy, Debug, PartialEq, Eq, Structural)]
pub struct CustomFee {
    pub fee: Option<Fee>,
    pub fee_collector_account_id: Option<Id>,
    pub all_collectors_are_exempt: bool,
}

/// `TokenCreateTransactionBody`. `token_type` and `supply_type` hold the wire
/// numbers of the `TokenType` and `TokenSupplyType` enums.
#[derive(Clone, Debug)]
pub struct TokenCreateTransactionBody {
    pub name: String,
    pub symbol: String,
    pub decimals: u32,
    pub initial_supply: u64,
    pub treasury: Option<Id>,
    pub admin_key: Option<Key>,
    pub kyc_key: Option<Key>,
    pub freeze_key: Option<Key>,
    pub wipe_key: Option<Key>,
    pub supply_key: Option<Key>,
    pub freeze_default: bool,
    pub expiry: Option<Timestamp>,
    pub auto_renew_account: Option<Id>,
    pub auto_renew_period: Option<Duration>,
    pub memo: String,
    pub token_type: i32,
    pub supply_type: i32,
    pub max_supply: i64,
    pub fee_schedule_key: Option<Key>,
    pub custom_fees: Vec<CustomFee>,
    pub pause_key: Option<Key>,
}

} // verus!
