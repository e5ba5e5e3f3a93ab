//! Client-side builders for ledger transactions and queries, each with a
//! verified mapping to and from its wire message.
pub mod any;
pub mod checksum;
pub mod contract_update;
pub mod custom_fee;
pub mod error;
pub mod hbar;
pub mod ids;
pub mod key;
pub mod nft_info_query;
pub mod system_undelete;
pub mod time;
pub mod token_create;
pub mod token_type;
pub mod transaction;
pub mod wire;

pub use any::{AnyQueryData, AnyTransactionData};
pub use contract_update::{ContractUpdateTransaction, ContractUpdateTransactionData};
pub use custom_fee::{
    AnyCustomFee, AnyCustomFeeKind, FeeAssessmentMethod, FixedFee, FractionalFee, RoyaltyFee,
};
pub use error::DecodeError;
pub use hbar::Hbar;
pub use ids::{AccountId, ContractId, EntityId, FileId, TokenId};
pub use key::{Key, PublicKey};
pub use nft_info_query::{NftId, TokenNftInfoQuery, TokenNftInfoQueryData};
pub use system_undelete::{SystemUndeleteTransaction, SystemUndeleteTransactionData, UndeleteService};
pub use time::{Duration, Timestamp};
pub use token_create::{TokenCreateTransaction, TokenCreateTransactionData};
pub use token_type::{TokenSupplyType, TokenType};
pub use transaction::{Query, Transaction};
