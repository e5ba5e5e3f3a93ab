//! Sums over every operation kind, for code that handles any of them.
use vstd::prelude::*;

use crate::contract_update::ContractUpdateTransactionData;
use crate::nft_info_query::TokenNftInfoQueryData;
use crate::system_undelete::SystemUndeleteTransactionData;
use crate::token_create::TokenCreateTransactionData;

verus! {

/// The fields of a transaction of any kind.
#[derive(Clone, Debug, PartialEq, Eq)]
pub enum AnyTransactionData {
    ContractUpdate(ContractUpdateTransactionData),
    SystemUndelete(SystemUndeleteTransactionData),
    TokenCreate(TokenCreateTransactionData),
}

/// The fields of a query of any kind.
#[derive(Clone, Debug, PartialEq, Eq)]
pub enum AnyQueryData {
    TokenNftInfo(TokenNftInfoQueryData),
}

impl From<ContractUpdateTransactionData> for AnyTransactionData {
    fn from(transaction: ContractUpdateTransactionData) -> (r: AnyTransactionData) {
        AnyTransactionData::ContractUpdate(transaction)
    }
}

impl vstd::std_specs::convert::FromSpecImpl<ContractUpdateTransactionData> for AnyTransactionData {
    open spec fn obeys_from_spec() -> bool {
        true
    }

    open spec fn from_spec(transaction: ContractUpdateTransactionData) -> AnyTransactionData {
        AnyTransactionData::ContractUpdate(transaction)
    }
}

impl From<SystemUndeleteTransactionData> for AnyTransactionData {
    fn from(transaction: SystemUndeleteTransactionData) -> (r: AnyTransactionData) {
        AnyTransactionData::SystemUndelete(transaction)
    }
}

impl vstd::std_specs::convert::FromSpecImpl<SystemUndeleteTransactionData> for AnyTransactionData {
    open spec fn obeys_from_spec() -> bool {
        true
    }

    open spec fn from_spec(transaction: SystemUndeleteTransactionData) -> AnyTransactionData {
        AnyTransactionData::SystemUndelete(transaction)
    }
}

impl From<TokenCreateTransactionData> for AnyTransactionData {
    fn from(transaction: TokenCreateTransactionData) -> (r: AnyTransactionData) {
        AnyTransactionData::TokenCreate(transaction)
    }
}

impl vstd::std_specs::convert::FromSpecImpl<TokenCreateTransactionData> for AnyTransactionData {
    open spec fn obeys_from_spec() -> bool {
        true
    }

    open spec fn from_spec(transaction: TokenCreateTransactionData) -> AnyTransactionData {
        AnyTransactionData::TokenCreate(transaction)
    }
}

impl From<TokenNftInfoQueryData> for AnyQueryData {
    fn from(data: TokenNftInfoQueryData) -> (r: AnyQueryData) {
        AnyQueryData::TokenNftInfo(data)
    }
}

impl vstd::std_specs::convert::FromSpecImpl<TokenNftInfoQueryData> for AnyQueryData {
    open spec fn obeys_from_spec() -> bool {
        true
    }

    open spec fn from_spec(data: TokenNftInfoQueryData) -> AnyQueryData {
        AnyQueryData::TokenNftInfo(data)
    }
}

} // verus!
