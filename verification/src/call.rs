//! The contract's entry points as data: which one is called, with which
//! arguments, by whom, and under which transaction policy.

use vstd::prelude::*;
use crate::ids::{Address, AssetId, ContractId, Identity};
use crate::policy::{CallParameters, TxPolicies, VariableOutputPolicy};

verus! {

/// What minting a new asset costs and who receives the fee.
#[derive(Clone, Copy, Debug, PartialEq, Eq)]
pub struct FeeInfo {
    pub fee_asset: AssetId,
    pub fee_amount: u64,
    pub fee_address: Address,
}

/// One value of an asset's metadata.
#[derive(Clone, Debug, PartialEq, Eq)]
pub enum Metadata {
    B256([u8; 32]),
    Bytes(Vec<u8>),
    Int(u64),
    String(String),
}

/// One call of an entry point, with its arguments.
#[derive(Clone, Debug, PartialEq, Eq)]
pub enum ContractCall {
    Initialize { owner: Identity, fee_info: FeeInfo },
    TransferOwnership { recipient: Identity },
    Owner,
    NewAsset {
        name: String,
        symbol: String,
        decimals: u8,
        mint_amount: u64,
        logo: Option<String>,
        description: Option<String>,
        metadata_list: Vec<(String, Metadata)>,
    },
    TotalAssets,
    TotalSupply { asset: AssetId },
    Name { asset: AssetId },
    Symbol { asset: AssetId },
    Decimals { asset: AssetId },
    GetAsset { name: String },
    GetFeeInfo,
    SetFeeInfo { fee_info: FeeInfo },
    Metadata { asset: AssetId, key: String },
}

/// Everything needed to submit one call: the contract, the account that
/// signs, the call, and the policy. A policy field left `None` is not set
/// on the transaction.
#[derive(Clone, Debug, PartialEq, Eq)]
pub struct CallRequest {
    pub contract_id: ContractId,
    pub account: Address,
    pub call: ContractCall,
    pub tx_policies: Option<TxPolicies>,
    pub call_params: Option<CallParameters>,
    pub variable_outputs: Option<VariableOutputPolicy>,
}

impl CallRequest {
    /// The request that makes `call` and sets no policy.
    pub open spec fn plain(contract_id: ContractId, account: Address, call: ContractCall) -> CallRequest {
        CallRequest {
            contract_id,
            account,
            call,
            tx_policies: None,
            call_params: None,
            variable_outputs: None,
        }
    }
}

} // verus!
