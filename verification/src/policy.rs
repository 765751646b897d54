//! What travels with a transaction besides the call itself: fee policies,
//! the coins forwarded to the contract, and the number of variable outputs.

use vstd::prelude::*;
use crate::ids::AssetId;

verus! {

/// Limits and fees of one transaction. A field left `None` is left to the
/// network's defaults.
#[derive(Clone, Copy, Debug, PartialEq, Eq)]
pub struct TxPolicies {
    pub tip: Option<u64>,
    pub witness_limit: Option<u64>,
    pub maturity: Option<u64>,
    pub max_fee: Option<u64>,
    pub script_gas_limit: Option<u64>,
}

impl TxPolicies {
    /// The policies that set nothing.
    pub open spec fn unset() -> TxPolicies {
        TxPolicies {
            tip: None,
            witness_limit: None,
            maturity: None,
            max_fee: None,
            script_gas_limit: None,
        }
    }

    /// Policies with every field given.
    pub fn new(
        tip: Option<u64>,
        witness_limit: Option<u64>,
        maturity: Option<u64>,
        max_fee: Option<u64>,
        script_gas_limit: Option<u64>,
    ) -> (policies: TxPolicies)
        ensures
            policies == (TxPolicies { tip, witness_limit, maturity, max_fee, script_gas_limit }),
    {
        TxPolicies { tip, witness_limit, maturity, max_fee, script_gas_limit }
    }
}

impl Default for TxPolicies {
    fn default() -> (policies: TxPolicies)
        ensures
            policies == TxPolicies::unset(),
    {
        TxPolicies {
            tip: None,
            witness_limit: None,
            maturity: None,
            max_fee: None,
            script_gas_limit: None,
        }
    }
}

/// The coins and gas handed to the contract with a call.
#[derive(Clone, Copy, Debug, PartialEq, Eq)]
pub struct CallParameters {
    pub amount: u64,
    pub asset_id: Option<AssetId>,
    pub gas_forwarded: Option<u64>,
}

impl CallParameters {
    /// Forwards `amount` of `asset_id` and `gas_forwarded` units of gas.
    pub fn new(amount: u64, asset_id: AssetId, gas_forwarded: u64) -> (params: CallParameters)
        ensures
            params == (CallParameters {
                amount,
                asset_id: Some(asset_id),
                gas_forwarded: Some(gas_forwarded),
            }),
    {
        CallParameters { amount, asset_id: Some(asset_id), gas_forwarded: Some(gas_forwarded) }
    }
}

/// How many variable outputs the transaction gets.
#[derive(Clone, Copy, Debug, PartialEq, Eq)]
pub enum VariableOutputPolicy {
    /// As few as a dry run shows to be needed.
    EstimateMinimum,
    /// This many.
    Exactly(usize),
}

} // verus!
