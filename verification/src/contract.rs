//! The handle on a deployed token factory. Each method builds the request
//! for one entry point: the arguments as given, under that entry point's
//! fixed transaction policy. Submitting a request is left to the caller.

use vstd::prelude::*;
use crate::call::{CallRequest, ContractCall, FeeInfo, Metadata};
use crate::ids::{Address, AssetId, Bytes32, ContractId, Identity};
use crate::policy::{CallParameters, TxPolicies, VariableOutputPolicy};

verus! {

/// Where the compiled contract lies, below the package's directory.
pub const TOKENFACTORY_CONTRACT_BINARY_PATH: &'static str =
    "contract/out/release/memecoins-contract.bin";

/// Where the contract's initial storage slots lie, below the package's
/// directory.
pub const TOKENFACTORY_CONTRACT_STORAGE_PATH: &'static str =
    "contract/out/release/memecoins-contract-storage_slots.json";

/// The number of variable outputs of a transaction that mints an asset.
pub const NEW_ASSET_VARIABLE_OUTPUTS: usize = 2;

/// A deployed token factory and the account that calls it.
#[derive(Clone, Copy, Debug, PartialEq, Eq)]
pub struct TokenFactoryContract {
    pub contract_id: ContractId,
    pub account: Address,
}

/// A deployment that has been decided but not yet carried out.
#[derive(Clone, Copy, Debug, PartialEq, Eq)]
pub struct Deployment {
    /// Makes the new contract's identifier unique.
    pub salt: [u8; 32],
    /// The policy of the transaction that creates the contract.
    pub tx_policies: TxPolicies,
    /// The account that deploys, and that will own the contract.
    pub account: Address,
    /// The fee configuration that the contract starts with.
    pub fee_info: FeeInfo,
}

/// Draws a salt from `rand`'s thread-local generator (`thread_rng`, then
/// `Rng::gen`). Nothing is claimed of the bytes.
#[verifier::external_body]
fn random_salt() -> (salt: [u8; 32]) {
    rand::Rng::gen::<[u8; 32]>(&mut rand::thread_rng())
}

impl Deployment {
    /// The deployment by `account` under the given salt: the creating
    /// transaction sets no policy.
    pub open spec fn planned(salt: [u8; 32], account: Address, fee_info: FeeInfo) -> Deployment {
        Deployment { salt, tx_policies: TxPolicies::unset(), account, fee_info }
    }

    /// Plans a deployment under a salt chosen by the caller.
    pub fn with_salt(salt: [u8; 32], account: &Address, fee_info: &FeeInfo) -> (plan: Deployment)
        ensures
            plan == Deployment::planned(salt, *account, *fee_info),
    {
        Deployment {
            salt,
            tx_policies: TxPolicies::default(),
            account: *account,
            fee_info: *fee_info,
        }
    }

    /// What follows once the network has created the contract under
    /// `contract_id`: the handle on it, held by the deploying account, and
    /// the request that initializes it with that account as owner and the
    /// planned fee configuration.
    pub fn deployed(&self, contract_id: ContractId) -> (next: (TokenFactoryContract, CallRequest))
        ensures
            next.0 == (TokenFactoryContract { contract_id, account: self.account }),
            next.1 == CallRequest::plain(
                contract_id,
                self.account,
                ContractCall::Initialize {
                    owner: Identity::Address(self.account),
                    fee_info: self.fee_info,
                },
            ),
    {
        let contract = TokenFactoryContract::new(contract_id, self.account);
        let request = contract.initialize(Identity::Address(self.account), &self.fee_info);
        (contract, request)
    }
}

impl TokenFactoryContract {
    /// The request that calls `call` on this contract from this account and
    /// sets no policy.
    pub open spec fn plain(&self, call: ContractCall) -> CallRequest {
        CallRequest::plain(self.contract_id, self.account, call)
    }

    /// Plans the deployment of a new contract by `account`, under a fresh
    /// random salt. Everything but the salt is fixed by the arguments.
    pub fn deploy(account: &Address, fee_info: &FeeInfo) -> (plan: Deployment)
        ensures
            plan == Deployment::planned(plan.salt, *account, *fee_info),
    {
        let salt = random_salt();
        Deployment::with_salt(salt, account, fee_info)
    }

    /// The handle on the contract at `contract_id`, called from `account`.
    pub fn new(contract_id: ContractId, account: Address) -> (contract: TokenFactoryContract)
        ensures
            contract == (TokenFactoryContract { contract_id, account }),
    {
        TokenFactoryContract { contract_id, account }
    }

    /// The same contract, called from another account.
    pub fn with_account(&self, account: &Address) -> (contract: TokenFactoryContract)
        ensures
            contract == (TokenFactoryContract { contract_id: self.contract_id, account: *account }),
    {
        TokenFactoryContract { contract_id: self.contract_id, account: *account }
    }

    /// The hash that identifies the contract.
    pub fn id(&self) -> (hash: Bytes32)
        ensures
            hash.bytes == self.contract_id.bytes,
    {
        Bytes32 { bytes: self.contract_id.bytes }
    }

    /// The contract's identifier.
    pub fn contract_id(&self) -> (id: &ContractId)
        ensures
            *id == self.contract_id,
    {
        &self.contract_id
    }

    /// Sets the owner and the fee configuration of a fresh contract.
    pub fn initialize(&self, owner: Identity, fee_info: &FeeInfo) -> (request: CallRequest)
        ensures
            request == self.plain(ContractCall::Initialize { owner, fee_info: *fee_info }),
    {
        self.request(ContractCall::Initialize { owner, fee_info: *fee_info })
    }

    /// Hands the ownership of the contract to `recipient`.
    pub fn transfer_ownership(&self, recipient: Identity) -> (request: CallRequest)
        ensures
            request == self.plain(ContractCall::TransferOwnership { recipient }),
    {
        self.request(ContractCall::TransferOwnership { recipient })
    }

    /// Asks who owns the contract.
    pub fn owner(&self) -> (request: CallRequest)
        ensures
            request == self.plain(ContractCall::Owner),
    {
        self.request(ContractCall::Owner)
    }

    /// Mints a new asset and pays the creation fee.
    ///
    /// The transaction carries a tip of zero, a maturity of zero and a
    /// script gas limit of `gas`; it forwards `amount` of `fee_asset` and
    /// `gas` units of gas to the contract, and has two variable outputs.
    pub fn new_asset(
        &self,
        name: String,
        symbol: String,
        decimals: u8,
        mint_amount: u64,
        logo: Option<String>,
        description: Option<String>,
        metadata_list: Vec<(String, Metadata)>,
        fee_asset: AssetId,
        amount: u64,
        gas: u64,
    ) -> (request: CallRequest)
        ensures
            request == (CallRequest {
                contract_id: self.contract_id,
                account: self.account,
                call: ContractCall::NewAsset {
                    name,
                    symbol,
                    decimals,
                    mint_amount,
                    logo,
                    description,
                    metadata_list,
                },
                tx_policies: Some(
                    TxPolicies {
                        tip: Some(0),
                        witness_limit: None,
                        maturity: Some(0),
                        max_fee: None,
                        script_gas_limit: Some(gas),
                    },
                ),
                call_params: Some(
                    CallParameters {
                        amount,
                        asset_id: Some(fee_asset),
                        gas_forwarded: Some(gas),
                    },
                ),
                variable_outputs: Some(VariableOutputPolicy::Exactly(2)),
            }),
    {
        let tx_policies = TxPolicies::new(Some(0), None, Some(0), None, Some(gas));
        let call_params = CallParameters::new(amount, fee_asset, gas);
        CallRequest {
            contract_id: self.contract_id,
            account: self.account,
            call: ContractCall::NewAsset {
                name,
                symbol,
                decimals,
                mint_amount,
                logo,
                description,
                metadata_list,
            },
            tx_policies: Some(tx_policies),
            call_params: Some(call_params),
            variable_outputs: Some(VariableOutputPolicy::Exactly(NEW_ASSET_VARIABLE_OUTPUTS)),
        }
    }

    /// Asks how many assets the contract has minted.
    pub fn total_assets(&self) -> (request: CallRequest)
        ensures
            request == self.plain(ContractCall::TotalAssets),
    {
        self.request(ContractCall::TotalAssets)
    }

    /// Asks for the total supply of `asset`.
    pub fn total_supply(&self, asset: &AssetId) -> (request: CallRequest)
        ensures
            request == self.plain(ContractCall::TotalSupply { asset: *asset }),
    {
        self.request(ContractCall::TotalSupply { asset: *asset })
    }

    /// Asks for the name of `asset`.
    pub fn name(&self, asset: &AssetId) -> (request: CallRequest)
        ensures
            request == self.plain(ContractCall::Name { asset: *asset }),
    {
        self.request(ContractCall::Name { asset: *asset })
    }

    /// Asks for the symbol of `asset`.
    pub fn symbol(&self, asset: &AssetId) -> (request: CallRequest)
        ensures
            request == self.plain(ContractCall::Symbol { asset: *asset }),
    {
        self.request(ContractCall::Symbol { asset: *asset })
    }

    /// Asks for the number of decimals of `asset`.
    pub fn decimals(&self, asset: &AssetId) -> (request: CallRequest)
        ensures
            request == self.plain(ContractCall::Decimals { asset: *asset }),
    {
        self.request(ContractCall::Decimals { asset: *asset })
    }

    /// Asks for the asset registered under `name`.
    pub fn get_asset(&self, name: &String) -> (request: CallRequest)
        ensures
            request == self.plain(ContractCall::GetAsset { name: *name }),
    {
        self.request(ContractCall::GetAsset { name: name.clone() })
    }

    /// Asks for the fee configuration.
    pub fn fee_info(&self) -> (request: CallRequest)
        ensures
            request == self.plain(ContractCall::GetFeeInfo),
    {
        self.request(ContractCall::GetFeeInfo)
    }

    /// Replaces the fee configuration.
    pub fn set_fee_info(&self, fee_info: FeeInfo) -> (request: CallRequest)
        ensures
            request == self.plain(ContractCall::SetFeeInfo { fee_info }),
    {
        self.request(ContractCall::SetFeeInfo { fee_info })
    }

    /// Asks for the metadata of `asset` stored under `key`.
    pub fn metadata(&self, asset: AssetId, key: String) -> (request: CallRequest)
        ensures
            request == self.plain(ContractCall::Metadata { asset, key }),
    {
        self.request(ContractCall::Metadata { asset, key })
    }

    /// Builds the request for a call that sets no policy.
    fn request(&self, call: ContractCall) -> (request: CallRequest)
        ensures
            request == self.plain(call),
    {
        CallRequest {
            contract_id: self.contract_id,
            account: self.account,
            call,
            tx_policies: None,
            call_params: None,
            variable_outputs: None,
        }
    }
}

} // verus!
