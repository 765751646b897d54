use memecoins_sdk::contract::{
    NEW_ASSET_VARIABLE_OUTPUTS, TOKENFACTORY_CONTRACT_BINARY_PATH,
    TOKENFACTORY_CONTRACT_STORAGE_PATH,
};
use memecoins_sdk::{
    Address, AssetId, Bytes32, CallParameters, CallRequest, ContractCall, ContractId, Deployment,
    FeeInfo, Identity, Metadata, TokenFactoryContract, TxPolicies, VariableOutputPolicy,
};

fn deployer() -> Address {
    Address::new([0x11; 32])
}

fn user() -> Address {
    Address::new([0x22; 32])
}

fn factory_id() -> ContractId {
    ContractId::new([0x33; 32])
}

fn factory() -> TokenFactoryContract {
    TokenFactoryContract::new(factory_id(), deployer())
}

fn starting_fee() -> FeeInfo {
    FeeInfo { fee_asset: AssetId::zeroed(), fee_amount: 10, fee_address: deployer() }
}

fn plain(account: Address, call: ContractCall) -> CallRequest {
    CallRequest {
        contract_id: factory_id(),
        account,
        call,
        tx_policies: None,
        call_params: None,
        variable_outputs: None,
    }
}

#[test]
fn policies_keep_their_fields() {
    let policies = TxPolicies::new(Some(1), Some(2), Some(3), Some(4), Some(5));
    assert_eq!(policies.tip, Some(1));
    assert_eq!(policies.witness_limit, Some(2));
    assert_eq!(policies.maturity, Some(3));
    assert_eq!(policies.max_fee, Some(4));
    assert_eq!(policies.script_gas_limit, Some(5));
}

#[test]
fn default_policies_set_nothing() {
    let policies = TxPolicies::default();
    assert_eq!(policies, TxPolicies::new(None, None, None, None, None));
    let theirs = fuels::types::transaction::TxPolicies::default();
    assert_eq!(policies.tip, theirs.tip());
    assert_eq!(policies.witness_limit, theirs.witness_limit());
    assert_eq!(policies.maturity, theirs.maturity());
    assert_eq!(policies.max_fee, theirs.max_fee());
    assert_eq!(policies.script_gas_limit, theirs.script_gas_limit());
}

#[test]
fn call_parameters_name_asset_and_gas() {
    let params = CallParameters::new(10, AssetId::new([7; 32]), 200_000);
    assert_eq!(params.amount, 10);
    assert_eq!(params.asset_id, Some(AssetId::new([7; 32])));
    assert_eq!(params.gas_forwarded, Some(200_000));
    let theirs =
        fuels::programs::calls::CallParameters::new(10, fuels::types::AssetId::new([7; 32]), 200_000);
    assert_eq!(params.amount, theirs.amount());
    assert_eq!(params.asset_id.map(|id| id.bytes), theirs.asset_id().map(|id| *id));
    assert_eq!(params.gas_forwarded, theirs.gas_forwarded());
}

#[test]
fn new_holds_contract_and_account() {
    let contract = factory();
    assert_eq!(contract.contract_id, factory_id());
    assert_eq!(contract.account, deployer());
    assert_eq!(*contract.contract_id(), factory_id());
    assert_eq!(contract.id(), Bytes32::new([0x33; 32]));
}

#[test]
fn with_account_changes_only_the_account() {
    let contract = factory();
    let other = contract.with_account(&user());
    assert_eq!(other.contract_id, factory_id());
    assert_eq!(other.account, user());
    assert_eq!(contract.account, deployer());
    assert_eq!(other.owner().account, user());
    assert_eq!(other.with_account(&deployer()), contract);
}

#[test]
fn deploy_plans_with_default_policies() {
    let plan = TokenFactoryContract::deploy(&deployer(), &starting_fee());
    assert_eq!(plan.account, deployer());
    assert_eq!(plan.fee_info, starting_fee());
    assert_eq!(plan.tx_policies, TxPolicies::default());
    assert_eq!(plan, Deployment::with_salt(plan.salt, &deployer(), &starting_fee()));
}

#[test]
fn deploy_draws_a_fresh_salt() {
    let first = TokenFactoryContract::deploy(&deployer(), &starting_fee());
    let second = TokenFactoryContract::deploy(&deployer(), &starting_fee());
    let third = TokenFactoryContract::deploy(&deployer(), &starting_fee());
    assert!(first.salt != second.salt || second.salt != third.salt);
}

#[test]
fn deployment_with_salt_keeps_the_salt() {
    let plan = Deployment::with_salt([9; 32], &user(), &starting_fee());
    assert_eq!(plan.salt, [9; 32]);
    assert_eq!(plan.account, user());
    assert_eq!(plan.fee_info, starting_fee());
    assert_eq!(plan.tx_policies.script_gas_limit, None);
}

#[test]
fn deployed_contract_is_initialized_by_its_deployer() {
    let plan = Deployment::with_salt([9; 32], &deployer(), &starting_fee());
    let (contract, request) = plan.deployed(factory_id());
    assert_eq!(contract, factory());
    assert_eq!(
        request,
        plain(
            deployer(),
            ContractCall::Initialize {
                owner: Identity::Address(deployer()),
                fee_info: starting_fee(),
            },
        )
    );
}

#[test]
fn artifact_paths() {
    assert_eq!(TOKENFACTORY_CONTRACT_BINARY_PATH, "contract/out/release/memecoins-contract.bin");
    assert_eq!(
        TOKENFACTORY_CONTRACT_STORAGE_PATH,
        "contract/out/release/memecoins-contract-storage_slots.json"
    );
}

#[test]
fn initialize_request() {
    let owner = Identity::ContractId(ContractId::new([5; 32]));
    let request = factory().initialize(owner, &starting_fee());
    assert_eq!(
        request,
        plain(deployer(), ContractCall::Initialize { owner, fee_info: starting_fee() })
    );
}

#[test]
fn transfer_ownership_request() {
    let recipient = Identity::Address(user());
    let request = factory().transfer_ownership(recipient);
    assert_eq!(request, plain(deployer(), ContractCall::TransferOwnership { recipient }));
    let by_user = factory().with_account(&user()).transfer_ownership(recipient);
    assert_eq!(by_user, plain(user(), ContractCall::TransferOwnership { recipient }));
}

#[test]
fn owner_request() {
    assert_eq!(factory().owner(), plain(deployer(), ContractCall::Owner));
}

#[test]
fn new_asset_request_with_metadata() {
    let name = String::from("BTC_NAME");
    let symbol = String::from("BTC");
    let logo = Some(String::from("https://example.com/logo.png"));
    let description = Some(String::from("meme coin"));
    let metadata = vec![
        ("key1".to_string(), Metadata::String("value1".to_string())),
        ("key2".to_string(), Metadata::String("value2".to_string())),
        ("key3".to_string(), Metadata::String("value3".to_string())),
        ("twitter".to_string(), Metadata::String("https://twitter.com/example".to_string())),
        ("discord".to_string(), Metadata::String("https://discord.gg/example".to_string())),
    ];
    let request = factory().with_account(&user()).new_asset(
        name.clone(),
        symbol.clone(),
        8,
        1_000_000,
        logo.clone(),
        description.clone(),
        metadata.clone(),
        AssetId::zeroed(),
        10,
        200_000,
    );
    assert_eq!(request.contract_id, factory_id());
    assert_eq!(request.account, user());
    assert_eq!(
        request.call,
        ContractCall::NewAsset {
            name,
            symbol,
            decimals: 8,
            mint_amount: 1_000_000,
            logo,
            description,
            metadata_list: metadata,
        }
    );
    assert_eq!(
        request.tx_policies,
        Some(TxPolicies {
            tip: Some(0),
            witness_limit: None,
            maturity: Some(0),
            max_fee: None,
            script_gas_limit: Some(200_000),
        })
    );
    assert_eq!(
        request.call_params,
        Some(CallParameters {
            amount: 10,
            asset_id: Some(AssetId::zeroed()),
            gas_forwarded: Some(200_000),
        })
    );
    assert_eq!(request.variable_outputs, Some(VariableOutputPolicy::Exactly(2)));
    assert_eq!(NEW_ASSET_VARIABLE_OUTPUTS, 2);
}

#[test]
fn new_asset_request_forwards_arguments_unchecked() {
    let long_name = String::from("THIS_TOKEN_NAME_LENGTH_LARGER_THAN_32");
    let long_symbol = String::from("SYMBOL_LENGTH_LONG");
    let request = factory().new_asset(
        long_name.clone(),
        long_symbol.clone(),
        8,
        0,
        None,
        None,
        Vec::new(),
        AssetId::new([4; 32]),
        5,
        1,
    );
    assert_eq!(
        request.call,
        ContractCall::NewAsset {
            name: long_name,
            symbol: long_symbol,
            decimals: 8,
            mint_amount: 0,
            logo: None,
            description: None,
            metadata_list: Vec::new(),
        }
    );
    assert_eq!(request.tx_policies.unwrap().script_gas_limit, Some(1));
    assert_eq!(request.call_params, Some(CallParameters::new(5, AssetId::new([4; 32]), 1)));
}

#[test]
fn new_asset_request_carries_every_kind_of_metadata() {
    let metadata = vec![
        ("hash".to_string(), Metadata::B256([1; 32])),
        ("raw".to_string(), Metadata::Bytes(vec![1, 2, 3])),
        ("count".to_string(), Metadata::Int(42)),
        ("text".to_string(), Metadata::String("hello".to_string())),
    ];
    let request = factory().new_asset(
        "A".to_string(),
        "B".to_string(),
        0,
        1,
        None,
        None,
        metadata.clone(),
        AssetId::zeroed(),
        0,
        0,
    );
    match request.call {
        ContractCall::NewAsset { metadata_list, .. } => assert_eq!(metadata_list, metadata),
        other => panic!("unexpected call {:?}", other),
    }
}

#[test]
fn query_requests() {
    let asset = AssetId::new([8; 32]);
    let contract = factory();
    assert_eq!(contract.total_assets(), plain(deployer(), ContractCall::TotalAssets));
    assert_eq!(contract.total_supply(&asset), plain(deployer(), ContractCall::TotalSupply { asset }));
    assert_eq!(contract.name(&asset), plain(deployer(), ContractCall::Name { asset }));
    assert_eq!(contract.symbol(&asset), plain(deployer(), ContractCall::Symbol { asset }));
    assert_eq!(contract.decimals(&asset), plain(deployer(), ContractCall::Decimals { asset }));
    assert_eq!(
        contract.get_asset(&"BTC".to_string()),
        plain(deployer(), ContractCall::GetAsset { name: "BTC".to_string() })
    );
    assert_eq!(
        contract.metadata(asset, "logo".to_string()),
        plain(deployer(), ContractCall::Metadata { asset, key: "logo".to_string() })
    );
}

#[test]
fn fee_info_requests() {
    let new_fee_info =
        FeeInfo { fee_asset: AssetId::zeroed(), fee_amount: 1000, fee_address: Address::zeroed() };
    let contract = factory().with_account(&user());
    assert_eq!(contract.fee_info(), plain(user(), ContractCall::GetFeeInfo));
    assert_eq!(
        contract.set_fee_info(new_fee_info),
        plain(user(), ContractCall::SetFeeInfo { fee_info: new_fee_info })
    );
}
