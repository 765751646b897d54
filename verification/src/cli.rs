//! The command line: which command the arguments name, what is said when
//! they name none, how the textual inputs become a fee configuration, and
//! what is reported once a command has run.

use vstd::prelude::*;
use vstd::string::*;
use crate::call::{CallRequest, ContractCall, FeeInfo};
use crate::contract::{Deployment, TokenFactoryContract};
use crate::decimal::{decimal_digits, format_u64, lemma_parse_format, parse_decimal, parse_u64};
use crate::hex::{bech32_contract_address, decode_hex32, encode_hex, lemma_decode_encode};
use crate::ids::{Address, AssetId, ContractId};

verus! {

/// What the arguments ask for.
#[derive(Clone, Debug, PartialEq, Eq)]
pub enum Command {
    /// Deploy a new contract with this fee configuration.
    Deploy { fee_amount: String, fee_address: String },
    /// Replace the fee configuration of a deployed contract.
    SetFeeInfo { contract_id: String, fee_amount: String, fee_address: String },
    /// No command was named.
    Missing,
    /// `deploy` was named with too few parameters.
    DeployIncomplete,
    /// `set-fee-info` was named with too few parameters.
    SetFeeInfoIncomplete,
    /// The named command does not exist.
    Unknown { name: String },
}

/// The input that could not be read.
#[derive(Clone, Copy, Debug, PartialEq, Eq)]
pub enum InputError {
    /// The fee asset is not a 32-byte identifier in hexadecimal.
    FeeAsset,
    /// The fee amount is not a decimal number that fits in 64 bits.
    FeeAmount,
    /// The fee address is not a 32-byte address in hexadecimal.
    FeeAddress,
    /// The contract identifier is not a 32-byte identifier in hexadecimal.
    ContractId,
}

/// The two calls of the `set-fee-info` command, in the order in which they
/// are made.
#[derive(Clone, Debug, PartialEq, Eq)]
pub struct FeeUpdate {
    /// Replaces the fee configuration. Whether it succeeds is not looked at.
    pub update: CallRequest,
    /// Asks for the configuration that the contract then holds, which is
    /// what gets reported.
    pub query: CallRequest,
}

/// The command that a list of arguments names. The first argument is the
/// program's own name and the second the command; parameters beyond those
/// that a command takes are ignored.
pub open spec fn command_of(args: Seq<String>) -> Command {
    if args.len() < 2 {
        Command::Missing
    } else if args[1]@ == "deploy"@ {
        if args.len() < 4 {
            Command::DeployIncomplete
        } else {
            Command::Deploy { fee_amount: args[2], fee_address: args[3] }
        }
    } else if args[1]@ == "set-fee-info"@ {
        if args.len() < 5 {
            Command::SetFeeInfoIncomplete
        } else {
            Command::SetFeeInfo { contract_id: args[2], fee_amount: args[3], fee_address: args[4] }
        }
    } else {
        Command::Unknown { name: args[1] }
    }
}

/// What is said on the error stream for a command, line by line: the usage
/// where parameters are missing, the known commands where the name is not
/// one of them, and nothing for a command that can run.
pub open spec fn diagnostic_lines(command: Command) -> Seq<Seq<char>> {
    match command {
        Command::Deploy { .. } => seq![],
        Command::SetFeeInfo { .. } => seq![],
        Command::Missing => seq![
            "Usage: cargo run -- <command> [<params>...]"@,
            "Commands: deploy <fee_amount> <fee_address> | set-fee-info <contract_id> <fee_amount> <fee_address>"@,
        ],
        Command::DeployIncomplete => seq!["Usage: cargo run -- deploy <fee_amount> <fee_address>"@],
        Command::SetFeeInfoIncomplete => seq![
            "Usage: cargo run -- set-fee-info <contract_id> <fee_amount> <fee_address>"@,
        ],
        Command::Unknown { name } => seq![
            "Unknown command: "@ + name@,
            "Available commands: deploy | set-fee-info"@,
        ],
    }
}

/// The fee configuration that three texts denote, or the first of them, in
/// the order asset, amount, address, that denotes nothing.
pub open spec fn fee_info_of(
    fee_asset: Seq<char>,
    fee_amount: Seq<char>,
    fee_address: Seq<char>,
) -> Result<(Seq<u8>, u64, Seq<u8>), InputError> {
    if decode_hex32(fee_asset) is None {
        Err(InputError::FeeAsset)
    } else if parse_decimal(fee_amount) is None {
        Err(InputError::FeeAmount)
    } else if decode_hex32(fee_address) is None {
        Err(InputError::FeeAddress)
    } else {
        Ok(
            (
                decode_hex32(fee_asset).unwrap(),
                parse_decimal(fee_amount).unwrap(),
                decode_hex32(fee_address).unwrap(),
            ),
        )
    }
}

/// The three fields of a fee configuration as plain values.
pub open spec fn fee_info_fields(info: FeeInfo) -> (Seq<u8>, u64, Seq<u8>) {
    (info.fee_asset@, info.fee_amount, info.fee_address@)
}

/// The lines that report a deployed contract, given its hash as text and
/// its address as text: the hash as it is, then the address in double
/// quotes.
pub open spec fn address_lines(hash: Seq<char>, address: Seq<char>) -> Seq<Seq<char>> {
    seq!["Contract address = "@ + hash, "Contract address = "@ + seq!['"'] + address + seq!['"']]
}

/// The lines that report a deployment: the contract's hash in hexadecimal,
/// then its bech32 address in double quotes.
pub open spec fn deployment_lines(contract_id: Seq<u8>) -> Seq<Seq<char>> {
    address_lines(encode_hex(contract_id), bech32_contract_address(contract_id))
}

/// The lines that report a fee configuration: asset, address, amount.
pub open spec fn fee_info_lines(info: FeeInfo) -> Seq<Seq<char>> {
    seq![
        "Fee asset: "@ + encode_hex(info.fee_asset@),
        "Fee address: "@ + encode_hex(info.fee_address@),
        "Fee amount: "@ + decimal_digits(info.fee_amount as nat),
    ]
}

/// The texts of a list of lines.
pub open spec fn texts(lines: Seq<String>) -> Seq<Seq<char>> {
    Seq::new(lines.len(), |i: int| lines[i]@)
}

/// Reads the command from the program's arguments.
pub fn parse_command(args: &Vec<String>) -> (command: Command)
    ensures
        command == command_of(args@),
{
    if args.len() < 2 {
        return Command::Missing;
    }
    let deploy = String::from_str("deploy");
    let set_fee_info = String::from_str("set-fee-info");
    if args[1] == deploy {
        if args.len() < 4 {
            Command::DeployIncomplete
        } else {
            Command::Deploy { fee_amount: args[2].clone(), fee_address: args[3].clone() }
        }
    } else if args[1] == set_fee_info {
        if args.len() < 5 {
            Command::SetFeeInfoIncomplete
        } else {
            Command::SetFeeInfo {
                contract_id: args[2].clone(),
                fee_amount: args[3].clone(),
                fee_address: args[4].clone(),
            }
        }
    } else {
        Command::Unknown { name: args[1].clone() }
    }
}

impl Command {
    /// The lines to print on the error stream in place of running.
    pub fn diagnostics(&self) -> (lines: Vec<String>)
        ensures
            texts(lines@) == diagnostic_lines(*self),
    {
        let mut lines: Vec<String> = Vec::new();
        match self {
            Command::Deploy { .. } => {},
            Command::SetFeeInfo { .. } => {},
            Command::Missing => {
                lines.push(String::from_str("Usage: cargo run -- <command> [<params>...]"));
                lines.push(
                    String::from_str(
                        "Commands: deploy <fee_amount> <fee_address> | set-fee-info <contract_id> <fee_amount> <fee_address>",
                    ),
                );
            },
            Command::DeployIncomplete => {
                lines.push(String::from_str("Usage: cargo run -- deploy <fee_amount> <fee_address>"));
            },
            Command::SetFeeInfoIncomplete => {
                lines.push(
                    String::from_str(
                        "Usage: cargo run -- set-fee-info <contract_id> <fee_amount> <fee_address>",
                    ),
                );
            },
            Command::Unknown { name } => {
                lines.push(String::from_str("Unknown command: ").concat(name.as_str()));
                lines.push(String::from_str("Available commands: deploy | set-fee-info"));
            },
        }
        assert(texts(lines@) =~= diagnostic_lines(*self));
        lines
    }
}

/// Reads a fee configuration from its three textual inputs.
pub fn parse_fee_info(fee_asset: &str, fee_amount: &str, fee_address: &str) -> (r: Result<
    FeeInfo,
    InputError,
>)
    ensures
        match r {
            Ok(info) => fee_info_of(fee_asset@, fee_amount@, fee_address@) == Ok::<
                (Seq<u8>, u64, Seq<u8>),
                InputError,
            >(fee_info_fields(info)),
            Err(e) => fee_info_of(fee_asset@, fee_amount@, fee_address@) == Err::<
                (Seq<u8>, u64, Seq<u8>),
                InputError,
            >(e),
        },
{
    let asset = match AssetId::from_hex(fee_asset) {
        Some(asset) => asset,
        None => { return Err(InputError::FeeAsset); },
    };
    let amount = match parse_u64(fee_amount) {
        Some(amount) => amount,
        None => { return Err(InputError::FeeAmount); },
    };
    let address = match Address::from_hex(fee_address) {
        Some(address) => address,
        None => { return Err(InputError::FeeAddress); },
    };
    Ok(FeeInfo { fee_asset: asset, fee_amount: amount, fee_address: address })
}

/// Reads the identifier of a deployed contract from its textual input.
pub fn parse_contract_id(contract_id: &str) -> (r: Result<ContractId, InputError>)
    ensures
        match r {
            Ok(id) => decode_hex32(contract_id@) == Some(id@),
            Err(e) => e == InputError::ContractId && decode_hex32(contract_id@) is None,
        },
{
    match ContractId::from_hex(contract_id) {
        Some(id) => Ok(id),
        None => Err(InputError::ContractId),
    }
}

/// The lines to print for a contract whose hash and address are already
/// written out as text.
pub fn address_report(hash: &str, address: &str) -> (lines: Vec<String>)
    ensures
        texts(lines@) == address_lines(hash@, address@),
{
    let mut lines: Vec<String> = Vec::new();
    proof {
        reveal_strlit("\"");
    }
    assert("\""@ =~= seq!['"']);
    lines.push(String::from_str("Contract address = ").concat(hash));
    lines.push(String::from_str("Contract address = ").concat("\"").concat(address).concat("\""));
    assert(texts(lines@) =~= address_lines(hash@, address@));
    lines
}

/// The lines to print once a contract has been deployed.
pub fn deployment_report(contract_id: &ContractId) -> (lines: Vec<String>)
    ensures
        texts(lines@) == deployment_lines(contract_id@),
{
    let hash = contract_id.to_hex();
    let address = contract_id.to_bech32();
    address_report(hash.as_str(), address.as_str())
}

/// The lines to print for the fee configuration that the contract holds.
pub fn fee_info_report(info: &FeeInfo) -> (lines: Vec<String>)
    ensures
        texts(lines@) == fee_info_lines(*info),
{
    let mut lines: Vec<String> = Vec::new();
    let asset = info.fee_asset.to_hex();
    let address = info.fee_address.to_hex();
    let amount = format_u64(info.fee_amount);
    lines.push(String::from_str("Fee asset: ").concat(asset.as_str()));
    lines.push(String::from_str("Fee address: ").concat(address.as_str()));
    lines.push(String::from_str("Fee amount: ").concat(amount.as_str()));
    assert(texts(lines@) =~= fee_info_lines(*info));
    lines
}

/// The `deploy` command: reads the fee configuration and plans the
/// deployment of a new contract by `account` with it. The fee asset comes
/// from the environment, the amount and the address from the arguments.
pub fn deploy(account: &Address, fee_asset: &str, fee_amount: &str, fee_address: &str) -> (r:
    Result<Deployment, InputError>)
    ensures
        match r {
            Ok(plan) => {
                &&& fee_info_of(fee_asset@, fee_amount@, fee_address@) == Ok::<
                    (Seq<u8>, u64, Seq<u8>),
                    InputError,
                >(fee_info_fields(plan.fee_info))
                &&& plan == Deployment::planned(plan.salt, *account, plan.fee_info)
            },
            Err(e) => fee_info_of(fee_asset@, fee_amount@, fee_address@) == Err::<
                (Seq<u8>, u64, Seq<u8>),
                InputError,
            >(e),
        },
{
    match parse_fee_info(fee_asset, fee_amount, fee_address) {
        Ok(fee_info) => Ok(TokenFactoryContract::deploy(account, &fee_info)),
        Err(e) => Err(e),
    }
}

/// The `set-fee-info` command: reads the contract's identifier, then the
/// new fee configuration, and builds the two calls that `account` makes.
/// A contract identifier that cannot be read is reported before anything
/// else.
pub fn set_fee_info(
    account: &Address,
    contract_id: &str,
    fee_asset: &str,
    fee_amount: &str,
    fee_address: &str,
) -> (r: Result<FeeUpdate, InputError>)
    ensures
        match r {
            Ok(steps) => {
                &&& steps.update.call matches ContractCall::SetFeeInfo { fee_info }
                &&& fee_info_of(fee_asset@, fee_amount@, fee_address@) == Ok::<
                    (Seq<u8>, u64, Seq<u8>),
                    InputError,
                >(fee_info_fields(fee_info))
                &&& decode_hex32(contract_id@) == Some(steps.update.contract_id@)
                &&& steps.update == CallRequest::plain(
                    steps.update.contract_id,
                    *account,
                    ContractCall::SetFeeInfo { fee_info },
                )
                &&& steps.query == CallRequest::plain(
                    steps.update.contract_id,
                    *account,
                    ContractCall::GetFeeInfo,
                )
            },
            Err(e) => if decode_hex32(contract_id@) is None {
                e == InputError::ContractId
            } else {
                fee_info_of(fee_asset@, fee_amount@, fee_address@) == Err::<
                    (Seq<u8>, u64, Seq<u8>),
                    InputError,
                >(e)
            },
        },
{
    let id = match parse_contract_id(contract_id) {
        Ok(id) => id,
        Err(e) => { return Err(e); },
    };
    let contract = TokenFactoryContract::new(id, *account);
    let fee_info = match parse_fee_info(fee_asset, fee_amount, fee_address) {
        Ok(fee_info) => fee_info,
        Err(e) => { return Err(e); },
    };
    let update = contract.set_fee_info(fee_info);
    let query = contract.fee_info();
    Ok(FeeUpdate { update, query })
}

/// What the report of a fee configuration shows can be read back: the
/// three values that `fee_info_lines` writes after its labels denote the
/// configuration that was reported.
pub proof fn lemma_report_reads_back(info: FeeInfo)
    ensures
        fee_info_of(
            encode_hex(info.fee_asset@),
            decimal_digits(info.fee_amount as nat),
            encode_hex(info.fee_address@),
        ) == Ok::<(Seq<u8>, u64, Seq<u8>), InputError>(fee_info_fields(info)),
{
    lemma_decode_encode(info.fee_asset@);
    lemma_decode_encode(info.fee_address@);
    lemma_parse_format(info.fee_amount);
}

} // verus!
