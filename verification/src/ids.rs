//! 32-byte identifiers of the network: assets, addresses, contracts and
//! plain hashes, and the identity that owns or receives something.

use vstd::prelude::*;

verus! {

/// The bytes of an identifier that holds only zeros.
pub open spec fn zero_bytes() -> Seq<u8> {
    Seq::new(32, |i: int| 0u8)
}

/// Identifier of an asset.
#[derive(Clone, Copy, Debug, PartialEq, Eq, Hash)]
pub struct AssetId {
    pub bytes: [u8; 32],
}

impl View for AssetId {
    type V = Seq<u8>;

    open spec fn view(&self) -> Seq<u8> {
        self.bytes@
    }
}

impl AssetId {
    /// Wraps the given bytes.
    pub fn new(bytes: [u8; 32]) -> (id: AssetId)
        ensures
            id.bytes == bytes,
    {
        AssetId { bytes }
    }

    /// The identifier made of zero bytes: the network's base asset.
    pub fn zeroed() -> (id: AssetId)
        ensures
            id@ == zero_bytes(),
    {
        let id = AssetId { bytes: [0u8; 32] };
        assert(id@ =~= zero_bytes());
        id
    }
}

/// Address of a wallet.
#[derive(Clone, Copy, Debug, PartialEq, Eq, Hash)]
pub struct Address {
    pub bytes: [u8; 32],
}

impl View for Address {
    type V = Seq<u8>;

    open spec fn view(&self) -> Seq<u8> {
        self.bytes@
    }
}

impl Address {
    /// Wraps the given bytes.
    pub fn new(bytes: [u8; 32]) -> (id: Address)
        ensures
            id.bytes == bytes,
    {
        Address { bytes }
    }

    /// The address made of zero bytes.
    pub fn zeroed() -> (id: Address)
        ensures
            id@ == zero_bytes(),
    {
        let id = Address { bytes: [0u8; 32] };
        assert(id@ =~= zero_bytes());
        id
    }
}

/// Identifier of a deployed contract.
#[derive(Clone, Copy, Debug, PartialEq, Eq, Hash)]
pub struct ContractId {
    pub bytes: [u8; 32],
}

impl View for ContractId {
    type V = Seq<u8>;

    open spec fn view(&self) -> Seq<u8> {
        self.bytes@
    }
}

impl ContractId {
    /// Wraps the given bytes.
    pub fn new(bytes: [u8; 32]) -> (id: ContractId)
        ensures
            id.bytes == bytes,
    {
        ContractId { bytes }
    }

    /// The identifier made of zero bytes.
    pub fn zeroed() -> (id: ContractId)
        ensures
            id@ == zero_bytes(),
    {
        let id = ContractId { bytes: [0u8; 32] };
        assert(id@ =~= zero_bytes());
        id
    }
}

/// A 32-byte hash.
#[derive(Clone, Copy, Debug, PartialEq, Eq, Hash)]
pub struct Bytes32 {
    pub bytes: [u8; 32],
}

impl View for Bytes32 {
    type V = Seq<u8>;

    open spec fn view(&self) -> Seq<u8> {
        self.bytes@
    }
}

impl Bytes32 {
    /// Wraps the given bytes.
    pub fn new(bytes: [u8; 32]) -> (id: Bytes32)
        ensures
            id.bytes == bytes,
    {
        Bytes32 { bytes }
    }

    /// The hash made of zero bytes.
    pub fn zeroed() -> (id: Bytes32)
        ensures
            id@ == zero_bytes(),
    {
        let id = Bytes32 { bytes: [0u8; 32] };
        assert(id@ =~= zero_bytes());
        id
    }
}

/// Who owns or receives something: a wallet address or a contract.
#[derive(Clone, Copy, Debug, PartialEq, Eq, Hash)]
pub enum Identity {
    Address(Address),
    ContractId(ContractId),
}

} // verus!
