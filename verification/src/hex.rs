//! Identifiers as text: sixty-four hexadecimal digits, with or without a
//! leading `0x`, and the bech32 form of a contract's address.
//!
//! The conversions themselves are those of the `fuels` crate; this module
//! states what they compute and proves how the two directions fit together.

use vstd::prelude::*;
use crate::ids::{Address, AssetId, Bytes32, ContractId};

verus! {

/// The value of one hexadecimal digit, in either case.
pub open spec fn hex_value(c: char) -> Option<u8> {
    if 'A' <= c && c <= 'F' {
        Some((c as u8 - 'A' as u8 + 10) as u8)
    } else if 'a' <= c && c <= 'f' {
        Some((c as u8 - 'a' as u8 + 10) as u8)
    } else if '0' <= c && c <= '9' {
        Some((c as u8 - '0' as u8) as u8)
    } else {
        None
    }
}

/// The text without one leading `0x`, if it has one.
pub open spec fn strip_0x(s: Seq<char>) -> Seq<char> {
    if s.len() >= 2 && s[0] == '0' && s[1] == 'x' {
        s.subrange(2, s.len() as int)
    } else {
        s
    }
}

/// Whether every character is a hexadecimal digit.
pub open spec fn all_hex(digits: Seq<char>) -> bool {
    forall|i: int| 0 <= i < digits.len() ==> (#[trigger] hex_value(digits[i])) is Some
}

/// The byte written by the digit pair at position `i`.
pub open spec fn byte_at(digits: Seq<char>, i: int) -> u8 {
    (hex_value(digits[2 * i]).unwrap() * 16 + hex_value(digits[2 * i + 1]).unwrap()) as u8
}

/// The 32 bytes that a text denotes: after an optional `0x`, exactly 64
/// hexadecimal digits, two per byte, the high digit first. Any other text
/// denotes nothing.
pub open spec fn decode_hex32(s: Seq<char>) -> Option<Seq<u8>> {
    let digits = strip_0x(s);
    if digits.len() == 64 && all_hex(digits) {
        Some(Seq::new(32, |i: int| byte_at(digits, i)))
    } else {
        None
    }
}

/// The lower-case digit of a value below 16.
pub open spec fn hex_digit(n: int) -> char {
    if n < 10 {
        ('0' as u8 + n) as u8 as char
    } else {
        ('a' as u8 + n - 10) as u8 as char
    }
}

/// Bytes as lower-case hexadecimal text, two digits per byte, no prefix.
pub open spec fn encode_hex(bytes: Seq<u8>) -> Seq<char> {
    Seq::new(
        2 * bytes.len(),
        |i: int|
            if i % 2 == 0 {
                hex_digit(bytes[i / 2] as int / 16)
            } else {
                hex_digit(bytes[i / 2] as int % 16)
            },
    )
}

/// The bech32 text of the contract address with the given hash, under the
/// network's human-readable part.
pub uninterp spec fn bech32_contract_address(hash: Seq<u8>) -> Seq<char>;

/// Calls `AssetId::from_str` of `fuels`. That function drops one leading
/// `0x` and hands the rest to `hex::decode_to_slice`, which accepts exactly
/// 64 hexadecimal digits of either case; the contract says so.
#[verifier::external_body]
fn asset_id_from_str(s: &str) -> (r: Option<[u8; 32]>)
    ensures
        match r {
            Some(bytes) => decode_hex32(s@) == Some(bytes@),
            None => decode_hex32(s@) is None,
        },
{
    match <fuels::types::AssetId as std::str::FromStr>::from_str(s) {
        Ok(id) => Some(id.into()),
        Err(_) => None,
    }
}

/// Calls `Address::from_str` of `fuels`, which reads text as
/// `AssetId::from_str` does.
#[verifier::external_body]
fn address_from_str(s: &str) -> (r: Option<[u8; 32]>)
    ensures
        match r {
            Some(bytes) => decode_hex32(s@) == Some(bytes@),
            None => decode_hex32(s@) is None,
        },
{
    match <fuels::types::Address as std::str::FromStr>::from_str(s) {
        Ok(id) => Some(id.into()),
        Err(_) => None,
    }
}

/// Calls `ContractId::from_str` of `fuels`, which reads text as
/// `AssetId::from_str` does.
#[verifier::external_body]
fn contract_id_from_str(s: &str) -> (r: Option<[u8; 32]>)
    ensures
        match r {
            Some(bytes) => decode_hex32(s@) == Some(bytes@),
            None => decode_hex32(s@) is None,
        },
{
    match <fuels::types::ContractId as std::str::FromStr>::from_str(s) {
        Ok(id) => Some(id.into()),
        Err(_) => None,
    }
}

/// Formats through `Display` of `fuels`' `Bytes32`, which writes each byte
/// as two lower-case hexadecimal digits and, without the alternate flag, no
/// prefix. Its other 32-byte types are written by the same code.
#[verifier::external_body]
fn bytes32_display(bytes: &[u8; 32]) -> (r: String)
    ensures
        r@ == encode_hex(bytes@),
{
    format!("{}", fuels::types::Bytes32::new(*bytes))
}

/// Formats through `Display` of `fuels`' `Bech32ContractId`, made from the
/// hash with the network's human-readable part. The text is a function of
/// the hash alone; the contract only names it.
#[verifier::external_body]
fn bech32_contract_id_display(bytes: &[u8; 32]) -> (r: String)
    ensures
        r@ == bech32_contract_address(bytes@),
{
    let id = fuels::types::ContractId::new(*bytes);
    fuels::types::bech32::Bech32ContractId::from(id).to_string()
}

impl AssetId {
    /// Reads an asset identifier from hexadecimal text.
    pub fn from_hex(s: &str) -> (r: Option<AssetId>)
        ensures
            match r {
                Some(id) => decode_hex32(s@) == Some(id@),
                None => decode_hex32(s@) is None,
            },
    {
        match asset_id_from_str(s) {
            Some(bytes) => Some(AssetId { bytes }),
            None => None,
        }
    }

    /// The identifier as 64 lower-case hexadecimal digits.
    pub fn to_hex(&self) -> (r: String)
        ensures
            r@ == encode_hex(self@),
    {
        bytes32_display(&self.bytes)
    }
}

impl Address {
    /// Reads an address from hexadecimal text.
    pub fn from_hex(s: &str) -> (r: Option<Address>)
        ensures
            match r {
                Some(id) => decode_hex32(s@) == Some(id@),
                None => decode_hex32(s@) is None,
            },
    {
        match address_from_str(s) {
            Some(bytes) => Some(Address { bytes }),
            None => None,
        }
    }

    /// The address as 64 lower-case hexadecimal digits.
    pub fn to_hex(&self) -> (r: String)
        ensures
            r@ == encode_hex(self@),
    {
        bytes32_display(&self.bytes)
    }
}

impl ContractId {
    /// Reads a contract identifier from hexadecimal text.
    pub fn from_hex(s: &str) -> (r: Option<ContractId>)
        ensures
            match r {
                Some(id) => decode_hex32(s@) == Some(id@),
                None => decode_hex32(s@) is None,
            },
    {
        match contract_id_from_str(s) {
            Some(bytes) => Some(ContractId { bytes }),
            None => None,
        }
    }

    /// The identifier as 64 lower-case hexadecimal digits.
    pub fn to_hex(&self) -> (r: String)
        ensures
            r@ == encode_hex(self@),
    {
        bytes32_display(&self.bytes)
    }

    /// The bech32 text of the contract's address.
    pub fn to_bech32(&self) -> (r: String)
        ensures
            r@ == bech32_contract_address(self@),
    {
        bech32_contract_id_display(&self.bytes)
    }
}

impl Bytes32 {
    /// The hash as 64 lower-case hexadecimal digits.
    pub fn to_hex(&self) -> (r: String)
        ensures
            r@ == encode_hex(self@),
    {
        bytes32_display(&self.bytes)
    }
}

/// A digit that `hex_digit` writes is read back as the value it stands for.
pub proof fn lemma_hex_digit_value(n: int)
    requires
        0 <= n < 16,
    ensures
        hex_value(hex_digit(n)) == Some(n as u8),
{
}

/// Reading what was written gives the bytes back: the hexadecimal text of
/// any 32 bytes denotes those bytes, and it has no `0x` to drop.
pub proof fn lemma_decode_encode(bytes: Seq<u8>)
    requires
        bytes.len() == 32,
    ensures
        strip_0x(encode_hex(bytes)) == encode_hex(bytes),
        decode_hex32(encode_hex(bytes)) == Some(bytes),
{
    let text = encode_hex(bytes);
    assert forall|i: int| 0 <= i < 64 implies (#[trigger] hex_value(text[i])) is Some by {
        lemma_hex_digit_value(bytes[i / 2] as int / 16);
        lemma_hex_digit_value(bytes[i / 2] as int % 16);
    }
    assert(hex_value(text[1]) is Some);
    let decoded = Seq::new(32, |i: int| byte_at(text, i));
    assert forall|i: int| 0 <= i < 32 implies decoded[i] == bytes[i] by {
        lemma_hex_digit_value(bytes[i] as int / 16);
        lemma_hex_digit_value(bytes[i] as int % 16);
        assert(text[2 * i] == hex_digit(bytes[(2 * i) / 2] as int / 16));
        assert(text[2 * i + 1] == hex_digit(bytes[(2 * i + 1) / 2] as int % 16));
    }
    assert(decoded =~= bytes);
}

/// A leading `0x` changes nothing: prefixed text denotes the same bytes.
pub proof fn lemma_decode_prefixed(bytes: Seq<u8>)
    requires
        bytes.len() == 32,
    ensures
        decode_hex32(seq!['0', 'x'] + encode_hex(bytes)) == Some(bytes),
{
    lemma_decode_encode(bytes);
    assert(strip_0x(seq!['0', 'x'] + encode_hex(bytes)) =~= encode_hex(bytes));
}

} // verus!
