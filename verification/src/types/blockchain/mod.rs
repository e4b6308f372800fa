//! Types used across protocol requests for building and validating blockchain
//! payload data: the operation prefix, and addresses and public keys tagged by
//! the blockchain they belong to.

pub mod btc;
pub mod eth;
pub mod neo;

use vstd::prelude::*;
use vstd::std_specs::convert::TryFromSpecImpl;
use vstd::string::StringSliceAdditionalSpecFns;
use std::convert::TryFrom;
use crate::mpc::{k1_hex_point, r1_hex_point};
use crate::errors::{ProtocolError, Result};
use crate::types::{Asset, Blockchain};

verus! {

/// The operation that a signed binary payload stands for, written as its first
/// byte. The byte is the same on every blockchain.
#[derive(Clone, Copy, Debug, PartialEq, Eq, Structural)]
pub enum Prefix {
    SyncState,
    FillOrder,
    Deposit,
    Withdrawal,
}

impl Prefix {
    /// The byte that stands for this prefix.
    pub open spec fn byte(self) -> u8 {
        match self {
            Prefix::SyncState => 0x00,
            Prefix::FillOrder => 0x01,
            Prefix::Deposit => 0x02,
            Prefix::Withdrawal => 0x03,
        }
    }

    /// The prefix that a byte stands for, if it stands for one.
    pub open spec fn of_byte(b: u8) -> Option<Prefix> {
        if b == 0x00 {
            Some(Prefix::SyncState)
        } else if b == 0x01 {
            Some(Prefix::FillOrder)
        } else if b == 0x02 {
            Some(Prefix::Deposit)
        } else if b == 0x03 {
            Some(Prefix::Withdrawal)
        } else {
            None
        }
    }

    /// Encodes the prefix in a buffer of one byte.
    pub fn to_bytes(&self) -> (bytes: [u8; 1])
        ensures
            bytes[0] == self.byte(),
    {
        match self {
            Self::SyncState => [0x00],
            Self::FillOrder => [0x01],
            Self::Deposit => [0x02],
            Self::Withdrawal => [0x03],
        }
    }

    /// Decodes a prefix from a buffer of one byte. Any byte other than the
    /// four prefix bytes is a decoding error.
    pub fn from_bytes(bytes: [u8; 1]) -> (res: Result<Self>)
        ensures
            res.is_ok() == Self::of_byte(bytes[0]).is_some(),
            res matches Ok(p) ==> Some(p) == Self::of_byte(bytes[0]),
            res matches Err(e) ==> e@ == "Invalid prefix byte"@,
    {
        let b = bytes[0];
        if b == 0x00 {
            Ok(Self::SyncState)
        } else if b == 0x01 {
            Ok(Self::FillOrder)
        } else if b == 0x02 {
            Ok(Self::Deposit)
        } else if b == 0x03 {
            Ok(Self::Withdrawal)
        } else {
            Err(ProtocolError::coerce_static_from_str("Invalid prefix byte"))
        }
    }

    /// Decoding what `to_bytes` encoded gives the prefix back.
    pub proof fn lemma_decode_encode(p: Prefix)
        ensures
            Self::of_byte(p.byte()) == Some(p),
    {
    }

    /// A byte decodes to a prefix exactly when it is one of `0x00` to `0x03`,
    /// and then it is the byte of that prefix.
    pub proof fn lemma_encode_decode(b: u8)
        ensures
            Self::of_byte(b).is_some() <==> b <= 0x03,
            Self::of_byte(b) matches Some(p) ==> p.byte() == b,
    {
    }
}

/// An address on one of the blockchains, tagged by the blockchain.
#[derive(Clone, Debug, PartialEq)]
pub enum Address {
    Ethereum(eth::Address),
    Bitcoin(btc::Address),
    NEO(neo::Address),
}

/// What a text is as an address of a blockchain: the bytes of the address, or
/// `None` where the text is malformed for that blockchain.
pub open spec fn address_of_text(chain: Blockchain, text: Seq<u8>) -> Option<Seq<u8>> {
    match chain {
        Blockchain::Bitcoin => btc::address_of_text(text),
        Blockchain::Ethereum => eth::address_of_text(text),
        Blockchain::NEO => neo::address_of_text(text),
    }
}

/// The message of the error for a text that is no address of a blockchain.
pub open spec fn address_error(chain: Blockchain, text: Seq<u8>) -> Seq<char> {
    if crate::hex::is_hex(text) {
        "Invalid address, string hex length != 20"@
    } else {
        match chain {
            Blockchain::Bitcoin => "Could not decode string to hex in BTC address"@,
            Blockchain::Ethereum => "Could not decode string to hex in ETH address"@,
            Blockchain::NEO => "Could not decode string to hex in NEO address"@,
        }
    }
}

impl Address {
    /// The blockchain of this address.
    pub open spec fn spec_blockchain(&self) -> Blockchain {
        match self {
            Address::Ethereum(_) => Blockchain::Ethereum,
            Address::Bitcoin(_) => Blockchain::Bitcoin,
            Address::NEO(_) => Blockchain::NEO,
        }
    }

    /// The bytes of this address.
    pub open spec fn bytes(&self) -> Seq<u8> {
        match self {
            Address::Ethereum(address) => address@,
            Address::Bitcoin(address) => address@,
            Address::NEO(address) => address@,
        }
    }

    /// Reads an address of the given blockchain from hex text, with the
    /// parser of that blockchain. Text that is malformed for the blockchain is
    /// a decoding error.
    pub fn new(chain: Blockchain, hex_str: &str) -> (res: Result<Self>)
        ensures
            res.is_ok() == address_of_text(chain, hex_str.spec_bytes()).is_some(),
            res matches Ok(address) ==> address.spec_blockchain() == chain && Some(address.bytes())
                == address_of_text(chain, hex_str.spec_bytes()),
            res matches Err(e) ==> e@ == address_error(chain, hex_str.spec_bytes()),
    {
        match chain {
            Blockchain::Bitcoin => match btc::Address::new(hex_str) {
                Ok(address) => Ok(Self::Bitcoin(address)),
                Err(e) => Err(e),
            },
            Blockchain::Ethereum => match eth::Address::new(hex_str) {
                Ok(address) => Ok(Self::Ethereum(address)),
                Err(e) => Err(e),
            },
            Blockchain::NEO => match neo::Address::new(hex_str) {
                Ok(address) => Ok(Self::NEO(address)),
                Err(e) => Err(e),
            },
        }
    }

    /// The blockchain of this address.
    #[verifier::when_used_as_spec(spec_blockchain)]
    pub fn blockchain(&self) -> (chain: Blockchain)
        ensures
            chain == self.spec_blockchain(),
    {
        match self {
            Self::Ethereum(_) => Blockchain::Ethereum,
            Self::Bitcoin(_) => Blockchain::Bitcoin,
            Self::NEO(_) => Blockchain::NEO,
        }
    }
}

impl TryFrom<Address> for eth::Address {
    type Error = ProtocolError;

    /// Narrows to an Ethereum address. It succeeds exactly on an address with
    /// that tag, and hands out the address inside; any other is a
    /// chain-mismatch error.
    fn try_from(address: Address) -> (res: Result<Self>)
        ensures
            res.is_ok() == (address.spec_blockchain() == Blockchain::Ethereum),
            res matches Ok(inner) ==> address == Address::Ethereum(inner),
            res matches Err(e) ==> e@ == "Tried to convert from something that is not an ETH address"@,
    {
        match address {
            Address::Ethereum(address) => Ok(address),
            _ => Err(
                ProtocolError::coerce_static_from_str(
                    "Tried to convert from something that is not an ETH address",
                ),
            ),
        }
    }
}

impl TryFromSpecImpl<Address> for eth::Address {
    /// The contract of this conversion is stated on `try_from` itself: an
    /// error is known by the characters of its message, not as a whole value.
    open spec fn obeys_try_from_spec() -> bool {
        false
    }

    open spec fn try_from_spec(address: Address) -> Result<Self> {
        arbitrary()
    }
}

impl TryFrom<Address> for neo::Address {
    type Error = ProtocolError;

    /// Narrows to a NEO address. It succeeds exactly on an address with
    /// that tag, and hands out the address inside; any other is a
    /// chain-mismatch error.
    fn try_from(address: Address) -> (res: Result<Self>)
        ensures
            res.is_ok() == (address.spec_blockchain() == Blockchain::NEO),
            res matches Ok(inner) ==> address == Address::NEO(inner),
            res matches Err(e) ==> e@ == "Tried to convert from something that is not an NEO address"@,
    {
        match address {
            Address::NEO(address) => Ok(address),
            _ => Err(
                ProtocolError::coerce_static_from_str(
                    "Tried to convert from something that is not an NEO address",
                ),
            ),
        }
    }
}

impl TryFromSpecImpl<Address> for neo::Address {
    /// The contract of this conversion is stated on `try_from` itself: an
    /// error is known by the characters of its message, not as a whole value.
    open spec fn obeys_try_from_spec() -> bool {
        false
    }

    open spec fn try_from_spec(address: Address) -> Result<Self> {
        arbitrary()
    }
}

impl TryFrom<Address> for btc::Address {
    type Error = ProtocolError;

    /// Narrows to a Bitcoin address. It succeeds exactly on an address with
    /// that tag, and hands out the address inside; any other is a
    /// chain-mismatch error.
    fn try_from(address: Address) -> (res: Result<Self>)
        ensures
            res.is_ok() == (address.spec_blockchain() == Blockchain::Bitcoin),
            res matches Ok(inner) ==> address == Address::Bitcoin(inner),
            res matches Err(e) ==> e@ == "Tried to convert from something that is not an BTC address"@,
    {
        match address {
            Address::Bitcoin(address) => Ok(address),
            _ => Err(
                ProtocolError::coerce_static_from_str(
                    "Tried to convert from something that is not an BTC address",
                ),
            ),
        }
    }
}

impl TryFromSpecImpl<Address> for btc::Address {
    /// The contract of this conversion is stated on `try_from` itself: an
    /// error is known by the characters of its message, not as a whole value.
    open spec fn obeys_try_from_spec() -> bool {
        false
    }

    open spec fn try_from_spec(address: Address) -> Result<Self> {
        arbitrary()
    }
}

/// Either a tradable asset, or the mark of an operation that spans blockchains
/// and so has no single asset.
#[derive(Clone, Copy, Debug, PartialEq, Eq, Structural)]
pub enum AssetOrCrosschain {
    Asset(Asset),
    Crosschain,
}

/// A public key on one of the blockchains, tagged by the blockchain.
#[derive(Clone, Debug, PartialEq)]
pub enum PublicKey {
    Bitcoin(btc::PublicKey),
    Ethereum(eth::PublicKey),
    NEO(neo::PublicKey),
}

/// What a text is as a public key of a blockchain: the hex text of the key's
/// point, or `None` where the text encodes no point of the blockchain's curve.
pub open spec fn key_of_text(chain: Blockchain, text: Seq<char>) -> Option<Seq<char>> {
    match chain {
        Blockchain::Bitcoin => k1_hex_point(text),
        Blockchain::Ethereum => k1_hex_point(text),
        Blockchain::NEO => r1_hex_point(text),
    }
}

/// The message of the error for a text that is no public key of a
/// blockchain.
pub open spec fn key_error(chain: Blockchain) -> Seq<char> {
    match chain {
        Blockchain::Bitcoin => "Could not create BTC public key from hex string"@,
        Blockchain::Ethereum => "Could not create public key (Secp256k1Point) from hex string"@,
        Blockchain::NEO => "Could not create public key (Secp256r1Point) from hex string"@,
    }
}

impl PublicKey {
    /// The blockchain of this key.
    pub open spec fn spec_blockchain(&self) -> Blockchain {
        match self {
            PublicKey::Bitcoin(_) => Blockchain::Bitcoin,
            PublicKey::Ethereum(_) => Blockchain::Ethereum,
            PublicKey::NEO(_) => Blockchain::NEO,
        }
    }

    /// The hex text of this key's point.
    pub open spec fn text(&self) -> Seq<char> {
        match self {
            PublicKey::Bitcoin(key) => key@,
            PublicKey::Ethereum(key) => key@,
            PublicKey::NEO(key) => key@,
        }
    }

    /// The bytes of the address of this key, as the key's blockchain derives
    /// them, or `None` where the derivation fails.
    pub open spec fn address_bytes(&self) -> Option<Seq<u8>> {
        match self {
            PublicKey::Bitcoin(key) => btc::address_of_key(key@),
            PublicKey::Ethereum(key) => Some(eth::address_of_key(key.uncompressed())),
            PublicKey::NEO(key) => Some(neo::address_of_key(key.compressed())),
        }
    }

    /// Reads a public key of the given blockchain from hex text. Text that
    /// encodes no point of the blockchain's curve is a decoding error.
    pub fn new(chain: Blockchain, hex_str: &str) -> (res: Result<Self>)
        ensures
            res.is_ok() == key_of_text(chain, hex_str@).is_some(),
            res matches Ok(key) ==> key.spec_blockchain() == chain && Some(key.text())
                == key_of_text(chain, hex_str@),
            res matches Err(e) ==> e@ == key_error(chain),
    {
        match chain {
            Blockchain::Bitcoin => match btc::PublicKey::new(hex_str) {
                Ok(key) => Ok(Self::Bitcoin(key)),
                Err(e) => Err(e),
            },
            Blockchain::Ethereum => match eth::PublicKey::new(hex_str) {
                Ok(key) => Ok(Self::Ethereum(key)),
                Err(e) => Err(e),
            },
            Blockchain::NEO => match neo::PublicKey::new(hex_str) {
                Ok(key) => Ok(Self::NEO(key)),
                Err(e) => Err(e),
            },
        }
    }

    /// The blockchain of this key.
    #[verifier::when_used_as_spec(spec_blockchain)]
    pub fn blockchain(&self) -> (chain: Blockchain)
        ensures
            chain == self.spec_blockchain(),
    {
        match self {
            Self::Bitcoin(_) => Blockchain::Bitcoin,
            Self::Ethereum(_) => Blockchain::Ethereum,
            Self::NEO(_) => Blockchain::NEO,
        }
    }

    /// The hex text of this key's point.
    pub fn to_hex_str(&self) -> (text: String)
        ensures
            text@ == self.text(),
    {
        match self {
            Self::Bitcoin(key) => key.to_hex(),
            Self::Ethereum(key) => key.to_hex(),
            Self::NEO(key) => key.to_hex(),
        }
    }

    /// Derives the address of this key on the key's own blockchain. The
    /// address depends on the key alone: deriving it again gives the same
    /// address. For Ethereum and NEO the derivation cannot fail; for Bitcoin
    /// it fails where the key's text does not decode.
    pub fn to_address(&self) -> (res: Result<Address>)
        ensures
            res.is_ok() == self.address_bytes().is_some(),
            res matches Ok(address) ==> address.spec_blockchain() == self.spec_blockchain()
                && Some(address.bytes()) == self.address_bytes(),
            !(self is Bitcoin) ==> res.is_ok(),
            res matches Err(e) ==> e@ == "Could not derive BTC address from public key"@,
    {
        match self {
            Self::Bitcoin(key) => match key.to_address() {
                Ok(address) => Ok(Address::Bitcoin(address)),
                Err(e) => Err(e),
            },
            Self::Ethereum(key) => Ok(Address::Ethereum(key.to_address())),
            Self::NEO(key) => Ok(Address::NEO(key.to_address())),
        }
    }
}

impl TryFrom<PublicKey> for eth::PublicKey {
    type Error = ProtocolError;

    /// Narrows to an Ethereum public key. It succeeds exactly on a key with that
    /// tag, and hands out the key inside; any other is a chain-mismatch
    /// error.
    fn try_from(key: PublicKey) -> (res: Result<Self>)
        ensures
            res.is_ok() == (key.spec_blockchain() == Blockchain::Ethereum),
            res matches Ok(inner) ==> key == PublicKey::Ethereum(inner),
            res matches Err(e) ==> e@ == "Tried to convert from something that is not an ETH public key"@,
    {
        match key {
            PublicKey::Ethereum(pub_key) => Ok(pub_key),
            _ => Err(
                ProtocolError::coerce_static_from_str(
                    "Tried to convert from something that is not an ETH public key",
                ),
            ),
        }
    }
}

impl TryFromSpecImpl<PublicKey> for eth::PublicKey {
    /// The contract of this conversion is stated on `try_from` itself: an
    /// error is known by the characters of its message, not as a whole value.
    open spec fn obeys_try_from_spec() -> bool {
        false
    }

    open spec fn try_from_spec(key: PublicKey) -> Result<Self> {
        arbitrary()
    }
}

impl TryFrom<PublicKey> for neo::PublicKey {
    type Error = ProtocolError;

    /// Narrows to a NEO public key. It succeeds exactly on a key with that
    /// tag, and hands out the key inside; any other is a chain-mismatch
    /// error.
    fn try_from(key: PublicKey) -> (res: Result<Self>)
        ensures
            res.is_ok() == (key.spec_blockchain() == Blockchain::NEO),
            res matches Ok(inner) ==> key == PublicKey::NEO(inner),
            res matches Err(e) ==> e@ == "Tried to convert from something that is not an NEO public key"@,
    {
        match key {
            PublicKey::NEO(pub_key) => Ok(pub_key),
            _ => Err(
                ProtocolError::coerce_static_from_str(
                    "Tried to convert from something that is not an NEO public key",
                ),
            ),
        }
    }
}

impl TryFromSpecImpl<PublicKey> for neo::PublicKey {
    /// The contract of this conversion is stated on `try_from` itself: an
    /// error is known by the characters of its message, not as a whole value.
    open spec fn obeys_try_from_spec() -> bool {
        false
    }

    open spec fn try_from_spec(key: PublicKey) -> Result<Self> {
        arbitrary()
    }
}

impl TryFrom<PublicKey> for btc::PublicKey {
    type Error = ProtocolError;

    /// Narrows to a Bitcoin public key. It succeeds exactly on a key with that
    /// tag, and hands out the key inside; any other is a chain-mismatch
    /// error.
    fn try_from(key: PublicKey) -> (res: Result<Self>)
        ensures
            res.is_ok() == (key.spec_blockchain() == Blockchain::Bitcoin),
            res matches Ok(inner) ==> key == PublicKey::Bitcoin(inner),
            res matches Err(e) ==> e@ == "Tried to convert from something that is not an BTC public key"@,
    {
        match key {
            PublicKey::Bitcoin(pub_key) => Ok(pub_key),
            _ => Err(
                ProtocolError::coerce_static_from_str(
                    "Tried to convert from something that is not an BTC public key",
                ),
            ),
        }
    }
}

impl TryFromSpecImpl<PublicKey> for btc::PublicKey {
    /// The contract of this conversion is stated on `try_from` itself: an
    /// error is known by the characters of its message, not as a whole value.
    open spec fn obeys_try_from_spec() -> bool {
        false
    }

    open spec fn try_from_spec(key: PublicKey) -> Result<Self> {
        arbitrary()
    }
}

/// The two kinds of movement of funds.
#[derive(Clone, Copy, Debug, PartialEq, Eq, Structural)]
pub enum MovementType {
    Deposit,
    Withdrawal,
}

impl MovementType {
    /// The prefix of the payload that stands for this movement.
    pub open spec fn prefix(self) -> Prefix {
        match self {
            MovementType::Deposit => Prefix::Deposit,
            MovementType::Withdrawal => Prefix::Withdrawal,
        }
    }

    /// The prefix of the payload that stands for this movement.
    pub fn to_prefix(&self) -> (p: Prefix)
        ensures
            p == self.prefix(),
    {
        match self {
            Self::Deposit => Prefix::Deposit,
            Self::Withdrawal => Prefix::Withdrawal,
        }
    }
}

} // verus!
