//! Bitcoin addresses and public keys.

use vstd::prelude::*;
use vstd::string::StringSliceAdditionalSpecFns;
use nash_mpc::curves::secp256_k1_rust::Secp256k1Point;
use crate::errors::{ProtocolError, Result};
use crate::hash::{ripemd160, ripemd160_of, sha256, sha256_of};
use crate::hex;
use crate::mpc::{k1_hex_point, k1_point_from_hex, k1_point_text, k1_point_to_hex};

verus! {

/// The number of bytes of a Bitcoin address, the hash of its public key.
pub const ADDRESS_LEN: usize = 20;

/// A Bitcoin address: the 20 bytes of a public-key hash, written as 40 hex
/// digits.
#[derive(Debug, PartialEq)]
pub struct Address {
    inner: Vec<u8>,
}

impl View for Address {
    type V = Seq<u8>;

    /// The bytes of the address.
    closed spec fn view(&self) -> Seq<u8> {
        self.inner@
    }
}

impl Clone for Address {
    fn clone(&self) -> (copy: Self)
        ensures
            copy@ == self@,
    {
        proof {
            use_type_invariant(self);
        }
        Self { inner: self.inner.clone() }
    }
}

/// What a text is as a Bitcoin address: the bytes it spells in hex, if it is
/// hex and spells exactly 20 bytes.
pub open spec fn address_of_text(text: Seq<u8>) -> Option<Seq<u8>> {
    if hex::is_hex(text) && hex::decoded(text).len() == ADDRESS_LEN {
        Some(hex::decoded(text))
    } else {
        None
    }
}

/// The address of the key with the given hex text, if the text is hex: the
/// RIPEMD-160 digest of the SHA-256 digest of the bytes that the text spells,
/// which are the key's compressed encoding.
pub open spec fn address_of_key(key_text: Seq<char>) -> Option<Seq<u8>> {
    let text = vstd::utf8::encode_utf8(key_text);
    if hex::is_hex(text) {
        Some(ripemd160_of(sha256_of(hex::decoded(text))))
    } else {
        None
    }
}

impl Address {
    #[verifier::type_invariant]
    closed spec fn wf(&self) -> bool {
        self.inner@.len() == ADDRESS_LEN
    }

    /// Reads an address from hex text. Text that is not hex, or that does not
    /// spell 20 bytes, is a decoding error.
    pub fn new(s: &str) -> (res: Result<Self>)
        ensures
            res.is_ok() == address_of_text(s.spec_bytes()).is_some(),
            res matches Ok(address) ==> Some(address@) == address_of_text(s.spec_bytes()),
            res matches Err(e) ==> e@ == (if hex::is_hex(s.spec_bytes()) {
                "Invalid address, string hex length != 20"@
            } else {
                "Could not decode string to hex in BTC address"@
            }),
    {
        match hex::decode(s) {
            Some(inner) => {
                if inner.len() == ADDRESS_LEN {
                    Ok(Self { inner })
                } else {
                    Err(
                        ProtocolError::coerce_static_from_str(
                            "Invalid address, string hex length != 20",
                        ),
                    )
                }
            },
            None => Err(
                ProtocolError::coerce_static_from_str(
                    "Could not decode string to hex in BTC address",
                ),
            ),
        }
    }

    /// The 20 bytes of the address.
    pub fn to_bytes(&self) -> (bytes: Vec<u8>)
        ensures
            bytes@ == self@,
            bytes@.len() == ADDRESS_LEN,
    {
        proof {
            use_type_invariant(self);
        }
        self.inner.clone()
    }
}

/// A Bitcoin public key: a point on secp256k1.
#[derive(Clone, Debug, PartialEq)]
pub struct PublicKey {
    inner: Secp256k1Point,
}

impl View for PublicKey {
    type V = Seq<char>;

    /// The hex text of the key's point.
    closed spec fn view(&self) -> Seq<char> {
        k1_point_text(self.inner)
    }
}

impl PublicKey {
    /// Reads a public key from hex text. Text that encodes no point of
    /// secp256k1 is a decoding error.
    pub fn new(hex_str: &str) -> (res: Result<Self>)
        ensures
            res.is_ok() == k1_hex_point(hex_str@).is_some(),
            res matches Ok(key) ==> Some(key@) == k1_hex_point(hex_str@),
            res matches Err(e) ==> e@ == "Could not create BTC public key from hex string"@,
    {
        match k1_point_from_hex(hex_str) {
            Some(inner) => Ok(Self { inner }),
            None => Err(
                ProtocolError::coerce_static_from_str(
                    "Could not create BTC public key from hex string",
                ),
            ),
        }
    }

    /// Derives the address of this key from the key's hex text. The
    /// derivation fails if that text does not decode to bytes; otherwise it
    /// gives the same address each time.
    pub fn to_address(&self) -> (res: Result<Address>)
        ensures
            res.is_ok() == address_of_key(self@).is_some(),
            res matches Ok(address) ==> Some(address@) == address_of_key(self@),
            res matches Err(e) ==> e@ == "Could not derive BTC address from public key"@,
    {
        let text = k1_point_to_hex(&self.inner);
        match hex::decode(text.as_str()) {
            Some(compressed) => {
                let inner = ripemd160(&sha256(&compressed));
                Ok(Address { inner })
            },
            None => Err(
                ProtocolError::coerce_static_from_str(
                    "Could not derive BTC address from public key",
                ),
            ),
        }
    }

    /// The hex text of the key's point.
    pub fn to_hex(&self) -> (text: String)
        ensures
            text@ == self@,
    {
        k1_point_to_hex(&self.inner)
    }
}

} // verus!
