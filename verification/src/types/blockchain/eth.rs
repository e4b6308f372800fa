//! Ethereum addresses and public keys.

use vstd::prelude::*;
use vstd::string::StringSliceAdditionalSpecFns;
use nash_mpc::curves::secp256_k1_rust::Secp256k1Point;
use crate::errors::{ProtocolError, Result};
use crate::hash::{keccak256, keccak256_of};
use crate::hex;
use crate::mpc::{
    k1_hex_point, k1_point_from_hex, k1_point_text, k1_point_to_hex, k1_point_to_vec,
    k1_point_uncompressed,
};

verus! {

/// The number of bytes of an Ethereum address.
pub const ADDRESS_LEN: usize = 20;

/// An Ethereum address: 20 bytes, written as 40 hex digits.
#[derive(Debug, PartialEq)]
pub struct Address {
    inner: Vec<u8>,
}

impl View for Address {
    type V = Seq<u8>;

    /// The bytes of the address.
    closed spec fn view(&self) -> Seq<u8> {
        self.inner@
    }
}

/// What a text is as an Ethereum address: the bytes it spells in hex, if it
/// is hex and spells exactly 20 bytes.
pub open spec fn address_of_text(text: Seq<u8>) -> Option<Seq<u8>> {
    if hex::is_hex(text) && hex::decoded(text).len() == ADDRESS_LEN {
        Some(hex::decoded(text))
    } else {
        None
    }
}

/// The address of the key with the given uncompressed encoding: the last 20
/// bytes of the Keccak-256 digest of the encoding without its marker byte.
pub open spec fn address_of_key(uncompressed: Seq<u8>) -> Seq<u8> {
    keccak256_of(without_marker(uncompressed)).skip(12)
}

/// An encoding without its first byte, the marker.
pub open spec fn without_marker(encoded: Seq<u8>) -> Seq<u8> {
    if encoded.len() > 0 {
        encoded.skip(1)
    } else {
        encoded
    }
}

impl Clone for Address {
    fn clone(&self) -> (copy: Self)
        ensures
            copy@ == self@,
    {
        proof {
            use_type_invariant(self);
        }
        Self { inner: self.inner.clone() }
    }
}

impl Address {
    #[verifier::type_invariant]
    closed spec fn wf(&self) -> bool {
        self.inner@.len() == ADDRESS_LEN
    }

    /// Reads an address from hex text. Text that is not hex, or that does not
    /// spell 20 bytes, is a decoding error.
    pub fn new(s: &str) -> (res: Result<Self>)
        ensures
            res.is_ok() == address_of_text(s.spec_bytes()).is_some(),
            res matches Ok(address) ==> Some(address@) == address_of_text(s.spec_bytes()),
            res matches Err(e) ==> e@ == (if hex::is_hex(s.spec_bytes()) {
                "Invalid address, string hex length != 20"@
            } else {
                "Could not decode string to hex in ETH address"@
            }),
    {
        match hex::decode(s) {
            Some(inner) => {
                if inner.len() == ADDRESS_LEN {
                    Ok(Self { inner })
                } else {
                    Err(
                        ProtocolError::coerce_static_from_str(
                            "Invalid address, string hex length != 20",
                        ),
                    )
                }
            },
            None => Err(
                ProtocolError::coerce_static_from_str(
                    "Could not decode string to hex in ETH address",
                ),
            ),
        }
    }

    /// The 20 bytes of the address.
    pub fn to_bytes(&self) -> (bytes: Vec<u8>)
        ensures
            bytes@ == self@,
            bytes@.len() == ADDRESS_LEN,
    {
        proof {
            use_type_invariant(self);
        }
        self.inner.clone()
    }
}

/// An Ethereum public key: a point on secp256k1.
#[derive(Clone, Debug, PartialEq)]
pub struct PublicKey {
    inner: Secp256k1Point,
}

impl View for PublicKey {
    type V = Seq<char>;

    /// The hex text of the key's point.
    closed spec fn view(&self) -> Seq<char> {
        k1_point_text(self.inner)
    }
}

impl PublicKey {
    /// The uncompressed encoding of the key's point.
    pub closed spec fn uncompressed(&self) -> Seq<u8> {
        k1_point_uncompressed(self.inner)
    }

    /// Reads a public key from hex text. Text that encodes no point of
    /// secp256k1 is a decoding error.
    pub fn new(hex_str: &str) -> (res: Result<Self>)
        ensures
            res.is_ok() == k1_hex_point(hex_str@).is_some(),
            res matches Ok(key) ==> Some(key@) == k1_hex_point(hex_str@),
            res matches Err(e) ==> e@
                == "Could not create public key (Secp256k1Point) from hex string"@,
    {
        match k1_point_from_hex(hex_str) {
            Some(inner) => Ok(Self { inner }),
            None => Err(
                ProtocolError::coerce_static_from_str(
                    "Could not create public key (Secp256k1Point) from hex string",
                ),
            ),
        }
    }

    /// Derives the address of this key. It always succeeds, and gives the
    /// same address each time.
    pub fn to_address(&self) -> (address: Address)
        ensures
            address@ == address_of_key(self.uncompressed()),
    {
        let encoded = k1_point_to_vec(&self.inner);
        let mut body: Vec<u8> = Vec::new();
        let mut i: usize = 1;
        while i < encoded.len()
            invariant
                1 <= i,
                i <= encoded@.len() || encoded@.len() == 0,
                encoded@.len() > 0 ==> body@ == encoded@.subrange(1, i as int),
                encoded@.len() == 0 ==> body@ == encoded@,
            decreases encoded@.len() - i,
        {
            body.push(encoded[i]);
            assert(encoded@.subrange(1, i as int + 1) =~= encoded@.subrange(1, i as int).push(
                encoded@[i as int],
            ));
            i = i + 1;
        }
        assert(body@ =~= without_marker(encoded@));
        let digest = keccak256(&body);
        let mut inner: Vec<u8> = Vec::new();
        let mut j: usize = 12;
        while j < 32
            invariant
                12 <= j <= 32,
                digest@.len() == 32,
                inner@ == digest@.subrange(12, j as int),
            decreases 32 - j,
        {
            inner.push(digest[j]);
            assert(digest@.subrange(12, j as int + 1) =~= digest@.subrange(12, j as int).push(
                digest@[j as int],
            ));
            j = j + 1;
        }
        assert(inner@ =~= digest@.skip(12));
        Address { inner }
    }

    /// The hex text of the key's point.
    pub fn to_hex(&self) -> (text: String)
        ensures
            text@ == self@,
    {
        k1_point_to_hex(&self.inner)
    }
}

} // verus!
