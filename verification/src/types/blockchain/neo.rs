//! NEO addresses and public keys.

use vstd::prelude::*;
use vstd::string::StringSliceAdditionalSpecFns;
use nash_mpc::curves::secp256_r1::Secp256r1Point;
use crate::errors::{ProtocolError, Result};
use crate::hash::{ripemd160, ripemd160_of, sha256, sha256_of};
use crate::hex;
use crate::mpc::{
    r1_hex_point, r1_point_compressed, r1_point_from_hex, r1_point_text, r1_point_to_bytes,
    r1_point_to_hex,
};

verus! {

/// The number of bytes of a NEO address, the hash of its verification script.
pub const ADDRESS_LEN: usize = 20;

/// The script instruction that pushes the 33 bytes of a compressed key.
pub const PUSH_KEY: u8 = 0x21;

/// The script instruction that checks a signature.
pub const CHECK_SIG: u8 = 0xac;

/// A NEO address: the 20 bytes of a script hash, written as 40 hex digits.
#[derive(Debug, PartialEq)]
pub struct Address {
    inner: Vec<u8>,
}

impl View for Address {
    type V = Seq<u8>;

    /// The bytes of the address.
    closed spec fn view(&self) -> Seq<u8> {
        self.inner@
    }
}

impl Clone for Address {
    fn clone(&self) -> (copy: Self)
        ensures
            copy@ == self@,
    {
        proof {
            use_type_invariant(self);
        }
        Self { inner: self.inner.clone() }
    }
}

/// What a text is as a NEO address: the bytes it spells in hex, if it is hex
/// and spells exactly 20 bytes.
pub open spec fn address_of_text(text: Seq<u8>) -> Option<Seq<u8>> {
    if hex::is_hex(text) && hex::decoded(text).len() == ADDRESS_LEN {
        Some(hex::decoded(text))
    } else {
        None
    }
}

/// The script that verifies a signature of the key with the given compressed
/// encoding: push the key, check the signature.
pub open spec fn verification_script(compressed: Seq<u8>) -> Seq<u8> {
    seq![PUSH_KEY] + compressed + seq![CHECK_SIG]
}

/// The address of the key with the given compressed encoding: the RIPEMD-160
/// digest of the SHA-256 digest of its verification script.
pub open spec fn address_of_key(compressed: Seq<u8>) -> Seq<u8> {
    ripemd160_of(sha256_of(verification_script(compressed)))
}

impl Address {
    #[verifier::type_invariant]
    closed spec fn wf(&self) -> bool {
        self.inner@.len() == ADDRESS_LEN
    }

    /// Reads an address from hex text. Text that is not hex, or that does not
    /// spell 20 bytes, is a decoding error.
    pub fn new(s: &str) -> (res: Result<Self>)
        ensures
            res.is_ok() == address_of_text(s.spec_bytes()).is_some(),
            res matches Ok(address) ==> Some(address@) == address_of_text(s.spec_bytes()),
            res matches Err(e) ==> e@ == (if hex::is_hex(s.spec_bytes()) {
                "Invalid address, string hex length != 20"@
            } else {
                "Could not decode string to hex in NEO address"@
            }),
    {
        match hex::decode(s) {
            Some(inner) => {
                if inner.len() == ADDRESS_LEN {
                    Ok(Self { inner })
                } else {
                    Err(
                        ProtocolError::coerce_static_from_str(
                            "Invalid address, string hex length != 20",
                        ),
                    )
                }
            },
            None => Err(
                ProtocolError::coerce_static_from_str(
                    "Could not decode string to hex in NEO address",
                ),
            ),
        }
    }

    /// The 20 bytes of the address.
    pub fn to_bytes(&self) -> (bytes: Vec<u8>)
        ensures
            bytes@ == self@,
            bytes@.len() == ADDRESS_LEN,
    {
        proof {
            use_type_invariant(self);
        }
        self.inner.clone()
    }
}

/// A NEO public key: a point on secp256r1.
#[derive(Clone, Debug, PartialEq)]
pub struct PublicKey {
    inner: Secp256r1Point,
}

impl View for PublicKey {
    type V = Seq<char>;

    /// The hex text of the key's point.
    closed spec fn view(&self) -> Seq<char> {
        r1_point_text(self.inner)
    }
}

impl PublicKey {
    /// The compressed encoding of the key's point.
    pub closed spec fn compressed(&self) -> Seq<u8> {
        r1_point_compressed(self.inner)
    }

    /// Reads a public key from hex text. Text that encodes no point of
    /// secp256r1 is a decoding error.
    pub fn new(hex_str: &str) -> (res: Result<Self>)
        ensures
            res.is_ok() == r1_hex_point(hex_str@).is_some(),
            res matches Ok(key) ==> Some(key@) == r1_hex_point(hex_str@),
            res matches Err(e) ==> e@
                == "Could not create public key (Secp256r1Point) from hex string"@,
    {
        match r1_point_from_hex(hex_str) {
            Some(inner) => Ok(Self { inner }),
            None => Err(
                ProtocolError::coerce_static_from_str(
                    "Could not create public key (Secp256r1Point) from hex string",
                ),
            ),
        }
    }

    /// Derives the address of this key. It always succeeds, and gives the
    /// same address each time.
    pub fn to_address(&self) -> (address: Address)
        ensures
            address@ == address_of_key(self.compressed()),
    {
        let encoded = r1_point_to_bytes(&self.inner);
        let mut script: Vec<u8> = Vec::new();
        script.push(PUSH_KEY);
        let mut i: usize = 0;
        while i < encoded.len()
            invariant
                i <= encoded@.len(),
                script@ == seq![PUSH_KEY] + encoded@.subrange(0, i as int),
            decreases encoded@.len() - i,
        {
            script.push(encoded[i]);
            assert(encoded@.subrange(0, i as int + 1) =~= encoded@.subrange(0, i as int).push(
                encoded@[i as int],
            ));
            i = i + 1;
        }
        script.push(CHECK_SIG);
        assert(script@ =~= verification_script(encoded@));
        let inner = ripemd160(&sha256(&script));
        Address { inner }
    }

    /// The hex text of the key's point.
    pub fn to_hex(&self) -> (text: String)
        ensures
            text@ == self@,
    {
        r1_point_to_hex(&self.inner)
    }
}

} // verus!
