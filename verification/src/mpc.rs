//! The curve points, scalars and Diffie-Hellman routines of the
//! threshold-signature library, as far as the protocol core uses them.
//!
//! Nothing in this file is proved: each item states what the outside routine
//! does, and the rest of the crate is verified against these statements.
//! Points and scalars are carried through as opaque values; what the contracts
//! say of a point, they say of its canonical hex text.

use vstd::prelude::*;
use vstd::string::StringSliceAdditionalSpecFns;
use nash_mpc::curves::secp256_k1_rust::{Secp256k1Point, Secp256k1Scalar};
use nash_mpc::curves::secp256_r1::{Secp256r1Point, Secp256r1Scalar};
use nash_mpc::curves::traits::ECPoint;
use nash_mpc::paillier_common::{EncryptionKey, MinimalEncryptionKey};
use nash_mpc::rust_bigint::BigInt;
use nash_mpc::rust_bigint::traits::Converter;

verus! {

/// A point on the curve secp256k1.
#[verifier::external_type_specification]
#[verifier::external_body]
pub struct ExSecp256k1Point(Secp256k1Point);

/// A scalar of the curve secp256k1.
#[verifier::external_type_specification]
#[verifier::external_body]
pub struct ExSecp256k1Scalar(Secp256k1Scalar);

/// A point on the curve secp256r1.
#[verifier::external_type_specification]
#[verifier::external_body]
pub struct ExSecp256r1Point(Secp256r1Point);

/// A scalar of the curve secp256r1.
#[verifier::external_type_specification]
#[verifier::external_body]
pub struct ExSecp256r1Scalar(Secp256r1Scalar);

/// `Secp256k1Point::clone`, which the library derives: the copy is the same
/// point.
pub assume_specification[ <Secp256k1Point as Clone>::clone ](point: &Secp256k1Point) -> (res:
    Secp256k1Point)
    ensures
        res == *point,
;

/// `Secp256r1Point::clone`, which the library derives: the copy is the same
/// point.
pub assume_specification[ <Secp256r1Point as Clone>::clone ](point: &Secp256r1Point) -> (res:
    Secp256r1Point)
    ensures
        res == *point,
;

/// The text that `Secp256k1Point::to_hex` gives for a point: its compressed
/// encoding in hex.
pub uninterp spec fn k1_point_text(point: Secp256k1Point) -> Seq<char>;

/// The text that `Secp256r1Point::to_hex` gives for a point: its compressed
/// encoding in hex.
pub uninterp spec fn r1_point_text(point: Secp256r1Point) -> Seq<char>;

/// What `Secp256k1Point::from_hex` makes of a text: the point it reads, given
/// by that point's own text, or `None` where the text encodes no point of the
/// curve.
pub uninterp spec fn k1_hex_point(text: Seq<char>) -> Option<Seq<char>>;

/// What `Secp256r1Point::from_hex` makes of a text: the point it reads, given
/// by that point's own text, or `None` where the text encodes no point of the
/// curve.
pub uninterp spec fn r1_hex_point(text: Seq<char>) -> Option<Seq<char>>;

/// The bytes that `Secp256k1Point::to_vec` gives for a point: its
/// uncompressed encoding, a marker byte followed by the two coordinates.
pub uninterp spec fn k1_point_uncompressed(point: Secp256k1Point) -> Seq<u8>;

/// The bytes that `Secp256r1Point::to_bytes` gives for a point: its
/// compressed encoding.
pub uninterp spec fn r1_point_compressed(point: Secp256r1Point) -> Seq<u8>;

/// Calls `Secp256k1Point::to_vec`. The result depends on the point alone.
#[verifier::external_body]
pub(crate) fn k1_point_to_vec(point: &Secp256k1Point) -> (bytes: Vec<u8>)
    ensures
        bytes@ == k1_point_uncompressed(*point),
{
    point.to_vec()
}

/// Calls `Secp256r1Point::to_bytes`. The result depends on the point alone.
#[verifier::external_body]
pub(crate) fn r1_point_to_bytes(point: &Secp256r1Point) -> (bytes: Vec<u8>)
    ensures
        bytes@ == r1_point_compressed(*point),
{
    point.to_bytes()
}

/// Calls `Secp256k1Point::to_hex`. The result depends on the point alone.
#[verifier::external_body]
pub(crate) fn k1_point_to_hex(point: &Secp256k1Point) -> (text: String)
    ensures
        text@ == k1_point_text(*point),
{
    point.to_hex()
}

/// Calls `Secp256r1Point::to_hex`. The result depends on the point alone.
#[verifier::external_body]
pub(crate) fn r1_point_to_hex(point: &Secp256r1Point) -> (text: String)
    ensures
        text@ == r1_point_text(*point),
{
    point.to_hex()
}

/// Calls `Secp256k1Point::from_hex`, which parses the text as a hex number
/// and reads that number's bytes as an encoded point. It fails, without
/// panicking, on any text that is no such encoding; whether it does depends on
/// the text alone.
#[verifier::external_body]
pub(crate) fn k1_point_from_hex(text: &str) -> (point: Option<Secp256k1Point>)
    ensures
        match point {
            Some(p) => k1_hex_point(text@) == Some(k1_point_text(p)),
            None => k1_hex_point(text@).is_none(),
        },
{
    Secp256k1Point::from_hex(text).ok()
}

/// Calls `Secp256r1Point::from_hex`, which parses the text as a hex number
/// and reads that number's bytes as an encoded point. It fails, without
/// panicking, on any text that is no such encoding; whether it does depends on
/// the text alone.
#[verifier::external_body]
pub(crate) fn r1_point_from_hex(text: &str) -> (point: Option<Secp256r1Point>)
    ensures
        match point {
            Some(p) => r1_hex_point(text@) == Some(r1_point_text(p)),
            None => r1_hex_point(text@).is_none(),
        },
{
    Secp256r1Point::from_hex(text).ok()
}

/// Calls `nash_mpc::common::dh_init_secp256k1`, which draws `n` fresh random
/// scalars and multiplies the curve's generator by each. It refuses more than
/// 100 at once, and fails if the source of randomness or the curve arithmetic
/// does. When it succeeds there are `n` secrets and `n` public points, in
/// matching order.
#[verifier::external_body]
pub(crate) fn dh_init_k1(n: usize) -> (res: Option<(Vec<Secp256k1Scalar>, Vec<Secp256k1Point>)>)
    ensures
        n > 100 ==> res.is_none(),
        res matches Some(pair) ==> pair.0@.len() == n && pair.1@.len() == n,
{
    nash_mpc::common::dh_init_secp256k1(n).ok()
}

/// Calls `nash_mpc::common::dh_init_secp256r1`, which draws `n` fresh random
/// scalars and multiplies the curve's generator by each. It refuses more than
/// 100 at once, and fails if the source of randomness or the curve arithmetic
/// does. When it succeeds there are `n` secrets and `n` public points, in
/// matching order.
#[verifier::external_body]
pub(crate) fn dh_init_r1(n: usize) -> (res: Option<(Vec<Secp256r1Scalar>, Vec<Secp256r1Point>)>)
    ensures
        n > 100 ==> res.is_none(),
        res matches Some(pair) ==> pair.0@.len() == n && pair.1@.len() == n,
{
    nash_mpc::common::dh_init_secp256r1(n).ok()
}

/// A Paillier modulus in hex: digits only, no sign, and not zero.
pub open spec fn is_positive_hex(text: Seq<u8>) -> bool {
    &&& forall|i: int| 0 <= i < text.len() ==> (#[trigger] crate::hex::digit_value(text[i])).is_some()
    &&& exists|i: int| 0 <= i < text.len() && #[trigger] crate::hex::digit_value(text[i]) != Some(0u8)
}

/// Calls `nash_mpc::client::fill_rpool_secp256k1` with the Paillier key of the
/// given modulus. The routine multiplies each server point by the secret at the
/// same position, stores the shared values in the library's pool of one-time
/// values for secp256k1, and stocks as many random values for Paillier. It
/// fails, and stores nothing, exactly when the two lists differ in length.
/// The modulus must be positive: the routine panics on one that is not.
#[verifier::external_body]
pub(crate) fn fill_rpool_k1(
    secrets: Vec<Secp256k1Scalar>,
    server_publics: &Vec<Secp256k1Point>,
    paillier_modulus: &str,
) -> (filled: bool)
    requires
        is_positive_hex(paillier_modulus.spec_bytes()),
    ensures
        filled == (secrets@.len() == server_publics@.len()),
{
    let n = BigInt::from_hex(paillier_modulus).unwrap();
    let key = EncryptionKey::from(MinimalEncryptionKey { n });
    nash_mpc::client::fill_rpool_secp256k1(secrets, server_publics.as_slice(), &key).is_ok()
}

/// Calls `nash_mpc::client::fill_rpool_secp256r1` with the Paillier key of the
/// given modulus. The routine multiplies each server point by the secret at the
/// same position, stores the shared values in the library's pool of one-time
/// values for secp256r1, and stocks as many random values for Paillier. It
/// fails, and stores nothing, exactly when the two lists differ in length.
/// The modulus must be positive: the routine panics on one that is not.
#[verifier::external_body]
pub(crate) fn fill_rpool_r1(
    secrets: Vec<Secp256r1Scalar>,
    server_publics: &Vec<Secp256r1Point>,
    paillier_modulus: &str,
) -> (filled: bool)
    requires
        is_positive_hex(paillier_modulus.spec_bytes()),
    ensures
        filled == (secrets@.len() == server_publics@.len()),
{
    let n = BigInt::from_hex(paillier_modulus).unwrap();
    let key = EncryptionKey::from(MinimalEncryptionKey { n });
    nash_mpc::client::fill_rpool_secp256r1(secrets, server_publics.as_slice(), &key).is_ok()
}

} // verus!
