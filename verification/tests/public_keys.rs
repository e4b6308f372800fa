use nash_protocol::types::blockchain::{btc, eth, neo, Address, PublicKey};
use nash_protocol::types::Blockchain;
use ripemd160::Ripemd160;
use sha2::{Digest, Sha256};
use std::convert::TryFrom;

const K1_COMPRESSED: &str = "0279be667ef9dcbbac55a06295ce870b07029bfcdb2dce28d959f2815b16f81798";
const K1_UNCOMPRESSED: &str = "0479be667ef9dcbbac55a06295ce870b07029bfcdb2dce28d959f2815b16f81798483ada7726a3c4655da4fbfc0e1108a8fd17b448a68554199c47d08ffb10d4b8";
const R1_COMPRESSED: &str = "036b17d1f2e12c4247f8bce6e563a440f277037d812deb33a0f4a13945d898c296";
const R1_UNCOMPRESSED: &str = "046b17d1f2e12c4247f8bce6e563a440f277037d812deb33a0f4a13945d898c2964fe342e2fe1a7f9b8ee7eb4a7c0f9e162bce33576b315ececbb6406837bf51f5";

fn bytes_of(hex_text: &str) -> Vec<u8> {
    nash_protocol::hex::decode(hex_text).unwrap()
}

#[test]
fn public_key_new_dispatches_by_chain() {
    let e = PublicKey::new(Blockchain::Ethereum, K1_COMPRESSED).unwrap();
    let b = PublicKey::new(Blockchain::Bitcoin, K1_COMPRESSED).unwrap();
    let n = PublicKey::new(Blockchain::NEO, R1_COMPRESSED).unwrap();
    assert!(matches!(e, PublicKey::Ethereum(_)));
    assert!(matches!(b, PublicKey::Bitcoin(_)));
    assert!(matches!(n, PublicKey::NEO(_)));
    assert_eq!(n.blockchain(), Blockchain::NEO);
}

#[test]
fn public_key_hex_is_the_compressed_point() {
    let from_compressed = PublicKey::new(Blockchain::Ethereum, K1_COMPRESSED).unwrap();
    let from_uncompressed = PublicKey::new(Blockchain::Ethereum, K1_UNCOMPRESSED).unwrap();
    assert_eq!(from_compressed.to_hex_str(), K1_COMPRESSED);
    assert_eq!(from_uncompressed.to_hex_str(), K1_COMPRESSED);
    let b = PublicKey::new(Blockchain::Bitcoin, K1_UNCOMPRESSED).unwrap();
    assert_eq!(b.to_hex_str(), K1_COMPRESSED);
    let n = PublicKey::new(Blockchain::NEO, R1_COMPRESSED).unwrap();
    assert_eq!(n.to_hex_str(), R1_COMPRESSED);
}

#[test]
fn public_key_new_refuses_what_is_no_point() {
    for chain in [Blockchain::Ethereum, Blockchain::Bitcoin, Blockchain::NEO] {
        assert!(PublicKey::new(chain, "").is_err());
        assert!(PublicKey::new(chain, "not hex").is_err());
        assert!(PublicKey::new(chain, "02").is_err());
        assert!(PublicKey::new(
            chain,
            "050000000000000000000000000000000000000000000000000000000000000001"
        )
        .is_err());
    }
    assert_eq!(
        eth::PublicKey::new("zz").unwrap_err().message(),
        "Could not create public key (Secp256k1Point) from hex string"
    );
    assert_eq!(
        neo::PublicKey::new("zz").unwrap_err().message(),
        "Could not create public key (Secp256r1Point) from hex string"
    );
    assert_eq!(
        btc::PublicKey::new("zz").unwrap_err().message(),
        "Could not create BTC public key from hex string"
    );
}

#[test]
fn point_of_one_curve_is_no_key_of_the_other() {
    assert!(PublicKey::new(Blockchain::Ethereum, R1_UNCOMPRESSED).is_err());
    assert!(PublicKey::new(Blockchain::Bitcoin, R1_UNCOMPRESSED).is_err());
    assert!(PublicKey::new(Blockchain::NEO, K1_UNCOMPRESSED).is_err());
    assert_eq!(
        PublicKey::new(Blockchain::NEO, R1_UNCOMPRESSED).unwrap().to_hex_str(),
        R1_COMPRESSED
    );
}

#[test]
fn ethereum_address_of_known_key() {
    let key = PublicKey::new(Blockchain::Ethereum, K1_COMPRESSED).unwrap();
    let address = key.to_address().unwrap();
    let inner = eth::Address::try_from(address).unwrap();
    assert_eq!(inner.to_bytes(), bytes_of("7e5f4552091a69125d5dfcb7b8c2659029395bdf"));
}

#[test]
fn bitcoin_address_of_known_key() {
    let key = PublicKey::new(Blockchain::Bitcoin, K1_COMPRESSED).unwrap();
    let address = key.to_address().unwrap();
    let inner = btc::Address::try_from(address).unwrap();
    assert_eq!(inner.to_bytes(), bytes_of("751e76e8199196d454941c45d1b3a323f1433bd6"));
}

#[test]
fn neo_address_is_the_hash_of_the_verification_script() {
    let key = PublicKey::new(Blockchain::NEO, R1_COMPRESSED).unwrap();
    let mut script = vec![0x21u8];
    script.extend(bytes_of(R1_COMPRESSED));
    script.push(0xac);
    let expected = Ripemd160::digest(&Sha256::digest(&script)).to_vec();
    let inner = neo::Address::try_from(key.to_address().unwrap()).unwrap();
    assert_eq!(inner.to_bytes(), expected);
    assert_eq!(inner.to_bytes().len(), 20);
}

#[test]
fn to_address_gives_the_same_address_again() {
    for (chain, text) in [
        (Blockchain::Ethereum, K1_UNCOMPRESSED),
        (Blockchain::Bitcoin, K1_COMPRESSED),
        (Blockchain::NEO, R1_COMPRESSED),
    ] {
        let key = PublicKey::new(chain, text).unwrap();
        let first = key.to_address().unwrap();
        let second = key.to_address().unwrap();
        assert_eq!(first, second);
        assert_eq!(first.blockchain(), chain);
        let again = PublicKey::new(chain, &key.to_hex_str()).unwrap();
        assert_eq!(again.to_address().unwrap(), first);
    }
}

#[test]
fn address_of_a_key_carries_the_key_tag() {
    let e = PublicKey::new(Blockchain::Ethereum, K1_COMPRESSED).unwrap();
    assert!(matches!(e.to_address().unwrap(), Address::Ethereum(_)));
    let b = PublicKey::new(Blockchain::Bitcoin, K1_COMPRESSED).unwrap();
    assert!(matches!(b.to_address().unwrap(), Address::Bitcoin(_)));
    let n = PublicKey::new(Blockchain::NEO, R1_COMPRESSED).unwrap();
    assert!(matches!(n.to_address().unwrap(), Address::NEO(_)));
}

#[test]
fn key_narrowing_follows_the_tag() {
    let e = PublicKey::new(Blockchain::Ethereum, K1_COMPRESSED).unwrap();
    let b = PublicKey::new(Blockchain::Bitcoin, K1_COMPRESSED).unwrap();
    let n = PublicKey::new(Blockchain::NEO, R1_COMPRESSED).unwrap();
    assert_eq!(eth::PublicKey::try_from(e.clone()).unwrap().to_hex(), K1_COMPRESSED);
    assert_eq!(btc::PublicKey::try_from(b.clone()).unwrap().to_hex(), K1_COMPRESSED);
    assert_eq!(neo::PublicKey::try_from(n.clone()).unwrap().to_hex(), R1_COMPRESSED);
    assert_eq!(
        btc::PublicKey::try_from(e.clone()).unwrap_err().message(),
        "Tried to convert from something that is not an BTC public key"
    );
    assert_eq!(
        neo::PublicKey::try_from(e).unwrap_err().message(),
        "Tried to convert from something that is not an NEO public key"
    );
    assert_eq!(
        eth::PublicKey::try_from(b).unwrap_err().message(),
        "Tried to convert from something that is not an ETH public key"
    );
    assert!(eth::PublicKey::try_from(n.clone()).is_err());
    assert!(btc::PublicKey::try_from(n).is_err());
}
