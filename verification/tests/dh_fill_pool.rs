use nash_mpc::common::{dh_init_secp256k1, dh_init_secp256r1};
use nash_mpc::curves::traits::ECPoint;
use nash_protocol::protocol::dh_fill_pool::response::fill_pool;
use nash_protocol::protocol::dh_fill_pool::types::{
    DhFillPoolRequest, DhFillPoolResponse, K1FillPool, R1FillPool, ServerPublics, BATCH_SIZE,
};
use nash_protocol::protocol::signer::Signer;
use nash_protocol::protocol::state::State;
use nash_protocol::types::Blockchain;
use std::collections::HashSet;

const MODULUS: &str = "c14ea0ad7a56ed6bcea51c8dd044fbc918493404d6e556308f74976ebd659b33bc0af834476355b3db7a8df70408b50205cc9c5660a3805a191a772ff40fcdf6c05924b83eeb4270804859ceb95e5a3a5aa83170b7d8bd2e4c64c8b3b5ebe5dc54a3076c627f0c645db7afc9d0fdf5221c04c51c1835c76212011e7308d6d8f29718822211af1d718f3205105c1018822efe2122f710af605c448a25ce41016ca725d68c4143705ab6d8152f17a94780f1fc1faff802287537d08b8257810278193f9e56e7bda0e351ee0e362a0e47ddcb7de812914ebd86d90c001a315f75bddb6495cd82b9e23e0f783824d40087fb81c46f48ff60647626398d110bdb1c51";

fn state_with_signer() -> State {
    State::new(Some(Signer::new(MODULUS).unwrap()))
}

fn remaining(state: &State, chain: Blockchain) -> u64 {
    state.signer.as_ref().unwrap().get_remaining_r_vals(chain)
}

fn server_answer_k1(n: usize) -> DhFillPoolResponse {
    let (_, publics) = dh_init_secp256k1(n).unwrap();
    DhFillPoolResponse { server_publics: publics.iter().map(|p| p.to_hex()).collect() }
}

fn server_answer_r1(n: usize) -> DhFillPoolResponse {
    let (_, publics) = dh_init_secp256r1(n).unwrap();
    DhFillPoolResponse { server_publics: publics.iter().map(|p| p.to_hex()).collect() }
}

#[test]
fn serialize_dh_fill_pool() {
    let _state = state_with_signer();
    let request = DhFillPoolRequest::new(Blockchain::Ethereum).unwrap();
    let variables = request.variables();
    println!("{:?}", variables);
    assert_eq!(variables.blockchain, Blockchain::Ethereum);
    assert_eq!(variables.dh_publics.len(), 100);
}

#[test]
fn new_request_holds_a_full_batch_on_each_chain() {
    assert_eq!(BATCH_SIZE, 100);
    for chain in [Blockchain::Bitcoin, Blockchain::Ethereum, Blockchain::NEO] {
        let request = DhFillPoolRequest::new(chain).unwrap();
        assert_eq!(request.blockchain(), chain);
        match &request {
            DhFillPoolRequest::Bitcoin(pool) | DhFillPoolRequest::Ethereum(pool) => {
                assert_ne!(chain, Blockchain::NEO);
                assert_eq!(pool.publics.len(), 100);
                assert_eq!(pool.secrets.len(), 100);
            }
            DhFillPoolRequest::NEO(pool) => {
                assert_eq!(chain, Blockchain::NEO);
                assert_eq!(pool.publics.len(), 100);
                assert_eq!(pool.secrets.len(), 100);
            }
        }
    }
}

#[test]
fn variables_carry_the_public_points_in_order() {
    let request = DhFillPoolRequest::new(Blockchain::NEO).unwrap();
    let variables = request.variables();
    assert_eq!(variables.blockchain, Blockchain::NEO);
    match &request {
        DhFillPoolRequest::NEO(pool) => {
            let expected: Vec<String> = pool.publics.iter().map(|p| p.to_hex()).collect();
            assert_eq!(variables.dh_publics, expected);
            assert_eq!(pool.publics_hex(), expected);
        }
        _ => panic!("a NEO request holds a batch on secp256r1"),
    }
    for text in &variables.dh_publics {
        assert_eq!(text.len(), 66);
    }
}

#[test]
fn fresh_batches_do_not_repeat() {
    let first = DhFillPoolRequest::new(Blockchain::Bitcoin).unwrap().variables();
    let second = DhFillPoolRequest::new(Blockchain::Bitcoin).unwrap().variables();
    let mut seen = HashSet::new();
    for text in first.dh_publics.iter().chain(second.dh_publics.iter()) {
        assert!(seen.insert(text.clone()));
    }
    assert_eq!(seen.len(), 200);
}

#[test]
fn from_generated_wants_a_full_batch() {
    assert!(K1FillPool::from_generated(dh_init_secp256k1(100).ok()).is_ok());
    assert!(R1FillPool::from_generated(dh_init_secp256r1(100).ok()).is_ok());
    assert_eq!(
        K1FillPool::from_generated(dh_init_secp256k1(99).ok()).unwrap_err().message(),
        "Could not initialize k1 values"
    );
    assert_eq!(
        R1FillPool::from_generated(dh_init_secp256r1(0).ok()).unwrap_err().message(),
        "Could not initialize r1 values"
    );
    assert!(dh_init_secp256k1(101).is_err());
    assert_eq!(
        K1FillPool::from_generated(None).unwrap_err().message(),
        "Could not initialize k1 values"
    );
    assert_eq!(
        R1FillPool::from_generated(None).unwrap_err().message(),
        "Could not initialize r1 values"
    );
}

#[test]
fn server_publics_parse_on_the_curve_of_the_chain() {
    let k1 = server_answer_k1(3);
    let r1 = server_answer_r1(3);
    let parsed = ServerPublics::from_hexstrings(Blockchain::Ethereum, &k1).unwrap();
    assert_eq!(parsed.blockchain(), Blockchain::Ethereum);
    assert_eq!(parsed.len(), 3);
    match parsed {
        ServerPublics::Ethereum(points) => {
            let texts: Vec<String> = points.iter().map(|p| p.to_hex()).collect();
            assert_eq!(texts, k1.server_publics);
        }
        _ => panic!("parsed for Ethereum"),
    }
    assert!(matches!(
        ServerPublics::from_hexstrings(Blockchain::Bitcoin, &k1).unwrap(),
        ServerPublics::Bitcoin(_)
    ));
    assert!(matches!(
        ServerPublics::from_hexstrings(Blockchain::NEO, &r1).unwrap(),
        ServerPublics::NEO(_)
    ));
    let empty = DhFillPoolResponse { server_publics: vec![] };
    assert_eq!(ServerPublics::from_hexstrings(Blockchain::NEO, &empty).unwrap().len(), 0);
}

#[test]
fn server_publics_refuse_a_text_that_is_no_point() {
    let mut answer = server_answer_k1(3);
    answer.server_publics[1] = String::from("not a point");
    let err = ServerPublics::from_hexstrings(Blockchain::Ethereum, &answer);
    assert_eq!(err.err().unwrap().message(), "Could not parse server public point");
    let wrong_curve = DhFillPoolResponse {
        server_publics: vec![String::from(
            "0479be667ef9dcbbac55a06295ce870b07029bfcdb2dce28d959f2815b16f81798483ada7726a3c4655da4fbfc0e1108a8fd17b448a68554199c47d08ffb10d4b8",
        )],
    };
    assert!(ServerPublics::from_hexstrings(Blockchain::Bitcoin, &wrong_curve).is_ok());
    assert!(ServerPublics::from_hexstrings(Blockchain::NEO, &wrong_curve).is_err());
}

#[test]
fn full_answer_credits_one_batch() {
    let mut state = state_with_signer();
    let request = DhFillPoolRequest::new(Blockchain::Ethereum).unwrap();
    let before = nash_mpc::client::get_rpool_size(nash_mpc::common::Curve::Secp256k1).unwrap();
    request.process_response(&server_answer_k1(100), &mut state).unwrap();
    let after = nash_mpc::client::get_rpool_size(nash_mpc::common::Curve::Secp256k1).unwrap();
    assert_eq!(after - before, 100);
    assert_eq!(remaining(&state, Blockchain::Ethereum), 100);
    assert_eq!(remaining(&state, Blockchain::Bitcoin), 0);
    assert_eq!(remaining(&state, Blockchain::NEO), 0);
}

#[test]
fn short_answer_fails_and_credits_nothing() {
    let mut state = state_with_signer();
    let request = DhFillPoolRequest::new(Blockchain::Bitcoin).unwrap();
    let before = nash_mpc::client::get_rpool_size(nash_mpc::common::Curve::Secp256k1).unwrap();
    let err = request.process_response(&server_answer_k1(99), &mut state).unwrap_err();
    assert_eq!(err.message(), "Server did not answer with a full batch");
    let after = nash_mpc::client::get_rpool_size(nash_mpc::common::Curve::Secp256k1).unwrap();
    assert_eq!(after, before);
    for chain in [Blockchain::Bitcoin, Blockchain::Ethereum, Blockchain::NEO] {
        assert_eq!(remaining(&state, chain), 0);
    }
    let empty = DhFillPoolResponse { server_publics: vec![] };
    assert!(request.process_response(&empty, &mut state).is_err());
    assert_eq!(remaining(&state, Blockchain::Bitcoin), 0);
}

#[test]
fn answer_on_the_other_curve_fails_and_credits_nothing() {
    let mut state = state_with_signer();
    let request = DhFillPoolRequest::new(Blockchain::NEO).unwrap();
    let mut answer = server_answer_r1(100);
    answer.server_publics[57] = String::from(
        "0479be667ef9dcbbac55a06295ce870b07029bfcdb2dce28d959f2815b16f81798483ada7726a3c4655da4fbfc0e1108a8fd17b448a68554199c47d08ffb10d4b8",
    );
    let err = request.process_response(&answer, &mut state).unwrap_err();
    assert_eq!(err.message(), "Could not parse server public point");
    assert_eq!(remaining(&state, Blockchain::NEO), 0);
}

#[test]
fn session_without_signer_fails() {
    let mut state = State::new(None);
    let request = DhFillPoolRequest::new(Blockchain::NEO).unwrap();
    let err = request.process_response(&server_answer_r1(100), &mut state).unwrap_err();
    assert_eq!(err.message(), "Signer not initiated");
    assert!(state.signer.is_none());
}

#[test]
fn request_that_is_no_full_batch_fails() {
    let mut state = state_with_signer();
    let (secrets, publics) = dh_init_secp256r1(40).unwrap();
    let request = DhFillPoolRequest::NEO(R1FillPool { publics, secrets });
    let err = request.process_response(&server_answer_r1(100), &mut state).unwrap_err();
    assert_eq!(err.message(), "Server publics do not match request secrets");
    let err = request.process_response(&server_answer_r1(40), &mut state).unwrap_err();
    assert_eq!(err.message(), "Server did not answer with a full batch");
    assert_eq!(remaining(&state, Blockchain::NEO), 0);
}

#[test]
fn fill_pool_pairs_by_position() {
    let signer = Signer::new(MODULUS).unwrap();
    let (secrets, publics) = dh_init_secp256k1(5).unwrap();
    let request = DhFillPoolRequest::Bitcoin(K1FillPool { publics, secrets });
    let five = ServerPublics::from_hexstrings(Blockchain::Bitcoin, &server_answer_k1(5)).unwrap();
    assert!(fill_pool(&request, five, &signer).is_ok());
    let four = ServerPublics::from_hexstrings(Blockchain::Bitcoin, &server_answer_k1(4)).unwrap();
    assert_eq!(
        fill_pool(&request, four, &signer).unwrap_err().message(),
        "Server publics do not match request secrets"
    );
    let other = ServerPublics::from_hexstrings(Blockchain::Ethereum, &server_answer_k1(5)).unwrap();
    assert_eq!(
        fill_pool(&request, other, &signer).unwrap_err().message(),
        "Invalid combination of blockchains in fill pool"
    );
    let neo = ServerPublics::from_hexstrings(Blockchain::NEO, &server_answer_r1(5)).unwrap();
    assert!(fill_pool(&request, neo, &signer).is_err());
}

#[test]
fn fills_one_after_the_other_add_up() {
    let mut state = state_with_signer();
    for round in 1..=3u64 {
        let request = DhFillPoolRequest::new(Blockchain::Bitcoin).unwrap();
        request.process_response(&server_answer_k1(100), &mut state).unwrap();
        assert_eq!(remaining(&state, Blockchain::Bitcoin), 100 * round);
    }
    let request = DhFillPoolRequest::new(Blockchain::Ethereum).unwrap();
    request.process_response(&server_answer_k1(100), &mut state).unwrap();
    assert_eq!(remaining(&state, Blockchain::Bitcoin), 300);
    assert_eq!(remaining(&state, Blockchain::Ethereum), 100);
    assert_eq!(remaining(&state, Blockchain::NEO), 0);
}

#[test]
fn neo_fill_gives_a_hundred_distinct_shared_secrets() {
    let mut state = state_with_signer();
    let request = DhFillPoolRequest::new(Blockchain::NEO).unwrap();
    let (_, server_points) = dh_init_secp256r1(100).unwrap();
    let answer =
        DhFillPoolResponse { server_publics: server_points.iter().map(|p| p.to_hex()).collect() };
    assert_eq!(answer.server_publics.len(), 100);
    request.process_response(&answer, &mut state).unwrap();
    assert_eq!(remaining(&state, Blockchain::NEO), 100);
    let secrets = match &request {
        DhFillPoolRequest::NEO(pool) => pool.secrets.clone(),
        _ => panic!("a NEO request holds a batch on secp256r1"),
    };
    let zero = nash_mpc::rust_bigint::BigInt::from(0);
    let mut shared = HashSet::new();
    for (point, secret) in server_points.iter().zip(secrets.iter()) {
        let value = (point * secret).unwrap();
        assert_ne!(value.x_coor(), zero);
        assert_ne!(value.to_bigint(), zero);
        assert!(shared.insert(value.to_hex()));
    }
    assert_eq!(shared.len(), 100);
}

#[test]
fn check_response_parses_and_counts() {
    let request = DhFillPoolRequest::new(Blockchain::Ethereum).unwrap();
    let publics = request.check_response(&server_answer_k1(100)).unwrap();
    assert_eq!(publics.blockchain(), Blockchain::Ethereum);
    assert_eq!(publics.len(), 100);
    assert_eq!(
        request.check_response(&server_answer_k1(99)).err().unwrap().message(),
        "Server did not answer with a full batch"
    );
    let mut bad = server_answer_k1(99);
    bad.server_publics[0] = String::from("xyz");
    assert_eq!(
        request.check_response(&bad).err().unwrap().message(),
        "Could not parse server public point"
    );
}

#[test]
fn credit_fill_adds_one_batch() {
    let mut state = state_with_signer();
    state.credit_fill(Blockchain::NEO).unwrap();
    state.credit_fill(Blockchain::NEO).unwrap();
    state.credit_fill(Blockchain::Bitcoin).unwrap();
    assert_eq!(remaining(&state, Blockchain::NEO), 200);
    assert_eq!(remaining(&state, Blockchain::Bitcoin), 100);
    assert_eq!(remaining(&state, Blockchain::Ethereum), 0);
    let mut none = State::new(None);
    assert_eq!(
        none.credit_fill(Blockchain::NEO).unwrap_err().message(),
        "Signer not initiated"
    );
}

#[test]
fn signer_copy_keeps_modulus_and_counts() {
    let mut signer = Signer::new(MODULUS).unwrap();
    signer.fill_r_vals(Blockchain::NEO, 3);
    let copy = signer.clone();
    assert_eq!(copy.paillier_modulus(), MODULUS);
    assert_eq!(copy.get_remaining_r_vals(Blockchain::NEO), 3);
    assert_eq!(copy.get_remaining_r_vals(Blockchain::Bitcoin), 0);
}

#[test]
fn modulus_in_upper_case_fills_as_well() {
    let signer = Signer::new("C5F1").unwrap();
    let (secrets, publics) = dh_init_secp256r1(2).unwrap();
    let request = DhFillPoolRequest::NEO(R1FillPool { publics, secrets });
    let two = ServerPublics::from_hexstrings(Blockchain::NEO, &server_answer_r1(2)).unwrap();
    let before = nash_mpc::client::get_rpool_size(nash_mpc::common::Curve::Secp256r1).unwrap();
    assert!(fill_pool(&request, two, &signer).is_ok());
    let after = nash_mpc::client::get_rpool_size(nash_mpc::common::Curve::Secp256r1).unwrap();
    assert_eq!(after - before, 2);
}
