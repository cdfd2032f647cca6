use cosmos_client::client::{adjusted_gas, resolve_account_state, scale_gas};
use cosmos_client::error::Error;
use cosmos_client::rpc::types::{GasInfo, SimulateResponse};
use cosmos_client::signer::{decode_hex, Signer};
use cosmos_client::tx::{AnyMsg, Body};
use cosmrs::proto::prost::Message;
use k256::ecdsa::signature::Verifier;

const PHRASE: &str = "abandon abandon abandon abandon abandon abandon abandon abandon abandon \
                      abandon abandon abandon abandon abandon abandon abandon abandon abandon \
                      abandon abandon abandon abandon abandon art";

fn test_signer() -> Signer {
    Signer::from_mnemonic(PHRASE, "cosmos", "uatom", None, 20, 1).unwrap()
}

#[test]
fn derive_signer_is_deterministic() {
    let s1 = test_signer();
    let s2 = test_signer();
    assert_eq!(s1.public_key, s2.public_key);
    assert_eq!(s1.public_address, s2.public_address);
    assert!(s1.public_address.starts_with("cosmos"));
    assert_eq!(s1.mnemonic.as_deref(), Some(PHRASE));
    assert_eq!(s1.denom, "uatom");
    assert_eq!(s1.gas_adjustment_percent, 20);
    assert_eq!(s1.gas_price, 1);
}

#[test]
fn derive_signer_prefix_changes_address_only() {
    let s1 = test_signer();
    let s2 = Signer::from_mnemonic(PHRASE, "osmo", "uosmo", None, 20, 1).unwrap();
    assert_eq!(s1.public_key, s2.public_key);
    assert_ne!(s1.public_address, s2.public_address);
    assert!(s2.public_address.starts_with("osmo"));
}

#[test]
fn generated_signer_rederives_to_same_address() {
    let g = Signer::generate_signer("cosmos", "uatom", None, 20, 1).unwrap();
    let phrase = g.mnemonic.clone().unwrap();
    let again = Signer::from_mnemonic(&phrase, "cosmos", "uatom", None, 20, 1).unwrap();
    assert_eq!(g.public_key, again.public_key);
    assert_eq!(g.public_address, again.public_address);
}

#[test]
fn from_private_key_accepts_valid_hex() {
    let key_hex = "0101010101010101010101010101010101010101010101010101010101010101";
    let s = Signer::from_private_key(key_hex, "cosmos", "uatom", 20, 1).unwrap();
    assert!(s.mnemonic.is_none());
    assert_eq!(s.public_key.len(), 33);
    assert!(s.public_address.starts_with("cosmos"));
    // The same key gives the same identity again.
    let s2 = Signer::from_private_key(key_hex, "cosmos", "uatom", 20, 1).unwrap();
    assert_eq!(s.public_address, s2.public_address);
}

#[test]
fn from_private_key_rejects_bad_hex() {
    assert!(Signer::from_private_key("abc", "cosmos", "uatom", 20, 1).is_err());
    assert!(Signer::from_private_key("zz", "cosmos", "uatom", 20, 1).is_err());
}

#[test]
fn decode_hex_matches_reference_decoder() {
    for input in ["", "00", "deadBEEF", "0123456789abcdefABCDEF00"] {
        let ours = decode_hex(input).unwrap();
        let reference = hex::decode(input).unwrap();
        assert_eq!(ours, reference);
    }
    assert!(decode_hex("abc").is_err());
    assert!(decode_hex("g0").is_err());
    assert!(hex::decode("abc").is_err());
    assert!(hex::decode("g0").is_err());
}

#[test]
fn gas_scaling_is_exact_floor() {
    assert_eq!(scale_gas(100_000, 20), Some(120_000));
    assert_eq!(scale_gas(1, 50), Some(1));
    assert_eq!(scale_gas(3, 33), Some(3));
    assert_eq!(scale_gas(0, 255), Some(0));
    assert_eq!(scale_gas(u64::MAX, 0), Some(u64::MAX));
    assert_eq!(scale_gas(u64::MAX, 1), None);
}

#[test]
fn adjusted_gas_reports_missing_and_oversized_gas() {
    let missing = SimulateResponse { gas_info: None };
    assert_eq!(adjusted_gas(&missing, 20), Err(Error::CannotSimulateTxGasFee));
    let ok = SimulateResponse { gas_info: Some(GasInfo { gas_wanted: 0, gas_used: 100_000 }) };
    assert_eq!(adjusted_gas(&ok, 20), Ok(120_000));
    let huge = SimulateResponse { gas_info: Some(GasInfo { gas_wanted: 0, gas_used: u64::MAX }) };
    assert_eq!(adjusted_gas(&huge, 255), Err(Error::OutOfGas));
}

fn base_account_bytes(account_number: u64, sequence: u64) -> Vec<u8> {
    cosmrs::proto::cosmos::auth::v1beta1::BaseAccount {
        address: String::new(),
        pub_key: None,
        account_number,
        sequence,
    }
    .encode_to_vec()
}

fn vesting_account_bytes(account_number: u64, sequence: u64) -> Vec<u8> {
    cosmrs::proto::cosmos::vesting::v1beta1::ContinuousVestingAccount {
        base_vesting_account: Some(cosmrs::proto::cosmos::vesting::v1beta1::BaseVestingAccount {
            base_account: Some(cosmrs::proto::cosmos::auth::v1beta1::BaseAccount {
                address: String::new(),
                pub_key: None,
                account_number,
                sequence,
            }),
            original_vesting: Vec::new(),
            delegated_free: Vec::new(),
            delegated_vesting: Vec::new(),
            end_time: 0,
        }),
        start_time: 0,
    }
    .encode_to_vec()
}

#[test]
fn base_and_vesting_accounts_resolve_to_same_pair() {
    let base = AnyMsg {
        type_url: "/cosmos.auth.v1beta1.BaseAccount".to_string(),
        value: base_account_bytes(7, 42),
    };
    let vesting = AnyMsg {
        type_url: "/cosmos.vesting.v1beta1.ContinuousVestingAccount".to_string(),
        value: vesting_account_bytes(7, 42),
    };
    let from_base = resolve_account_state(Some(base), "addr").unwrap();
    let from_vesting = resolve_account_state(Some(vesting), "addr").unwrap();
    assert_eq!(from_base, (7, 42));
    assert_eq!(from_base, from_vesting);
}

#[test]
fn unknown_account_type_is_reported_not_defaulted() {
    let unknown = AnyMsg {
        type_url: "/unknown.Account".to_string(),
        value: base_account_bytes(7, 42),
    };
    let r = resolve_account_state(Some(unknown), "cosmos1abc");
    assert_eq!(
        r,
        Err(Error::AccountDoesNotExist { address: "cosmos1abc".to_string() })
    );
}

#[test]
fn absent_account_is_reported() {
    let r = resolve_account_state(None, "cosmos1abc");
    assert_eq!(
        r,
        Err(Error::AccountDoesNotExist { address: "cosmos1abc".to_string() })
    );
}

#[test]
fn vesting_account_without_base_is_reported() {
    let empty_vesting = cosmrs::proto::cosmos::vesting::v1beta1::ContinuousVestingAccount {
        base_vesting_account: None,
        start_time: 0,
    }
    .encode_to_vec();
    let msg = AnyMsg {
        type_url: "/cosmos.vesting.v1beta1.ContinuousVestingAccount".to_string(),
        value: empty_vesting,
    };
    assert_eq!(
        resolve_account_state(Some(msg), "addr"),
        Err(Error::NoVestingBaseAccount)
    );
}

#[test]
fn malformed_account_record_is_a_decode_failure() {
    let msg = AnyMsg {
        type_url: "/cosmos.auth.v1beta1.BaseAccount".to_string(),
        value: vec![0xff, 0xff, 0xff],
    };
    assert!(matches!(
        resolve_account_state(Some(msg), "addr"),
        Err(Error::DecodeError(_))
    ));
}

#[test]
fn signing_twice_gives_equal_bytes_that_verify() {
    let signer = test_signer();
    let body = Body { messages: Vec::new(), memo: "round trip".to_string() };
    let bytes1 = signer.sign("cosmoshub-4", 1, 5, 200_000, &body).unwrap();
    let bytes2 = signer.sign("cosmoshub-4", 1, 5, 200_000, &body).unwrap();
    // Two independent signs of the same document reproduce the same bytes
    // (deterministic ECDSA), so both carry the same valid signature.
    assert_eq!(bytes1, bytes2);

    let tx = cosmrs::Tx::from_bytes(&bytes1).unwrap();
    assert_eq!(tx.signatures.len(), 1);
    let sign_doc = cosmrs::tx::SignDoc::new(
        &tx.body,
        &tx.auth_info,
        &"cosmoshub-4".parse().unwrap(),
        1,
    )
    .unwrap();
    let doc_bytes = sign_doc.into_bytes().unwrap();
    let vk = k256::ecdsa::VerifyingKey::from_sec1_bytes(&signer.public_key).unwrap();
    let sig = k256::ecdsa::Signature::from_slice(&tx.signatures[0]).unwrap();
    vk.verify(&doc_bytes, &sig).unwrap();
}

#[test]
fn signing_different_sequence_changes_bytes() {
    let signer = test_signer();
    let body = Body { messages: Vec::new(), memo: String::new() };
    let b1 = signer.sign("cosmoshub-4", 1, 5, 200_000, &body).unwrap();
    let b2 = signer.sign("cosmoshub-4", 1, 6, 200_000, &body).unwrap();
    assert_ne!(b1, b2);
}

#[test]
fn signing_rejects_invalid_denom() {
    let signer = Signer::from_mnemonic(PHRASE, "cosmos", "NOT A DENOM!", None, 20, 1).unwrap();
    let body = Body { messages: Vec::new(), memo: String::new() };
    assert!(signer.sign("cosmoshub-4", 1, 5, 200_000, &body).is_err());
}
