use std::collections::VecDeque;

use cosmos_client::client::CosmosClient;
use cosmos_client::cosmos::auth::Auth;
use cosmos_client::cosmos::bank::{Bank, Coin};
use cosmos_client::cosmos::tx::Tx;
use cosmos_client::error::Error;
use cosmos_client::osmosis::poolmanager::{Pool, PoolManager};
use cosmos_client::rpc::types::{
    required_tx_response, GasInfo, Rpc, SimulateResponse, TxAsyncResponse, TxSyncResponse,
};
use cosmos_client::signer::Signer;
use cosmos_client::tx::Body;
use cosmrs::proto::prost::Message;

const PHRASE: &str = "abandon abandon abandon abandon abandon abandon abandon abandon abandon \
                      abandon abandon abandon abandon abandon abandon abandon abandon abandon \
                      abandon abandon abandon abandon abandon art";

/// An in-memory transport double: scripted answers, recorded requests.
struct MockRpc {
    query_script: VecDeque<Result<Vec<u8>, Error>>,
    simulate_script: VecDeque<Result<SimulateResponse, Error>>,
    queries: Vec<(String, Vec<u8>)>,
    simulates: Vec<Vec<u8>>,
    sync_broadcasts: Vec<Vec<u8>>,
    async_broadcasts: Vec<Vec<u8>>,
    waits: Vec<u64>,
}

impl MockRpc {
    fn new() -> MockRpc {
        MockRpc {
            query_script: VecDeque::new(),
            simulate_script: VecDeque::new(),
            queries: Vec::new(),
            simulates: Vec::new(),
            sync_broadcasts: Vec::new(),
            async_broadcasts: Vec::new(),
            waits: Vec::new(),
        }
    }

    fn transport_calls(&self) -> usize {
        self.queries.len() + self.simulates.len() + self.sync_broadcasts.len()
            + self.async_broadcasts.len()
    }
}

impl Rpc for MockRpc {
    fn history(&self) -> cosmos_client::rpc::types::History {
        unreachable!()
    }

    fn query(&mut self, path: &str, request: Vec<u8>) -> Result<Vec<u8>, Error> {
        self.queries.push((path.to_string(), request));
        self.query_script
            .pop_front()
            .unwrap_or(Err(Error::RpcError("unscripted query".to_string())))
    }

    fn simulate_tx(&mut self, payload: Vec<u8>) -> Result<SimulateResponse, Error> {
        self.simulates.push(payload);
        self.simulate_script
            .pop_front()
            .unwrap_or(Err(Error::RpcError("unscripted simulation".to_string())))
    }

    fn broadcast_tx_sync(&mut self, payload: Vec<u8>) -> Result<TxSyncResponse, Error> {
        self.sync_broadcasts.push(payload);
        Ok(TxSyncResponse {
            code: 0,
            data: Vec::new(),
            log: String::new(),
            hash: "CAFE".to_string(),
        })
    }

    fn broadcast_tx_async(&mut self, payload: Vec<u8>) -> Result<TxAsyncResponse, Error> {
        self.async_broadcasts.push(payload);
        Ok(TxAsyncResponse {
            code: 0,
            data: Vec::new(),
            log: String::new(),
            hash: "CAFE".to_string(),
        })
    }

    fn wait(&mut self, seconds: u64) {
        self.waits.push(seconds);
    }
}

fn test_signer() -> Signer {
    Signer::from_mnemonic(PHRASE, "cosmos", "uatom", None, 20, 1).unwrap()
}

fn account_response_bytes(account_number: u64, sequence: u64) -> Vec<u8> {
    let base = cosmrs::proto::cosmos::auth::v1beta1::BaseAccount {
        address: String::new(),
        pub_key: None,
        account_number,
        sequence,
    };
    cosmrs::proto::cosmos::auth::v1beta1::QueryAccountResponse {
        account: Some(cosmrs::Any {
            type_url: "/cosmos.auth.v1beta1.BaseAccount".to_string(),
            value: base.encode_to_vec(),
        }),
    }
    .encode_to_vec()
}

fn vesting_response_bytes(account_number: u64, sequence: u64) -> Vec<u8> {
    let vesting = cosmrs::proto::cosmos::vesting::v1beta1::ContinuousVestingAccount {
        base_vesting_account: Some(cosmrs::proto::cosmos::vesting::v1beta1::BaseVestingAccount {
            base_account: Some(cosmrs::proto::cosmos::auth::v1beta1::BaseAccount {
                address: String::new(),
                pub_key: None,
                account_number,
                sequence,
            }),
            original_vesting: Vec::new(),
            delegated_free: Vec::new(),
            delegated_vesting: Vec::new(),
            end_time: 0,
        }),
        start_time: 0,
    };
    cosmrs::proto::cosmos::auth::v1beta1::QueryAccountResponse {
        account: Some(cosmrs::Any {
            type_url: "/cosmos.vesting.v1beta1.ContinuousVestingAccount".to_string(),
            value: vesting.encode_to_vec(),
        }),
    }
    .encode_to_vec()
}

fn simulate_ok(gas_used: u64) -> Result<SimulateResponse, Error> {
    Ok(SimulateResponse { gas_info: Some(GasInfo { gas_wanted: 0, gas_used }) })
}

#[test]
fn missing_signer_fails_before_any_transport_call() {
    let mut client = CosmosClient::new(MockRpc::new(), "cosmoshub-4");
    let body = Body { messages: Vec::new(), memo: String::new() };

    assert_eq!(client.simulate_tx(&body).unwrap_err(), Error::NoSignerAttached);
    assert_eq!(client.broadcast_tx_sync(&body).unwrap_err(), Error::NoSignerAttached);
    assert_eq!(client.broadcast_tx_async(&body).unwrap_err(), Error::NoSignerAttached);
    assert_eq!(client.account_sequence_id().unwrap_err(), Error::NoSignerAttached);
    assert_eq!(client.rpc.transport_calls(), 0);
    assert_eq!(client.rpc.waits.len(), 0);
    assert!(client.signer().is_none());
}

#[test]
fn account_resolution_queries_the_auth_path() {
    let mut rpc = MockRpc::new();
    rpc.query_script.push_back(Ok(account_response_bytes(7, 42)));
    let mut client = CosmosClient::new(rpc, "cosmoshub-4");
    client.attach_signer(test_signer());

    let (account_number, sequence) = client.account_sequence_id().unwrap();
    assert_eq!((account_number, sequence), (7, 42));
    assert_eq!(client.rpc.queries.len(), 1);
    assert_eq!(client.rpc.queries[0].0, "/cosmos.auth.v1beta1.Query/Account");
    let address = client.signer().unwrap().public_address.clone();
    let expected_request = cosmrs::proto::cosmos::auth::v1beta1::QueryAccountRequest {
        address,
    }
    .encode_to_vec();
    assert_eq!(client.rpc.queries[0].1, expected_request);
}

#[test]
fn vesting_account_resolves_like_base_through_client() {
    let mut rpc = MockRpc::new();
    rpc.query_script.push_back(Ok(vesting_response_bytes(7, 42)));
    let mut client = CosmosClient::new(rpc, "cosmoshub-4");
    client.attach_signer(test_signer());
    assert_eq!(client.account_sequence_id().unwrap(), (7, 42));
}

#[test]
fn unknown_account_type_fails_resolution_through_client() {
    let response = cosmrs::proto::cosmos::auth::v1beta1::QueryAccountResponse {
        account: Some(cosmrs::Any {
            type_url: "/unknown.Account".to_string(),
            value: Vec::new(),
        }),
    }
    .encode_to_vec();
    let mut rpc = MockRpc::new();
    rpc.query_script.push_back(Ok(response));
    let mut client = CosmosClient::new(rpc, "cosmoshub-4");
    client.attach_signer(test_signer());
    assert!(matches!(
        client.account_sequence_id().unwrap_err(),
        Error::AccountDoesNotExist { .. }
    ));
}

#[test]
fn simulation_signs_with_placeholder_gas() {
    let mut rpc = MockRpc::new();
    rpc.query_script.push_back(Ok(account_response_bytes(7, 42)));
    rpc.simulate_script.push_back(simulate_ok(100_000));
    let mut client = CosmosClient::new(rpc, "cosmoshub-4");
    client.attach_signer(test_signer());

    let body = Body { messages: Vec::new(), memo: String::new() };
    let sim = client.simulate_tx(&body).unwrap();
    assert_eq!(sim.gas_info.unwrap().gas_used, 100_000);
    assert_eq!(client.rpc.queries.len(), 1);
    assert_eq!(client.rpc.simulates.len(), 1);

    // The simulated payload is the body signed at the resolved sequence
    // with the fixed placeholder gas limit.
    let expected = test_signer().sign("cosmoshub-4", 7, 42, 100, &body).unwrap();
    assert_eq!(client.rpc.simulates[0], expected);
}

#[test]
fn broadcast_resolves_twice_and_signs_with_scaled_gas() {
    let mut rpc = MockRpc::new();
    rpc.query_script.push_back(Ok(account_response_bytes(7, 42)));
    rpc.query_script.push_back(Ok(account_response_bytes(7, 42)));
    rpc.simulate_script.push_back(simulate_ok(100_000));
    let mut client = CosmosClient::new(rpc, "cosmoshub-4");
    client.attach_signer(test_signer());

    let body = Body { messages: Vec::new(), memo: String::new() };
    let response = client.broadcast_tx_sync(&body).unwrap();
    assert_eq!(response.code, 0);

    // Two independent account resolutions per broadcast: one inside the
    // dry run, one immediately before the real signature.
    assert_eq!(client.rpc.queries.len(), 2);
    assert_eq!(client.rpc.simulates.len(), 1);
    assert_eq!(client.rpc.sync_broadcasts.len(), 1);

    // The broadcast payload is the body signed with the scaled gas:
    // floor(100000 * 120 / 100) = 120000.
    let expected = test_signer().sign("cosmoshub-4", 7, 42, 120_000, &body).unwrap();
    assert_eq!(client.rpc.sync_broadcasts[0], expected);
}

#[test]
fn async_broadcast_uses_the_async_channel() {
    let mut rpc = MockRpc::new();
    rpc.query_script.push_back(Ok(account_response_bytes(7, 42)));
    rpc.query_script.push_back(Ok(account_response_bytes(7, 42)));
    rpc.simulate_script.push_back(simulate_ok(100_000));
    let mut client = CosmosClient::new(rpc, "cosmoshub-4");
    client.attach_signer(test_signer());

    let body = Body { messages: Vec::new(), memo: String::new() };
    client.broadcast_tx_async(&body).unwrap();
    assert_eq!(client.rpc.async_broadcasts.len(), 1);
    assert_eq!(client.rpc.sync_broadcasts.len(), 0);
}

#[test]
fn simulation_without_gas_report_fails_the_broadcast() {
    let mut rpc = MockRpc::new();
    rpc.query_script.push_back(Ok(account_response_bytes(7, 42)));
    rpc.simulate_script.push_back(Ok(SimulateResponse { gas_info: None }));
    let mut client = CosmosClient::new(rpc, "cosmoshub-4");
    client.attach_signer(test_signer());

    let body = Body { messages: Vec::new(), memo: String::new() };
    assert_eq!(
        client.broadcast_tx_sync(&body).unwrap_err(),
        Error::CannotSimulateTxGasFee
    );
    assert_eq!(client.rpc.sync_broadcasts.len(), 0);
}

fn found_tx_bytes() -> Vec<u8> {
    cosmrs::proto::cosmos::tx::v1beta1::GetTxResponse {
        tx: None,
        tx_response: Some(cosmrs::proto::cosmos::base::abci::v1beta1::TxResponse {
            txhash: "CAFE".to_string(),
            code: 0,
            height: 11,
            ..Default::default()
        }),
    }
    .encode_to_vec()
}

#[test]
fn poller_never_finding_makes_exactly_sixty_attempts() {
    let mut client = CosmosClient::new(MockRpc::new(), "cosmoshub-4");
    client.attach_signer(test_signer());
    let mut tx = Tx::new(client);

    // An empty query script answers every lookup with a failure.
    let r = tx.poll_for_tx("CAFE");
    assert_eq!(r.unwrap_err(), Error::TXPollingTimeout);
    assert_eq!(tx.client.rpc.queries.len(), 60);
    assert_eq!(tx.client.rpc.waits.len(), 60);
    assert!(tx.client.rpc.waits.iter().all(|w| *w == 3));
}

#[test]
fn poller_returns_at_first_success_without_further_attempts() {
    let mut rpc = MockRpc::new();
    for _ in 0..4 {
        rpc.query_script.push_back(Err(Error::RpcError("not yet".to_string())));
    }
    rpc.query_script.push_back(Ok(found_tx_bytes()));
    let mut client = CosmosClient::new(rpc, "cosmoshub-4");
    client.attach_signer(test_signer());
    let mut tx = Tx::new(client);

    let found = tx.poll_for_tx("CAFE").unwrap();
    let record = found.tx_response.unwrap();
    assert_eq!(record.txhash, "CAFE");
    assert_eq!(record.height, 11);
    // Found on the fifth attempt: five lookups, four waits, nothing more.
    assert_eq!(tx.client.rpc.queries.len(), 5);
    assert_eq!(tx.client.rpc.waits.len(), 4);
}

#[test]
fn get_tx_queries_the_lookup_path() {
    let mut rpc = MockRpc::new();
    rpc.query_script.push_back(Ok(found_tx_bytes()));
    let mut client = CosmosClient::new(rpc, "cosmoshub-4");
    client.attach_signer(test_signer());
    let mut tx = Tx::new(client);

    tx.get_tx("CAFE").unwrap();
    assert_eq!(tx.client.rpc.queries.len(), 1);
    assert_eq!(tx.client.rpc.queries[0].0, "/cosmos.tx.v1beta1.Service/GetTx");
    let expected = cosmrs::proto::cosmos::tx::v1beta1::GetTxRequest {
        hash: "CAFE".to_string(),
    }
    .encode_to_vec();
    assert_eq!(tx.client.rpc.queries[0].1, expected);
}

#[test]
fn bank_send_builds_one_send_message() {
    let mut client = CosmosClient::new(MockRpc::new(), "cosmoshub-4");
    client.attach_signer(test_signer());
    let from = client.signer().unwrap().public_address.clone();
    let bank = Bank::new(client);

    let amount = vec![Coin { denom: "uatom".to_string(), amount: "100".to_string() }];
    let body = bank.send("cosmos1dest", amount, Some("hello")).unwrap();

    assert_eq!(body.messages.len(), 1);
    assert_eq!(body.messages[0].type_url, "/cosmos.bank.v1beta1.MsgSend");
    assert_eq!(body.memo, "hello");
    let expected_value = cosmrs::proto::cosmos::bank::v1beta1::MsgSend {
        from_address: from,
        to_address: "cosmos1dest".to_string(),
        amount: vec![cosmrs::proto::cosmos::base::v1beta1::Coin {
            denom: "uatom".to_string(),
            amount: "100".to_string(),
        }],
    }
    .encode_to_vec();
    assert_eq!(body.messages[0].value, expected_value);

    // Building a body sends nothing to the chain.
    assert_eq!(bank.client.rpc.transport_calls(), 0);
}

#[test]
fn bank_send_without_signer_fails() {
    let client = CosmosClient::new(MockRpc::new(), "cosmoshub-4");
    let bank = Bank::new(client);
    let r = bank.send("cosmos1dest", Vec::new(), None);
    assert_eq!(r.unwrap_err(), Error::NoSignerAttached);
}

#[test]
fn auth_params_query_sends_empty_request() {
    let params = cosmrs::proto::cosmos::auth::v1beta1::QueryParamsResponse {
        params: Some(cosmrs::proto::cosmos::auth::v1beta1::Params {
            max_memo_characters: 256,
            tx_sig_limit: 7,
            tx_size_cost_per_byte: 10,
            sig_verify_cost_ed25519: 590,
            sig_verify_cost_secp256k1: 1000,
        }),
    }
    .encode_to_vec();
    let mut rpc = MockRpc::new();
    rpc.query_script.push_back(Ok(params));
    let mut auth = Auth::new(CosmosClient::new(rpc, "cosmoshub-4"));

    let p = auth.params().unwrap();
    assert_eq!(p.max_memo_characters, 256);
    assert_eq!(p.tx_sig_limit, 7);
    assert_eq!(auth.client.rpc.queries[0].0, "/cosmos.auth.v1beta1.Query/Params");
    assert!(auth.client.rpc.queries[0].1.is_empty());
}

#[test]
fn pool_lookup_classifies_by_type_identifier() {
    let gamm = osmosis_std::types::osmosis::gamm::v1beta1::Pool::default().encode_to_vec();
    let response = osmosis_std::types::osmosis::poolmanager::v1beta1::PoolResponse {
        pool: Some(osmosis_std::shim::Any {
            type_url: "/osmosis.gamm.v1beta1.Pool".to_string(),
            value: gamm,
        }),
    }
    .encode_to_vec();
    let mut rpc = MockRpc::new();
    rpc.query_script.push_back(Ok(response));
    let mut pm = PoolManager::new(CosmosClient::new(rpc, "osmosis-1"));

    let pool = pm.pool(1).unwrap();
    assert!(matches!(pool, Pool::Amm(_)));
    assert_eq!(pm.client.rpc.queries[0].0, "/osmosis.poolmanager.v1beta1.Query/Pool");
}

#[test]
fn missing_pool_is_reported() {
    let response = osmosis_std::types::osmosis::poolmanager::v1beta1::PoolResponse { pool: None }
        .encode_to_vec();
    let mut rpc = MockRpc::new();
    rpc.query_script.push_back(Ok(response));
    let mut pm = PoolManager::new(CosmosClient::new(rpc, "osmosis-1"));
    assert_eq!(pm.pool(1).unwrap_err(), Error::NotFoundPool);
}

#[test]
fn unrecognized_pool_shape_is_a_decode_failure() {
    let response = osmosis_std::types::osmosis::poolmanager::v1beta1::PoolResponse {
        pool: Some(osmosis_std::shim::Any {
            type_url: "/unknown.Pool".to_string(),
            value: Vec::new(),
        }),
    }
    .encode_to_vec();
    let mut rpc = MockRpc::new();
    rpc.query_script.push_back(Ok(response));
    let mut pm = PoolManager::new(CosmosClient::new(rpc, "osmosis-1"));
    assert!(matches!(pm.pool(1).unwrap_err(), Error::DecodeError(_)));
}

#[test]
fn missing_broadcast_payload_is_reported() {
    assert_eq!(required_tx_response::<u32>(Some(5)), Ok(5));
    assert_eq!(required_tx_response::<u32>(None), Err(Error::NoneTxResponse));
}

#[test]
fn transport_failures_propagate_unchanged() {
    let mut rpc = MockRpc::new();
    rpc.query_script.push_back(Err(Error::RpcError("boom".to_string())));
    let mut client = CosmosClient::new(rpc, "cosmoshub-4");
    client.attach_signer(test_signer());
    assert_eq!(
        client.account_sequence_id().unwrap_err(),
        Error::RpcError("boom".to_string())
    );
}
