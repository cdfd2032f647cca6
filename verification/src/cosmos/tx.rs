use vstd::prelude::*;

use crate::client::CosmosClient;
use crate::error::Error;
use crate::rpc::types::{Rpc, RpcEvent, SimulateResponse, TxAsyncResponse, TxSyncResponse};
use crate::tx::Body;
use cosmrs::proto::prost::Message;

verus! {

/// The two broadcast replies as one sum: each carries a status code, a
/// data payload, a raw log and the transaction hash; they differ only in
/// whether the node waited for its transaction check before answering.
#[derive(Debug, Clone)]
pub enum Response {
    /// Reply of a broadcast that returned at mempool acceptance.
    Async(TxAsyncResponse),
    /// Reply of a broadcast that waited for the node's check.
    Sync(TxSyncResponse),
}

/// The chain's execution record for a transaction found by hash; only the
/// fields the library's callers read are kept as plain values.
#[derive(Debug, Clone, PartialEq)]
pub struct TxResponseData {
    /// Execution status code; zero is success.
    pub code: u32,
    /// Hash of the transaction, in hexadecimal.
    pub txhash: String,
    /// Raw log the node attached.
    pub raw_log: String,
    /// Height of the block that included the transaction.
    pub height: i64,
}

impl View for TxResponseData {
    type V = (u32, Seq<char>, Seq<char>, i64);

    open spec fn view(&self) -> Self::V {
        (self.code, self.txhash@, self.raw_log@, self.height)
    }
}

/// Reply of the transaction lookup: the execution record when the
/// transaction was found and executed.
#[derive(Debug, Clone, PartialEq)]
pub struct GetTxResponse {
    /// The chain's execution record, when present.
    pub tx_response: Option<TxResponseData>,
}

impl View for GetTxResponse {
    type V = Option<(u32, Seq<char>, Seq<char>, i64)>;

    open spec fn view(&self) -> Self::V {
        match self.tx_response {
            Some(t) => Some(t@),
            None => None,
        }
    }
}

/// The encoded transaction lookup request for a hash.
pub uninterp spec fn get_tx_request_bytes(hash: Seq<char>) -> Seq<u8>;

/// What decoding a transaction lookup response yields: `None` when the
/// bytes are malformed, otherwise the kept fields of the optional
/// execution record.
pub uninterp spec fn get_tx_reply(bytes: Seq<u8>) -> Option<Option<(u32, Seq<char>, Seq<char>, i64)>>;

/// Relies on prost encoding of the tx service's lookup request: the bytes
/// are a function of the hash.
#[verifier::external_body]
fn encode_get_tx_request(hash: &str) -> (r: Vec<u8>)
    ensures
        r@ == get_tx_request_bytes(hash@),
{
    cosmrs::proto::cosmos::tx::v1beta1::GetTxRequest { hash: hash.to_owned() }.encode_to_vec()
}

/// Relies on prost decoding of the tx service's lookup response; of the
/// record only the status code, hash, raw log and height are kept.
#[verifier::external_body]
fn decode_get_tx_response(bytes: &Vec<u8>) -> (r: Result<GetTxResponse, Error>)
    ensures
        r matches Ok(g) ==> get_tx_reply(bytes@) == Some(g@),
        r is Err ==> get_tx_reply(bytes@) is None,
        r matches Err(e) ==> e matches Error::DecodeError(_),
{
    let resp = cosmrs::proto::cosmos::tx::v1beta1::GetTxResponse::decode(bytes.as_slice())
        .map_err(crate::error::decode_failure)?;
    Ok(GetTxResponse {
        tx_response: resp.tx_response.map(|t| TxResponseData {
            code: t.code,
            txhash: t.txhash,
            raw_log: t.raw_log,
            height: t.height,
        }),
    })
}

/// The tx service's lookup path.
pub open spec fn spec_get_tx_path() -> Seq<char> {
    "/cosmos.tx.v1beta1.Service/GetTx"@
}

fn get_tx_path() -> (r: &'static str)
    ensures
        r@ == spec_get_tx_path(),
{
    "/cosmos.tx.v1beta1.Service/GetTx"
}

/// How many lookup attempts the confirmation poller makes before it
/// reports a timeout.
pub const POLL_ATTEMPTS: u64 = 60;

/// How many seconds the poller waits between attempts.
pub const POLL_INTERVAL_SECS: u64 = 3;

/// The transport record of one transaction lookup.
pub open spec fn spec_get_tx_query(hash: Seq<char>) -> RpcEvent {
    RpcEvent::Query { path: spec_get_tx_path(), request: get_tx_request_bytes(hash) }
}

/// The transport trace of `n` failed poll attempts appended to `pre`:
/// each attempt queries the transaction by hash and then waits the fixed
/// interval.
pub open spec fn spec_poll_trace(pre: Seq<RpcEvent>, hash: Seq<char>, n: nat) -> Seq<RpcEvent>
    decreases n,
{
    if n == 0 {
        pre
    } else {
        spec_poll_trace(pre, hash, (n - 1) as nat).push(spec_get_tx_query(hash)).push(
            RpcEvent::Wait { seconds: POLL_INTERVAL_SECS },
        )
    }
}

/// Law: every poll attempt leaves exactly two transport records — one
/// lookup and one wait — so a poll that exhausts its budget has issued
/// exactly its fixed number of lookups, no fewer and no more.
pub proof fn lemma_poll_trace_len(pre: Seq<RpcEvent>, hash: Seq<char>, n: nat)
    ensures
        spec_poll_trace(pre, hash, n).len() == pre.len() + 2 * n,
    decreases n,
{
    if n > 0 {
        lemma_poll_trace_len(pre, hash, (n - 1) as nat);
    }
}

/// Access to the chain's transaction service through a client.
pub struct Tx<T: Rpc> {
    /// The client the service calls go through.
    pub client: CosmosClient<T>,
}

impl<T: Rpc> Tx<T> {
    /// Creates a transaction service over the provided client.
    pub fn new(client: CosmosClient<T>) -> (r: Tx<T>)
        ensures
            r.client == client,
    {
        Tx { client }
    }

    /// Simulates the execution of a transaction; the full pipeline contract
    /// is stated on the client operation this delegates to.
    pub fn simulate(&mut self, payload: &Body) -> (r: Result<SimulateResponse, Error>)
        ensures
            old(self).client.signer is None ==> r == Err::<SimulateResponse, Error>(
                Error::NoSignerAttached,
            ) && *final(self) == *old(self),
            final(self).client.chain_id == old(self).client.chain_id,
            final(self).client.signer == old(self).client.signer,
            old(self).client.rpc.history().is_prefix_of(final(self).client.rpc.history()),
    {
        self.client.simulate_tx(payload)
    }

    /// Broadcasts a transaction and waits for the node's check; the full
    /// pipeline contract is stated on the client operation.
    pub fn broadcast_tx_sync(&mut self, body: &Body) -> (r: Result<TxSyncResponse, Error>)
        ensures
            old(self).client.signer is None ==> r == Err::<TxSyncResponse, Error>(
                Error::NoSignerAttached,
            ) && *final(self) == *old(self),
            final(self).client.chain_id == old(self).client.chain_id,
            final(self).client.signer == old(self).client.signer,
            old(self).client.rpc.history().is_prefix_of(final(self).client.rpc.history()),
    {
        self.client.broadcast_tx_sync(body)
    }

    /// Broadcasts a transaction without waiting for inclusion; the full
    /// pipeline contract is stated on the client operation.
    pub fn broadcast_tx_async(&mut self, body: &Body) -> (r: Result<TxAsyncResponse, Error>)
        ensures
            old(self).client.signer is None ==> r == Err::<TxAsyncResponse, Error>(
                Error::NoSignerAttached,
            ) && *final(self) == *old(self),
            final(self).client.chain_id == old(self).client.chain_id,
            final(self).client.signer == old(self).client.signer,
            old(self).client.rpc.history().is_prefix_of(final(self).client.rpc.history()),
    {
        self.client.broadcast_tx_async(body)
    }

    /// Looks a transaction up by its hash with one query.
    pub fn get_tx(&mut self, hash: &str) -> (r: Result<GetTxResponse, Error>)
        ensures
            final(self).client.rpc.history() == old(self).client.rpc.history().push(
                spec_get_tx_query(hash@),
            ),
            final(self).client.chain_id == old(self).client.chain_id,
            final(self).client.signer == old(self).client.signer,
            r matches Ok(g) ==> exists|bytes: Seq<u8>| #[trigger] get_tx_reply(bytes) == Some(g@),
    {
        let request = encode_get_tx_request(hash);
        let bytes = self.client.query(get_tx_path(), request)?;
        let g = decode_get_tx_response(&bytes)?;
        proof {
            assert(get_tx_reply(bytes@) == Some(g@));
        }
        Ok(g)
    }

    /// Polls for a transaction until it is found or the bounded retry
    /// budget is exhausted: at most the fixed number of lookup attempts,
    /// with the fixed wait after every failed one. A hash that is never
    /// found costs exactly that many attempts — no fewer, no more — and
    /// a hash found on some attempt returns at once, with no further
    /// attempt and no wait after the successful lookup.
    pub fn poll_for_tx(&mut self, hash: &str) -> (r: Result<GetTxResponse, Error>)
        ensures
            final(self).client.chain_id == old(self).client.chain_id,
            final(self).client.signer == old(self).client.signer,
            r matches Err(e) ==> e == Error::TXPollingTimeout && final(self).client.rpc.history()
                == spec_poll_trace(
                old(self).client.rpc.history(),
                hash@,
                POLL_ATTEMPTS as nat,
            ),
            r matches Ok(g) ==> (exists|k: nat|
                1 <= k <= POLL_ATTEMPTS && final(self).client.rpc.history() == #[trigger] spec_poll_trace(
                    old(self).client.rpc.history(),
                    hash@,
                    (k - 1) as nat,
                ).push(spec_get_tx_query(hash@))) && (exists|bytes: Seq<u8>| #[trigger] get_tx_reply(
                bytes,
            ) == Some(g@)),
    {
        let ghost pre: Seq<RpcEvent> = self.client.rpc.history();
        let mut attempt: u64 = 0;
        while attempt < POLL_ATTEMPTS
            invariant
                attempt <= POLL_ATTEMPTS,
                self.client.chain_id == old(self).client.chain_id,
                self.client.signer == old(self).client.signer,
                pre == old(self).client.rpc.history(),
                self.client.rpc.history() == spec_poll_trace(pre, hash@, attempt as nat),
            decreases POLL_ATTEMPTS - attempt,
        {
            let tx = self.get_tx(hash);
            match tx {
                Ok(g) => {
                    proof {
                        assert(self.client.rpc.history() == spec_poll_trace(
                            pre,
                            hash@,
                            ((attempt + 1) - 1) as nat,
                        ).push(spec_get_tx_query(hash@)));
                    }
                    return Ok(g);
                },
                Err(_) => {},
            }
            self.client.rpc.wait(POLL_INTERVAL_SECS);
            attempt = attempt + 1;
        }
        Err(Error::TXPollingTimeout)
    }
}

} // verus!
