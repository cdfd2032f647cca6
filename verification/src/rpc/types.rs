use vstd::prelude::*;

use crate::error::Error;

verus! {

/// One request issued to the transport, recorded in the transport's
/// ghost history. The history lets the contracts of the orchestrator say
/// which requests an operation issues, in what order, and — just as
/// important — when it issues none at all.
pub enum RpcEvent {
    /// A generic query to a named chain path with an encoded request.
    Query { path: Seq<char>, request: Seq<u8> },
    /// A dry run of a signed transaction.
    Simulate { payload: Seq<u8> },
    /// A broadcast that waits for the node's check of the transaction.
    BroadcastSync { payload: Seq<u8> },
    /// A broadcast that returns at mempool acceptance.
    BroadcastAsync { payload: Seq<u8> },
    /// A pause of the calling unit of execution between poll attempts.
    Wait { seconds: u64 },
}

/// What a dry run reports about gas.
#[derive(Debug, Clone, Copy, PartialEq, Eq, Structural)]
pub struct GasInfo {
    /// The gas limit the dry run declared.
    pub gas_wanted: u64,
    /// The gas the dry run consumed; basis for the real gas limit.
    pub gas_used: u64,
}

/// Result of simulating a transaction. The transport may omit the gas
/// report; the orchestrator treats that as a distinct failure.
#[derive(Debug, Clone, PartialEq)]
pub struct SimulateResponse {
    /// Gas usage of the dry run, when the node reported it.
    pub gas_info: Option<GasInfo>,
}

/// Response to a broadcast that waited for the node's transaction check.
#[derive(Debug, Clone)]
pub struct TxSyncResponse {
    /// Status code; zero is success.
    pub code: u32,
    /// Result payload of the check.
    pub data: Vec<u8>,
    /// Raw log the node attached.
    pub log: String,
    /// Hash of the broadcast transaction, in hexadecimal.
    pub hash: String,
}

/// Response to a broadcast that returned at mempool acceptance.
#[derive(Debug, Clone)]
pub struct TxAsyncResponse {
    /// Status code; zero is success.
    pub code: u32,
    /// Result payload of the acceptance check.
    pub data: Vec<u8>,
    /// Raw log the node attached.
    pub log: String,
    /// Hash of the broadcast transaction, in hexadecimal.
    pub hash: String,
}

/// The transport's request history as a type of its own, so that
/// implementors outside the library can write the specification-only
/// history method without naming the proof library's types. The method
/// is ghost and never called at run time.
pub type History = Seq<RpcEvent>;

/// The reply a broadcast must carry: a transport that got an answer
/// without a result payload reports the distinct missing-response
/// failure instead of inventing a reply. Transports use this to
/// normalize their answers before handing them to the orchestrator.
pub fn required_tx_response<T>(tx: Option<T>) -> (r: Result<T, Error>)
    ensures
        match tx {
            Some(v) => r == Ok::<T, Error>(v),
            None => r == Err::<T, Error>(Error::NoneTxResponse),
        },
{
    match tx {
        Some(v) => Ok(v),
        None => Err(Error::NoneTxResponse),
    }
}

/// The capability the orchestrator needs from a transport: send opaque
/// typed requests to a named path, dry-run a signed payload, broadcast a
/// signed payload in either mode, and pause between poll attempts.
///
/// Two structurally different backends implement this contract outside the
/// library (a request/response one over HTTP and a streaming binary one),
/// and a test double can stand in for either. Nothing is promised of any
/// outcome — the remote chain decides — except that each call appends
/// exactly its own record to the ghost history.
pub trait Rpc: Sized {
    /// The requests this transport has been asked to send, in order.
    spec fn history(&self) -> History;

    /// Sends an encoded request to a named chain query path and returns the
    /// encoded response.
    fn query(&mut self, path: &str, request: Vec<u8>) -> (r: Result<Vec<u8>, Error>)
        ensures
            final(self).history() == old(self).history().push(
                RpcEvent::Query { path: path@, request: request@ },
            ),
    ;

    /// Dry-runs a signed transaction without committing it.
    fn simulate_tx(&mut self, payload: Vec<u8>) -> (r: Result<SimulateResponse, Error>)
        ensures
            final(self).history() == old(self).history().push(
                RpcEvent::Simulate { payload: payload@ },
            ),
    ;

    /// Broadcasts a signed transaction and waits for the node's check.
    fn broadcast_tx_sync(&mut self, payload: Vec<u8>) -> (r: Result<TxSyncResponse, Error>)
        ensures
            final(self).history() == old(self).history().push(
                RpcEvent::BroadcastSync { payload: payload@ },
            ),
    ;

    /// Broadcasts a signed transaction and returns at mempool acceptance.
    fn broadcast_tx_async(&mut self, payload: Vec<u8>) -> (r: Result<TxAsyncResponse, Error>)
        ensures
            final(self).history() == old(self).history().push(
                RpcEvent::BroadcastAsync { payload: payload@ },
            ),
    ;

    /// Pauses the calling unit of execution for the given interval. On a
    /// cooperative runtime the implementation must yield instead of
    /// blocking the whole process.
    fn wait(&mut self, seconds: u64)
        ensures
            final(self).history() == old(self).history().push(
                RpcEvent::Wait { seconds: seconds },
            ),
    ;
}

} // verus!
