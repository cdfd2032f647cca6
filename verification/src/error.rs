use vstd::prelude::*;

verus! {

/// The closed set of failures the library reports. Every failure from any
/// layer (key handling, account resolution, transport, broadcast, polling)
/// is normalized to one of these kinds and returned as a value; the library
/// never aborts the process.
#[derive(Debug, Clone, PartialEq)]
pub enum Error {
    /// A signing-dependent operation was invoked before a signer was set.
    NoSignerAttached,
    /// The dry run succeeded at the transport level but carried no gas usage.
    CannotSimulateTxGasFee,
    /// The adjusted gas value does not fit the gas-limit integer.
    OutOfGas,
    /// The resolver found no account, or an account of an unrecognized shape.
    AccountDoesNotExist { address: String },
    /// A vesting-typed account was missing its inner base account.
    NoVestingBaseAccount,
    /// The remote explicitly reported a non-success status for a query.
    RpcError(String),
    /// A query path could not be routed by the transport.
    QueryPath(String),
    /// A broadcast succeeded at the transport level but carried no payload.
    NoneTxResponse,
    /// Confirmation was not observed within the bounded retry budget.
    TXPollingTimeout,
    /// A payload could not be decoded at a deserialize boundary.
    DecodeError(String),
    /// A payload could not be encoded at a serialize boundary.
    EncodeError(String),
    /// Any other failure, described in text.
    Custom(String),
    /// A pool lookup returned no pool.
    NotFoundPool,
}

/// Every public operation reports its outcome through this result type.
pub type CosmosResult<T> = Result<T, Error>;

/// Turns a foreign failure into the library's serialize-boundary error.
#[verifier::external_body]
pub(crate) fn encode_failure<E: std::string::ToString>(e: E) -> (r: Error)
    ensures
        r matches Error::EncodeError(_),
{
    Error::EncodeError(e.to_string())
}

/// Turns a foreign failure into the library's deserialize-boundary error.
#[verifier::external_body]
pub(crate) fn decode_failure<E: std::string::ToString>(e: E) -> (r: Error)
    ensures
        r matches Error::DecodeError(_),
{
    Error::DecodeError(e.to_string())
}

} // verus!
