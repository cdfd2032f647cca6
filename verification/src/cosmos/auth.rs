use vstd::prelude::*;

use crate::client::{account_query_path, account_reply, account_request_bytes, decode_account_reply, encode_account_request, opt_any_view, spec_account_query_path, CosmosClient};
use crate::error::Error;
use crate::rpc::types::{Rpc, RpcEvent};
use crate::tx::AnyMsg;
use cosmrs::proto::prost::Message;

verus! {

/// An optional page selector for list queries, as plain values.
#[derive(Debug, Clone, PartialEq)]
pub struct PageRequest {
    /// Opaque continuation key from a previous page.
    pub key: Vec<u8>,
    /// Offset of the first record, when no key is used.
    pub offset: u64,
    /// Largest number of records to return.
    pub limit: u64,
    /// Whether the total count is requested.
    pub count_total: bool,
    /// Whether the records come in reverse order.
    pub reverse: bool,
}

impl View for PageRequest {
    type V = (Seq<u8>, u64, u64, bool, bool);

    open spec fn view(&self) -> Self::V {
        (self.key@, self.offset, self.limit, self.count_total, self.reverse)
    }
}

/// The page cursor a list query returns.
#[derive(Debug, Clone, PartialEq)]
pub struct PageResponse {
    /// Continuation key for the next page; empty on the last page.
    pub next_key: Vec<u8>,
    /// Total record count, when it was requested.
    pub total: u64,
}

impl View for PageResponse {
    type V = (Seq<u8>, u64);

    open spec fn view(&self) -> Self::V {
        (self.next_key@, self.total)
    }
}

/// The view of an optional page selector.
pub open spec fn opt_page_view(p: Option<PageRequest>) -> Option<(Seq<u8>, u64, u64, bool, bool)> {
    match p {
        Some(x) => Some(x@),
        None => None,
    }
}

/// Reply of the account listing: the existing accounts as opaque typed
/// records, and the page cursor.
#[derive(Debug, Clone)]
pub struct QueryAccountsResponse {
    /// The accounts of this page, each as its type identifier and payload.
    pub accounts: Vec<AnyMsg>,
    /// The page cursor, when the node returned one.
    pub pagination: Option<PageResponse>,
}

impl View for QueryAccountsResponse {
    type V = (Seq<(Seq<char>, Seq<u8>)>, Option<(Seq<u8>, u64)>);

    open spec fn view(&self) -> Self::V {
        (
            self.accounts@.map_values(|m: AnyMsg| m@),
            match self.pagination {
                Some(p) => Some(p@),
                None => None,
            },
        )
    }
}

/// Reply of the single-account lookup.
#[derive(Debug, Clone)]
pub struct QueryAccountResponse {
    /// The account, as its type identifier and opaque payload.
    pub account: Option<AnyMsg>,
}

/// The auth module's parameters, as plain values.
#[derive(Debug, Clone, Copy, PartialEq, Eq, Structural)]
pub struct AuthParams {
    /// Longest memo a transaction may carry.
    pub max_memo_characters: u64,
    /// Largest number of signatures a transaction may carry.
    pub tx_sig_limit: u64,
    /// Gas cost per byte of transaction size.
    pub tx_size_cost_per_byte: u64,
    /// Gas cost of verifying an ed25519 signature.
    pub sig_verify_cost_ed25519: u64,
    /// Gas cost of verifying a secp256k1 signature.
    pub sig_verify_cost_secp256k1: u64,
}

/// The encoded account listing request for a page selector.
pub uninterp spec fn accounts_request_bytes(pagination: Option<(Seq<u8>, u64, u64, bool, bool)>) -> Seq<u8>;

/// What decoding an account listing response yields: `None` when the
/// bytes are malformed, otherwise the records and the page cursor.
pub uninterp spec fn accounts_reply(bytes: Seq<u8>) -> Option<
    (Seq<(Seq<char>, Seq<u8>)>, Option<(Seq<u8>, u64)>),
>;

/// What decoding an auth parameter response yields: `None` when the bytes
/// are malformed, otherwise the parameters (absent fields decode as zero).
pub uninterp spec fn auth_params_reply(bytes: Seq<u8>) -> Option<AuthParams>;

/// Relies on prost encoding of the auth module's account listing request.
#[verifier::external_body]
fn encode_accounts_request(pagination: &Option<PageRequest>) -> (r: Vec<u8>)
    ensures
        r@ == accounts_request_bytes(opt_page_view(*pagination)),
{
    cosmrs::proto::cosmos::auth::v1beta1::QueryAccountsRequest {
        pagination: pagination.as_ref().map(|p|
            cosmrs::proto::cosmos::base::query::v1beta1::PageRequest {
                key: p.key.clone(),
                offset: p.offset,
                limit: p.limit,
                count_total: p.count_total,
                reverse: p.reverse,
            }),
    }.encode_to_vec()
}

/// Relies on prost decoding of the auth module's account listing response.
#[verifier::external_body]
fn decode_accounts_response(bytes: &Vec<u8>) -> (r: Result<QueryAccountsResponse, Error>)
    ensures
        r matches Ok(a) ==> accounts_reply(bytes@) == Some(a@),
        r is Err ==> accounts_reply(bytes@) is None,
        r matches Err(e) ==> e matches Error::DecodeError(_),
{
    let resp = cosmrs::proto::cosmos::auth::v1beta1::QueryAccountsResponse::decode(
        bytes.as_slice(),
    ).map_err(crate::error::decode_failure)?;
    Ok(QueryAccountsResponse {
        accounts: resp.accounts.into_iter().map(|a| AnyMsg { type_url: a.type_url, value: a.value }).collect(),
        pagination: resp.pagination.map(|p| PageResponse { next_key: p.next_key, total: p.total }),
    })
}

/// Relies on prost encoding of the auth module's empty parameter request:
/// a message without fields encodes to no bytes at all.
#[verifier::external_body]
fn encode_auth_params_request() -> (r: Vec<u8>)
    ensures
        r@ == Seq::<u8>::empty(),
{
    cosmrs::proto::cosmos::auth::v1beta1::QueryParamsRequest {}.encode_to_vec()
}

/// Relies on prost decoding of the auth module's parameter response; a
/// response without parameters decodes to all-zero values, as the protobuf
/// defaults rule.
#[verifier::external_body]
fn decode_auth_params_response(bytes: &Vec<u8>) -> (r: Result<AuthParams, Error>)
    ensures
        r matches Ok(p) ==> auth_params_reply(bytes@) == Some(p),
        r is Err ==> auth_params_reply(bytes@) is None,
        r matches Err(e) ==> e matches Error::DecodeError(_),
{
    let resp = cosmrs::proto::cosmos::auth::v1beta1::QueryParamsResponse::decode(bytes.as_slice())
        .map_err(crate::error::decode_failure)?;
    let p = resp.params.unwrap_or_default();
    Ok(AuthParams {
        max_memo_characters: p.max_memo_characters,
        tx_sig_limit: p.tx_sig_limit,
        tx_size_cost_per_byte: p.tx_size_cost_per_byte,
        sig_verify_cost_ed25519: p.sig_verify_cost_ed25519,
        sig_verify_cost_secp256k1: p.sig_verify_cost_secp256k1,
    })
}

/// The auth module's account listing path.
pub open spec fn spec_accounts_path() -> Seq<char> {
    "/cosmos.auth.v1beta1.Query/Accounts"@
}

fn accounts_path() -> (r: &'static str)
    ensures
        r@ == spec_accounts_path(),
{
    "/cosmos.auth.v1beta1.Query/Accounts"
}

/// The auth module's parameter path.
pub open spec fn spec_auth_params_path() -> Seq<char> {
    "/cosmos.auth.v1beta1.Query/Params"@
}

fn auth_params_path() -> (r: &'static str)
    ensures
        r@ == spec_auth_params_path(),
{
    "/cosmos.auth.v1beta1.Query/Params"
}

/// Access to the chain's auth module through a client.
pub struct Auth<T: Rpc> {
    /// The client the module queries go through.
    pub client: CosmosClient<T>,
}

impl<T: Rpc> Auth<T> {
    /// Creates an auth module handle over the provided client.
    pub fn new(client: CosmosClient<T>) -> (r: Auth<T>)
        ensures
            r.client == client,
    {
        Auth { client }
    }

    /// Fetches a page of the chain's accounts.
    pub fn accounts(&mut self, pagination: Option<PageRequest>) -> (r: Result<
        QueryAccountsResponse,
        Error,
    >)
        ensures
            final(self).client.rpc.history() == old(self).client.rpc.history().push(
                RpcEvent::Query {
                    path: spec_accounts_path(),
                    request: accounts_request_bytes(opt_page_view(pagination)),
                },
            ),
            final(self).client.chain_id == old(self).client.chain_id,
            final(self).client.signer == old(self).client.signer,
            r matches Ok(a) ==> exists|bytes: Seq<u8>| #[trigger] accounts_reply(bytes) == Some(a@),
    {
        let request = encode_accounts_request(&pagination);
        let bytes = self.client.query(accounts_path(), request)?;
        let a = decode_accounts_response(&bytes)?;
        proof {
            assert(accounts_reply(bytes@) == Some(a@));
        }
        Ok(a)
    }

    /// Fetches one account by its address, as an opaque typed record.
    pub fn account(&mut self, address: &str) -> (r: Result<QueryAccountResponse, Error>)
        ensures
            final(self).client.rpc.history() == old(self).client.rpc.history().push(
                RpcEvent::Query {
                    path: spec_account_query_path(),
                    request: account_request_bytes(address@),
                },
            ),
            final(self).client.chain_id == old(self).client.chain_id,
            final(self).client.signer == old(self).client.signer,
            r matches Ok(a) ==> exists|bytes: Seq<u8>| #[trigger] account_reply(bytes) == Some(
                opt_any_view(a.account),
            ),
    {
        let request = encode_account_request(address);
        let bytes = self.client.query(account_query_path(), request)?;
        let account = decode_account_reply(&bytes)?;
        proof {
            assert(account_reply(bytes@) == Some(opt_any_view(account)));
        }
        Ok(QueryAccountResponse { account })
    }

    /// Fetches the auth module's parameters.
    pub fn params(&mut self) -> (r: Result<AuthParams, Error>)
        ensures
            final(self).client.rpc.history() == old(self).client.rpc.history().push(
                RpcEvent::Query {
                    path: spec_auth_params_path(),
                    request: Seq::<u8>::empty(),
                },
            ),
            final(self).client.chain_id == old(self).client.chain_id,
            final(self).client.signer == old(self).client.signer,
            r matches Ok(p) ==> exists|bytes: Seq<u8>| #[trigger] auth_params_reply(bytes) == Some(
                p,
            ),
    {
        let request = encode_auth_params_request();
        let bytes = self.client.query(auth_params_path(), request)?;
        let p = decode_auth_params_response(&bytes)?;
        proof {
            assert(auth_params_reply(bytes@) == Some(p));
        }
        Ok(p)
    }
}

} // verus!
