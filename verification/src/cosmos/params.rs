use vstd::prelude::*;

use crate::client::CosmosClient;
use crate::error::Error;
use crate::rpc::types::{Rpc, RpcEvent};
use cosmrs::proto::prost::Message;

verus! {

/// One module parameter: where it lives and its raw value.
#[derive(Debug, Clone, PartialEq)]
pub struct ParamChange {
    /// The module subspace the parameter belongs to.
    pub subspace: String,
    /// The parameter's key within the subspace.
    pub key: String,
    /// The parameter's raw value.
    pub value: String,
}

impl View for ParamChange {
    type V = (Seq<char>, Seq<char>, Seq<char>);

    open spec fn view(&self) -> Self::V {
        (self.subspace@, self.key@, self.value@)
    }
}

/// One registered subspace and the keys it holds.
#[derive(Debug, Clone, PartialEq)]
pub struct Subspace {
    /// Name of the subspace.
    pub subspace: String,
    /// The keys registered in it.
    pub keys: Vec<String>,
}

impl View for Subspace {
    type V = (Seq<char>, Seq<Seq<char>>);

    open spec fn view(&self) -> Self::V {
        (self.subspace@, self.keys@.map_values(|k: String| k@))
    }
}

/// The encoded parameter request for a subspace and key.
pub uninterp spec fn params_request_bytes(subspace: Seq<char>, key: Seq<char>) -> Seq<u8>;

/// What decoding a parameter response yields: `None` when the bytes are
/// malformed, otherwise the optional parameter.
pub uninterp spec fn params_reply(bytes: Seq<u8>) -> Option<
    Option<(Seq<char>, Seq<char>, Seq<char>)>,
>;

/// What decoding a subspace listing response yields: `None` when the
/// bytes are malformed, otherwise the subspaces and their keys.
pub uninterp spec fn subspaces_reply(bytes: Seq<u8>) -> Option<Seq<(Seq<char>, Seq<Seq<char>>)>>;

/// The view of an optional parameter record.
pub open spec fn opt_param_view(p: Option<ParamChange>) -> Option<
    (Seq<char>, Seq<char>, Seq<char>),
> {
    match p {
        Some(x) => Some(x@),
        None => None,
    }
}

/// Relies on prost encoding of the params module's parameter request.
#[verifier::external_body]
fn encode_params_request(subspace: &str, key: &str) -> (r: Vec<u8>)
    ensures
        r@ == params_request_bytes(subspace@, key@),
{
    cosmrs::proto::cosmos::params::v1beta1::QueryParamsRequest {
        subspace: subspace.to_owned(),
        key: key.to_owned(),
    }.encode_to_vec()
}

/// Relies on prost decoding of the params module's parameter response.
#[verifier::external_body]
fn decode_params_response(bytes: &Vec<u8>) -> (r: Result<Option<ParamChange>, Error>)
    ensures
        r matches Ok(p) ==> params_reply(bytes@) == Some(opt_param_view(p)),
        r is Err ==> params_reply(bytes@) is None,
        r matches Err(e) ==> e matches Error::DecodeError(_),
{
    let resp = cosmrs::proto::cosmos::params::v1beta1::QueryParamsResponse::decode(
        bytes.as_slice(),
    ).map_err(crate::error::decode_failure)?;
    Ok(resp.param.map(|p| ParamChange { subspace: p.subspace, key: p.key, value: p.value }))
}

/// Relies on prost encoding of the params module's empty subspace request:
/// a message without fields encodes to no bytes at all.
#[verifier::external_body]
fn encode_subspaces_request() -> (r: Vec<u8>)
    ensures
        r@ == Seq::<u8>::empty(),
{
    cosmrs::proto::cosmos::params::v1beta1::QuerySubspacesRequest {}.encode_to_vec()
}

/// Relies on prost decoding of the params module's subspace response.
#[verifier::external_body]
fn decode_subspaces_response(bytes: &Vec<u8>) -> (r: Result<Vec<Subspace>, Error>)
    ensures
        r matches Ok(v) ==> subspaces_reply(bytes@) == Some(
            v@.map_values(|x: Subspace| x@),
        ),
        r is Err ==> subspaces_reply(bytes@) is None,
        r matches Err(e) ==> e matches Error::DecodeError(_),
{
    let resp = cosmrs::proto::cosmos::params::v1beta1::QuerySubspacesResponse::decode(
        bytes.as_slice(),
    ).map_err(crate::error::decode_failure)?;
    Ok(resp.subspaces.into_iter().map(|x| Subspace { subspace: x.subspace, keys: x.keys }).collect())
}

/// The params module's parameter path.
pub open spec fn spec_params_path() -> Seq<char> {
    "/cosmos.params.v1beta1.Query/Params"@
}

fn params_path() -> (r: &'static str)
    ensures
        r@ == spec_params_path(),
{
    "/cosmos.params.v1beta1.Query/Params"
}

/// The params module's subspace listing path.
pub open spec fn spec_subspaces_path() -> Seq<char> {
    "/cosmos.params.v1beta1.Query/Subspaces"@
}

fn subspaces_path() -> (r: &'static str)
    ensures
        r@ == spec_subspaces_path(),
{
    "/cosmos.params.v1beta1.Query/Subspaces"
}

/// Access to the chain's params module through a client.
pub struct Params<T: Rpc> {
    /// The client the module queries go through.
    pub client: CosmosClient<T>,
}

impl<T: Rpc> Params<T> {
    /// Creates a params module handle over the provided client.
    pub fn new(client: CosmosClient<T>) -> (r: Params<T>)
        ensures
            r.client == client,
    {
        Params { client }
    }

    /// Fetches one parameter of a subspace by key.
    pub fn params(&mut self, subspace: &str, key: &str) -> (r: Result<Option<ParamChange>, Error>)
        ensures
            final(self).client.rpc.history() == old(self).client.rpc.history().push(
                RpcEvent::Query {
                    path: spec_params_path(),
                    request: params_request_bytes(subspace@, key@),
                },
            ),
            final(self).client.chain_id == old(self).client.chain_id,
            final(self).client.signer == old(self).client.signer,
            r matches Ok(p) ==> exists|bytes: Seq<u8>| #[trigger] params_reply(bytes) == Some(
                opt_param_view(p),
            ),
    {
        let request = encode_params_request(subspace, key);
        let bytes = self.client.query(params_path(), request)?;
        let p = decode_params_response(&bytes)?;
        proof {
            assert(params_reply(bytes@) == Some(opt_param_view(p)));
        }
        Ok(p)
    }

    /// Fetches the list of all registered subspaces and their keys.
    pub fn subspaces(&mut self) -> (r: Result<Vec<Subspace>, Error>)
        ensures
            final(self).client.rpc.history() == old(self).client.rpc.history().push(
                RpcEvent::Query {
                    path: spec_subspaces_path(),
                    request: Seq::<u8>::empty(),
                },
            ),
            final(self).client.chain_id == old(self).client.chain_id,
            final(self).client.signer == old(self).client.signer,
            r matches Ok(v) ==> exists|bytes: Seq<u8>| #[trigger] subspaces_reply(bytes) == Some(
                v@.map_values(|x: Subspace| x@),
            ),
    {
        let request = encode_subspaces_request();
        let bytes = self.client.query(subspaces_path(), request)?;
        let v = decode_subspaces_response(&bytes)?;
        proof {
            assert(subspaces_reply(bytes@) == Some(v@.map_values(|x: Subspace| x@)));
        }
        Ok(v)
    }
}

} // verus!
