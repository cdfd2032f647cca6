use vstd::prelude::*;

use crate::client::CosmosClient;
use crate::cosmos::auth::{opt_page_view, PageRequest};
use crate::error::Error;
use crate::rpc::types::{Rpc, RpcEvent};
use cosmrs::proto::prost::Message;
use osmosis_std::types::osmosis::concentratedliquidity::v1beta1::UserPositionsResponse;

verus! {

#[verifier::external_type_specification]
#[verifier::external_body]
pub struct ExUserPositionsResponse(UserPositionsResponse);

/// The encoded position listing request for an address, a pool and a
/// page selector.
pub uninterp spec fn user_positions_request_bytes(
    address: Seq<char>,
    pool_id: u64,
    pagination: Option<(Seq<u8>, u64, u64, bool, bool)>,
) -> Seq<u8>;

/// Relies on prost encoding of the concentrated-liquidity position
/// listing request.
#[verifier::external_body]
fn encode_user_positions_request(address: &str, pool_id: u64, pagination: &Option<PageRequest>)
    -> (r: Vec<u8>)
    ensures
        r@ == user_positions_request_bytes(address@, pool_id, opt_page_view(*pagination)),
{
    osmosis_std::types::osmosis::concentratedliquidity::v1beta1::UserPositionsRequest {
        address: address.to_owned(),
        pool_id,
        pagination: pagination.as_ref().map(|p|
            osmosis_std::types::cosmos::base::query::v1beta1::PageRequest {
                key: p.key.clone(),
                offset: p.offset,
                limit: p.limit,
                count_total: p.count_total,
                reverse: p.reverse,
            }),
    }.encode_to_vec()
}

/// Relies on prost decoding of the concentrated-liquidity position
/// listing response; the record is carried through opaquely.
#[verifier::external_body]
fn decode_user_positions_response(bytes: &Vec<u8>) -> (r: Result<UserPositionsResponse, Error>)
    ensures
        r matches Err(e) ==> e matches Error::DecodeError(_),
{
    UserPositionsResponse::decode(bytes.as_slice()).map_err(crate::error::decode_failure)
}

/// The concentrated-liquidity module's position listing path.
pub open spec fn spec_user_positions_path() -> Seq<char> {
    "/osmosis.concentratedliquidity.v1beta1.Query/UserPositions"@
}

fn user_positions_path() -> (r: &'static str)
    ensures
        r@ == spec_user_positions_path(),
{
    "/osmosis.concentratedliquidity.v1beta1.Query/UserPositions"
}

/// Access to the concentrated-liquidity module through a client.
pub struct ConcentratedLiquidity<T: Rpc> {
    /// The client the lookups go through.
    pub client: CosmosClient<T>,
}

impl<T: Rpc> ConcentratedLiquidity<T> {
    /// Creates a concentrated-liquidity handle over the provided client.
    pub fn new(client: CosmosClient<T>) -> (r: ConcentratedLiquidity<T>)
        ensures
            r.client == client,
    {
        ConcentratedLiquidity { client }
    }

    /// Fetches an address's positions in a pool, as the module reports
    /// them; the record is opaque to the library and handed through.
    pub fn user_positions(
        &mut self,
        address: &str,
        pool_id: u64,
        pagination: Option<PageRequest>,
    ) -> (r: Result<UserPositionsResponse, Error>)
        ensures
            final(self).client.rpc.history() == old(self).client.rpc.history().push(
                RpcEvent::Query {
                    path: spec_user_positions_path(),
                    request: user_positions_request_bytes(
                        address@,
                        pool_id,
                        opt_page_view(pagination),
                    ),
                },
            ),
            final(self).client.chain_id == old(self).client.chain_id,
            final(self).client.signer == old(self).client.signer,
    {
        let request = encode_user_positions_request(address, pool_id, &pagination);
        let bytes = self.client.query(user_positions_path(), request)?;
        decode_user_positions_response(&bytes)
    }
}

} // verus!
