use vstd::prelude::*;

use crate::client::CosmosClient;
use crate::error::Error;
use crate::rpc::types::{Rpc, RpcEvent};
use crate::tx::AnyMsg;
use cosmrs::proto::prost::Message;
use osmosis_std::types::osmosis::concentratedliquidity::v1beta1::Pool as ConcentratedAmm;
use osmosis_std::types::osmosis::cosmwasmpool::v1beta1::CosmWasmPool;
use osmosis_std::types::osmosis::gamm::v1beta1::Pool as Amm;

verus! {

#[verifier::external_type_specification]
#[verifier::external_body]
pub struct ExAmm(Amm);

#[verifier::external_type_specification]
#[verifier::external_body]
pub struct ExConcentratedAmm(ConcentratedAmm);

#[verifier::external_type_specification]
#[verifier::external_body]
pub struct ExCosmWasmPool(CosmWasmPool);

/// The liquidity pool shapes the pool lookup recognizes. The decoded pool
/// records are opaque to the library; only the classification by type
/// identifier is its own logic.
#[derive(Debug)]
pub enum Pool {
    /// A weighted automated market maker pool.
    Amm(Amm),
    /// A concentrated-liquidity pool.
    ConcentratedAmm(ConcentratedAmm),
    /// A pool backed by a contract.
    CosmWasmPool(CosmWasmPool),
}

/// The reply of the spot-price lookup: the decimal price as its string
/// representation.
#[derive(Debug, Clone, PartialEq)]
pub struct SpotPriceResponse {
    /// The current spot price of the asset pair.
    pub spot_price: String,
}

/// The encoded spot-price request for a pool and an asset pair.
pub uninterp spec fn spot_price_request_bytes(
    pool_id: u64,
    base_asset_denom: Seq<char>,
    quote_asset_denom: Seq<char>,
) -> Seq<u8>;

/// What decoding a spot-price response yields: `None` when the bytes are
/// malformed, otherwise the price string.
pub uninterp spec fn spot_price_reply(bytes: Seq<u8>) -> Option<Seq<char>>;

/// The encoded pool request for a pool identifier.
pub uninterp spec fn pool_request_bytes(pool_id: u64) -> Seq<u8>;

/// What decoding a pool response yields: `None` when the bytes are
/// malformed, otherwise the optional pool record as its type identifier
/// and opaque payload.
pub uninterp spec fn pool_reply(bytes: Seq<u8>) -> Option<Option<(Seq<char>, Seq<u8>)>>;

/// Relies on prost encoding of the pool manager's spot-price request.
#[verifier::external_body]
fn encode_spot_price_request(pool_id: u64, base: &str, quote: &str) -> (r: Vec<u8>)
    ensures
        r@ == spot_price_request_bytes(pool_id, base@, quote@),
{
    osmosis_std::types::osmosis::poolmanager::v1beta1::SpotPriceRequest {
        pool_id,
        base_asset_denom: base.to_owned(),
        quote_asset_denom: quote.to_owned(),
    }.encode_to_vec()
}

/// Relies on prost decoding of the pool manager's spot-price response.
#[verifier::external_body]
fn decode_spot_price_response(bytes: &Vec<u8>) -> (r: Result<SpotPriceResponse, Error>)
    ensures
        r matches Ok(p) ==> spot_price_reply(bytes@) == Some(p.spot_price@),
        r is Err ==> spot_price_reply(bytes@) is None,
        r matches Err(e) ==> e matches Error::DecodeError(_),
{
    let resp = osmosis_std::types::osmosis::poolmanager::v2::SpotPriceResponse::decode(
        bytes.as_slice(),
    ).map_err(crate::error::decode_failure)?;
    Ok(SpotPriceResponse { spot_price: resp.spot_price })
}

/// Relies on prost encoding of the pool manager's pool request.
#[verifier::external_body]
fn encode_pool_request(pool_id: u64) -> (r: Vec<u8>)
    ensures
        r@ == pool_request_bytes(pool_id),
{
    osmosis_std::types::osmosis::poolmanager::v1beta1::PoolRequest { pool_id }.encode_to_vec()
}

/// Relies on prost decoding of the pool manager's pool response; the
/// optional pool comes back as its type identifier and opaque payload.
#[verifier::external_body]
fn decode_pool_response(bytes: &Vec<u8>) -> (r: Result<Option<AnyMsg>, Error>)
    ensures
        r matches Ok(p) ==> pool_reply(bytes@) == Some(crate::client::opt_any_view(p)),
        r is Err ==> pool_reply(bytes@) is None,
        r matches Err(e) ==> e matches Error::DecodeError(_),
{
    let resp = osmosis_std::types::osmosis::poolmanager::v1beta1::PoolResponse::decode(
        bytes.as_slice(),
    ).map_err(crate::error::decode_failure)?;
    Ok(resp.pool.map(|a| AnyMsg { type_url: a.type_url, value: a.value }))
}

/// Relies on prost decoding of the weighted pool record.
#[verifier::external_body]
fn decode_amm_pool(bytes: &Vec<u8>) -> (r: Result<Amm, Error>)
    ensures
        r matches Err(e) ==> e matches Error::DecodeError(_),
{
    Amm::decode(bytes.as_slice()).map_err(crate::error::decode_failure)
}

/// Relies on prost decoding of the concentrated-liquidity pool record.
#[verifier::external_body]
fn decode_concentrated_pool(bytes: &Vec<u8>) -> (r: Result<ConcentratedAmm, Error>)
    ensures
        r matches Err(e) ==> e matches Error::DecodeError(_),
{
    ConcentratedAmm::decode(bytes.as_slice()).map_err(crate::error::decode_failure)
}

/// Relies on prost decoding of the contract-backed pool record.
#[verifier::external_body]
fn decode_cosmwasm_pool(bytes: &Vec<u8>) -> (r: Result<CosmWasmPool, Error>)
    ensures
        r matches Err(e) ==> e matches Error::DecodeError(_),
{
    CosmWasmPool::decode(bytes.as_slice()).map_err(crate::error::decode_failure)
}

/// The pool manager's spot-price path.
pub open spec fn spec_spot_price_path() -> Seq<char> {
    "/osmosis.poolmanager.v1beta1.Query/SpotPrice"@
}

fn spot_price_path() -> (r: &'static str)
    ensures
        r@ == spec_spot_price_path(),
{
    "/osmosis.poolmanager.v1beta1.Query/SpotPrice"
}

/// The pool manager's pool path.
pub open spec fn spec_pool_path() -> Seq<char> {
    "/osmosis.poolmanager.v1beta1.Query/Pool"@
}

fn pool_path() -> (r: &'static str)
    ensures
        r@ == spec_pool_path(),
{
    "/osmosis.poolmanager.v1beta1.Query/Pool"
}

/// The type identifier of a concentrated-liquidity pool.
pub open spec fn spec_concentrated_pool_url() -> Seq<char> {
    "/osmosis.concentratedliquidity.v1beta1.Pool"@
}

fn concentrated_pool_url() -> (r: &'static str)
    ensures
        r@ == spec_concentrated_pool_url(),
{
    "/osmosis.concentratedliquidity.v1beta1.Pool"
}

/// The type identifier of a weighted pool.
pub open spec fn spec_amm_pool_url() -> Seq<char> {
    "/osmosis.gamm.v1beta1.Pool"@
}

fn amm_pool_url() -> (r: &'static str)
    ensures
        r@ == spec_amm_pool_url(),
{
    "/osmosis.gamm.v1beta1.Pool"
}

/// The type identifier of a contract-backed pool.
pub open spec fn spec_cosmwasm_pool_url() -> Seq<char> {
    "/osmosis.cosmwasmpool.v1beta1.CosmWasmPool"@
}

fn cosmwasm_pool_url() -> (r: &'static str)
    ensures
        r@ == spec_cosmwasm_pool_url(),
{
    "/osmosis.cosmwasmpool.v1beta1.CosmWasmPool"
}

/// How a returned pool record classifies by its type identifier.
pub enum PoolKind {
    /// No pool came back.
    Missing,
    /// A weighted pool record.
    Amm,
    /// A concentrated-liquidity pool record.
    Concentrated,
    /// A contract-backed pool record.
    CosmWasm,
    /// A record of a shape the lookup does not know.
    Unrecognized,
}

/// The pool classification rule over the optional decoded record.
pub open spec fn spec_classify_pool(p: Option<(Seq<char>, Seq<u8>)>) -> PoolKind {
    match p {
        None => PoolKind::Missing,
        Some(m) => {
            if m.0 == spec_concentrated_pool_url() {
                PoolKind::Concentrated
            } else if m.0 == spec_amm_pool_url() {
                PoolKind::Amm
            } else if m.0 == spec_cosmwasm_pool_url() {
                PoolKind::CosmWasm
            } else {
                PoolKind::Unrecognized
            }
        },
    }
}

/// Access to the pool manager through a client.
pub struct PoolManager<T: Rpc> {
    /// The client the lookups go through.
    pub client: CosmosClient<T>,
}

impl<T: Rpc> PoolManager<T> {
    /// Creates a pool manager handle over the provided client.
    pub fn new(client: CosmosClient<T>) -> (r: PoolManager<T>)
        ensures
            r.client == client,
    {
        PoolManager { client }
    }

    /// Fetches the current spot price of an asset pair in a pool.
    pub fn spot_price(&mut self, pool_id: u64, base_asset_denom: &str, quote_asset_denom: &str)
        -> (r: Result<SpotPriceResponse, Error>)
        ensures
            final(self).client.rpc.history() == old(self).client.rpc.history().push(
                RpcEvent::Query {
                    path: spec_spot_price_path(),
                    request: spot_price_request_bytes(
                        pool_id,
                        base_asset_denom@,
                        quote_asset_denom@,
                    ),
                },
            ),
            final(self).client.chain_id == old(self).client.chain_id,
            final(self).client.signer == old(self).client.signer,
            r matches Ok(p) ==> exists|bytes: Seq<u8>| #[trigger] spot_price_reply(bytes) == Some(
                p.spot_price@,
            ),
    {
        let request = encode_spot_price_request(pool_id, base_asset_denom, quote_asset_denom);
        let bytes = self.client.query(spot_price_path(), request)?;
        let p = decode_spot_price_response(&bytes)?;
        proof {
            assert(spot_price_reply(bytes@) == Some(p.spot_price@));
        }
        Ok(p)
    }

    /// Fetches a pool by its identifier and decodes it into one of the
    /// known shapes. An absent pool is a distinct failure; a record of an
    /// unrecognized shape is reported as a decode failure, never decoded
    /// into a default.
    pub fn pool(&mut self, pool_id: u64) -> (r: Result<Pool, Error>)
        ensures
            final(self).client.rpc.history() == old(self).client.rpc.history().push(
                RpcEvent::Query { path: spec_pool_path(), request: pool_request_bytes(pool_id) },
            ),
            final(self).client.chain_id == old(self).client.chain_id,
            final(self).client.signer == old(self).client.signer,
            r matches Ok(p) ==> exists|bytes: Seq<u8>|
                #[trigger] pool_reply(bytes) matches Some(m) && (match p {
                    Pool::Amm(_) => spec_classify_pool(m) is Amm,
                    Pool::ConcentratedAmm(_) => spec_classify_pool(m) is Concentrated,
                    Pool::CosmWasmPool(_) => spec_classify_pool(m) is CosmWasm,
                }),
    {
        let request = encode_pool_request(pool_id);
        let bytes = self.client.query(pool_path(), request)?;
        let msg = match decode_pool_response(&bytes)? {
            None => {
                return Err(Error::NotFoundPool);
            },
            Some(m) => m,
        };
        if msg.type_url == String::from_str(concentrated_pool_url()) {
            let p = decode_concentrated_pool(&msg.value)?;
            proof {
                assert(pool_reply(bytes@) matches Some(m2) && spec_classify_pool(m2)
                    is Concentrated);
            }
            Ok(Pool::ConcentratedAmm(p))
        } else if msg.type_url == String::from_str(amm_pool_url()) {
            let p = decode_amm_pool(&msg.value)?;
            proof {
                assert(pool_reply(bytes@) matches Some(m2) && spec_classify_pool(m2) is Amm);
            }
            Ok(Pool::Amm(p))
        } else if msg.type_url == String::from_str(cosmwasm_pool_url()) {
            let p = decode_cosmwasm_pool(&msg.value)?;
            proof {
                assert(pool_reply(bytes@) matches Some(m2) && spec_classify_pool(m2) is CosmWasm);
            }
            Ok(Pool::CosmWasmPool(p))
        } else {
            Err(Error::DecodeError(msg.type_url))
        }
    }
}

} // verus!
