use vstd::prelude::*;

use crate::error::Error;
use crate::rpc::types::{Rpc, RpcEvent, SimulateResponse, TxAsyncResponse, TxSyncResponse};
use crate::signer::{signed_tx_bytes, Signer};
use crate::tx::{AnyMsg, Body};
use cosmrs::proto::prost::Message;

verus! {

// Names for what the message codec returns at the account-resolution
// boundary. Protobuf encoding and decoding are functions of the bytes
// alone.

/// The encoded account query for an address.
pub uninterp spec fn account_request_bytes(address: Seq<char>) -> Seq<u8>;

/// What decoding an account query response yields: `None` when the bytes
/// are malformed, otherwise the optional account as its type identifier
/// and opaque payload.
pub uninterp spec fn account_reply(bytes: Seq<u8>) -> Option<Option<(Seq<char>, Seq<u8>)>>;

/// What decoding a base account record yields: its account number and
/// sequence number, or `None` when the bytes are malformed.
pub uninterp spec fn base_account_fields(bytes: Seq<u8>) -> Option<(u64, u64)>;

/// What decoding a continuous vesting account record yields: `None` when
/// the bytes are malformed, `Some(None)` when the wrapped base account is
/// absent, and the wrapped numbers otherwise.
pub uninterp spec fn vesting_account_fields(bytes: Seq<u8>) -> Option<Option<(u64, u64)>>;

/// The view of an optional decoded account.
pub open spec fn opt_any_view(a: Option<AnyMsg>) -> Option<(Seq<char>, Seq<u8>)> {
    match a {
        Some(m) => Some(m@),
        None => None,
    }
}

/// Relies on prost encoding of the auth module's account query request:
/// the bytes are a function of the address.
#[verifier::external_body]
pub(crate) fn encode_account_request(address: &str) -> (r: Vec<u8>)
    ensures
        r@ == account_request_bytes(address@),
{
    cosmrs::proto::cosmos::auth::v1beta1::QueryAccountRequest { address: address.to_owned() }
        .encode_to_vec()
}

/// Relies on prost decoding of the auth module's account query response.
#[verifier::external_body]
pub(crate) fn decode_account_reply(bytes: &Vec<u8>) -> (r: Result<Option<AnyMsg>, Error>)
    ensures
        r matches Ok(a) ==> account_reply(bytes@) == Some(opt_any_view(a)),
        r is Err ==> account_reply(bytes@) is None,
        r matches Err(e) ==> e matches Error::DecodeError(_),
{
    let resp = cosmrs::proto::cosmos::auth::v1beta1::QueryAccountResponse::decode(
        bytes.as_slice(),
    ).map_err(crate::error::decode_failure)?;
    Ok(resp.account.map(|a| AnyMsg { type_url: a.type_url, value: a.value }))
}

/// Relies on prost decoding of the auth module's base account record.
#[verifier::external_body]
fn decode_base_account(bytes: &Vec<u8>) -> (r: Result<(u64, u64), Error>)
    ensures
        r matches Ok(p) ==> base_account_fields(bytes@) == Some(p),
        r is Err ==> base_account_fields(bytes@) is None,
        r matches Err(e) ==> e matches Error::DecodeError(_),
{
    let a = cosmrs::proto::cosmos::auth::v1beta1::BaseAccount::decode(bytes.as_slice())
        .map_err(crate::error::decode_failure)?;
    Ok((a.account_number, a.sequence))
}

/// Relies on prost decoding of the vesting module's continuous vesting
/// account record; the two optional layers collapse to one, since either
/// missing layer means the same absent base account.
#[verifier::external_body]
fn decode_vesting_account(bytes: &Vec<u8>) -> (r: Result<Option<(u64, u64)>, Error>)
    ensures
        r matches Ok(p) ==> vesting_account_fields(bytes@) == Some(p),
        r is Err ==> vesting_account_fields(bytes@) is None,
        r matches Err(e) ==> e matches Error::DecodeError(_),
{
    let a = cosmrs::proto::cosmos::vesting::v1beta1::ContinuousVestingAccount::decode(
        bytes.as_slice(),
    ).map_err(crate::error::decode_failure)?;
    Ok(a.base_vesting_account.and_then(|b| b.base_account).map(|b| (b.account_number, b.sequence)))
}

/// The auth module's account lookup path.
pub open spec fn spec_account_query_path() -> Seq<char> {
    "/cosmos.auth.v1beta1.Query/Account"@
}

pub(crate) fn account_query_path() -> (r: &'static str)
    ensures
        r@ == spec_account_query_path(),
{
    "/cosmos.auth.v1beta1.Query/Account"
}

/// The type identifier of a plain base account.
pub open spec fn spec_base_account_url() -> Seq<char> {
    "/cosmos.auth.v1beta1.BaseAccount"@
}

fn base_account_url() -> (r: &'static str)
    ensures
        r@ == spec_base_account_url(),
{
    "/cosmos.auth.v1beta1.BaseAccount"
}

/// The type identifier of a continuous vesting account.
pub open spec fn spec_vesting_account_url() -> Seq<char> {
    "/cosmos.vesting.v1beta1.ContinuousVestingAccount"@
}

fn vesting_account_url() -> (r: &'static str)
    ensures
        r@ == spec_vesting_account_url(),
{
    "/cosmos.vesting.v1beta1.ContinuousVestingAccount"
}

/// How a returned account record resolves. Only the two known shapes
/// resolve; anything else is a hard failure, never a silent default.
pub enum AccountResolution {
    /// A usable `(accountNumber, sequenceNumber)` pair.
    Resolved(u64, u64),
    /// No account came back, or its type identifier is not recognized.
    Unknown,
    /// A vesting-typed account was missing its inner base account.
    MissingVestingBase,
    /// A recognized account whose record does not decode.
    Malformed,
}

/// The account-resolution rule: a base account yields its own numbers, a
/// vesting account yields the numbers of the base account it wraps one
/// level deeper, and every other shape is unknown.
pub open spec fn spec_resolve_account(account: Option<(Seq<char>, Seq<u8>)>) -> AccountResolution {
    match account {
        None => AccountResolution::Unknown,
        Some(m) => {
            if m.0 == spec_base_account_url() {
                match base_account_fields(m.1) {
                    Some(p) => AccountResolution::Resolved(p.0, p.1),
                    None => AccountResolution::Malformed,
                }
            } else if m.0 == spec_vesting_account_url() {
                match vesting_account_fields(m.1) {
                    Some(Some(p)) => AccountResolution::Resolved(p.0, p.1),
                    Some(None) => AccountResolution::MissingVestingBase,
                    None => AccountResolution::Malformed,
                }
            } else {
                AccountResolution::Unknown
            }
        },
    }
}

/// Classifies and decodes a returned account record into account state,
/// exactly as `spec_resolve_account` rules.
pub fn resolve_account_state(account: Option<AnyMsg>, address: &str) -> (r: Result<
    (u64, u64),
    Error,
>)
    ensures
        match spec_resolve_account(opt_any_view(account)) {
            AccountResolution::Resolved(a, q) => r == Ok::<(u64, u64), Error>((a, q)),
            AccountResolution::Unknown => r matches Err(e) && (e matches
            Error::AccountDoesNotExist { address: x } && x@ == address@),
            AccountResolution::MissingVestingBase => r == Err::<(u64, u64), Error>(
                Error::NoVestingBaseAccount,
            ),
            AccountResolution::Malformed => r matches Err(e) && e matches Error::DecodeError(_),
        },
{
    let msg = match account {
        None => {
            return Err(Error::AccountDoesNotExist { address: address.to_owned() });
        },
        Some(m) => m,
    };
    if msg.type_url == String::from_str(base_account_url()) {
        let p = decode_base_account(&msg.value)?;
        Ok(p)
    } else if msg.type_url == String::from_str(vesting_account_url()) {
        match decode_vesting_account(&msg.value)? {
            Some(p) => Ok(p),
            None => Err(Error::NoVestingBaseAccount),
        }
    } else {
        Err(Error::AccountDoesNotExist { address: address.to_owned() })
    }
}

/// Law: a base account and a vesting account wrapping the same numbers
/// resolve to the same `(accountNumber, sequenceNumber)` pair.
pub proof fn lemma_vesting_resolves_like_base(
    base_bytes: Seq<u8>,
    vesting_bytes: Seq<u8>,
    p: (u64, u64),
)
    requires
        base_account_fields(base_bytes) == Some(p),
        vesting_account_fields(vesting_bytes) == Some(Some(p)),
    ensures
        spec_resolve_account(Some((spec_base_account_url(), base_bytes)))
            == spec_resolve_account(Some((spec_vesting_account_url(), vesting_bytes))),
        spec_resolve_account(Some((spec_base_account_url(), base_bytes)))
            == AccountResolution::Resolved(p.0, p.1),
{
    reveal_strlit("/cosmos.auth.v1beta1.BaseAccount");
    reveal_strlit("/cosmos.vesting.v1beta1.ContinuousVestingAccount");
    assert(spec_base_account_url().len() != spec_vesting_account_url().len());
}

/// Law: an account with an unrecognized type identifier never resolves;
/// it is reported unknown, not silently defaulted.
pub proof fn lemma_unknown_account_type(url: Seq<char>, payload: Seq<u8>)
    requires
        url != spec_base_account_url(),
        url != spec_vesting_account_url(),
    ensures
        spec_resolve_account(Some((url, payload))) is Unknown,
{
}

/// The fixed placeholder gas limit used only to produce well-formed bytes
/// for a dry run; it is never charged.
pub const PLACEHOLDER_GAS: u64 = 100;

/// The scaled gas limit: simulated usage increased by the adjustment
/// percentage, with truncating integer division.
pub open spec fn spec_scale_gas(gas_used: u64, pct: u8) -> int {
    (gas_used * (100 + pct)) / 100
}

/// Scales simulated gas by the adjustment percentage, exactly
/// `floor(gas_used * (100 + pct) / 100)`; `None` when the scaled value
/// does not fit the gas-limit integer.
pub fn scale_gas(gas_used: u64, pct: u8) -> (r: Option<u64>)
    ensures
        spec_scale_gas(gas_used, pct) <= u64::MAX ==> r == Some(
            spec_scale_gas(gas_used, pct) as u64,
        ),
        spec_scale_gas(gas_used, pct) > u64::MAX ==> r is None,
{
    proof {
        vstd::arithmetic::mul::lemma_mul_upper_bound(
            gas_used as int,
            u64::MAX as int,
            100 + pct as int,
            355,
        );
    }
    let wide: u128 = (gas_used as u128) * (100u128 + (pct as u128));
    let scaled: u128 = wide / 100;
    if scaled <= (u64::MAX as u128) {
        Some(scaled as u64)
    } else {
        None
    }
}

/// Law: gas scaling is monotonic, both in the simulated usage and in the
/// adjustment percentage.
pub proof fn lemma_scale_gas_monotonic(g1: u64, g2: u64, p1: u8, p2: u8)
    requires
        g1 <= g2,
        p1 <= p2,
    ensures
        spec_scale_gas(g1, p1) <= spec_scale_gas(g2, p2),
{
    vstd::arithmetic::mul::lemma_mul_upper_bound(g1 as int, g2 as int, 100 + p1 as int, 100 + p2 as int);
    vstd::arithmetic::div_mod::lemma_div_is_ordered(
        g1 as int * (100 + p1 as int),
        g2 as int * (100 + p2 as int),
        100,
    );
}

/// Extracts the usable gas from a dry run and applies the adjustment:
/// fails exactly when the dry run carried no gas report, or when the
/// adjusted value does not fit the gas-limit integer.
pub fn adjusted_gas(sim: &SimulateResponse, pct: u8) -> (r: Result<u64, Error>)
    ensures
        sim.gas_info is None ==> r == Err::<u64, Error>(Error::CannotSimulateTxGasFee),
        sim.gas_info matches Some(g) ==> (if spec_scale_gas(g.gas_used, pct) <= u64::MAX {
            r == Ok::<u64, Error>(spec_scale_gas(g.gas_used, pct) as u64)
        } else {
            r == Err::<u64, Error>(Error::OutOfGas)
        }),
{
    match &sim.gas_info {
        None => Err(Error::CannotSimulateTxGasFee),
        Some(g) => match scale_gas(g.gas_used, pct) {
            Some(v) => Ok(v),
            None => Err(Error::OutOfGas),
        },
    }
}

/// One account-resolution request of a signer, as the transport records it.
pub open spec fn spec_account_query_of(s: Signer) -> RpcEvent {
    RpcEvent::Query {
        path: spec_account_query_path(),
        request: account_request_bytes(s.public_address@),
    }
}

/// The dry-run request of one pipeline run: the body signed under the
/// resolved account state `(a, q)` with the fixed placeholder gas.
pub open spec fn spec_simulate_event(
    s: Signer,
    chain: Seq<char>,
    body: (Seq<(Seq<char>, Seq<u8>)>, Seq<char>),
    a: u64,
    q: u64,
) -> RpcEvent {
    RpcEvent::Simulate {
        payload: signed_tx_bytes(
            s.spec_secret(),
            s.denom@,
            s.gas_price,
            chain,
            a,
            q,
            PLACEHOLDER_GAS,
            body,
        ),
    }
}

/// The real signed payload of one pipeline run: the body signed under the
/// second resolution `(a2, q2)`, with the dry run's reported usage scaled
/// by the signer's percentage as the gas limit.
pub open spec fn spec_real_payload(
    s: Signer,
    chain: Seq<char>,
    body: (Seq<(Seq<char>, Seq<u8>)>, Seq<char>),
    a2: u64,
    q2: u64,
    used: u64,
) -> Seq<u8> {
    signed_tx_bytes(
        s.spec_secret(),
        s.denom@,
        s.gas_price,
        chain,
        a2,
        q2,
        spec_scale_gas(used, s.gas_adjustment_percent) as u64,
        body,
    )
}

/// The transport trace and result of one full signing pipeline run: one
/// resolution `(a1, q1)` feeds the placeholder-gas dry run, a second
/// independent resolution `(a2, q2)` feeds the real signature. The two
/// resolutions are the intended design: caching the first would risk a
/// stale sequence number.
pub open spec fn spec_sign_pipeline(
    s: Signer,
    chain: Seq<char>,
    body: (Seq<(Seq<char>, Seq<u8>)>, Seq<char>),
    pre: Seq<RpcEvent>,
    post: Seq<RpcEvent>,
    payload: Seq<u8>,
    a1: u64,
    q1: u64,
    a2: u64,
    q2: u64,
    used: u64,
) -> bool {
    &&& spec_scale_gas(used, s.gas_adjustment_percent) <= u64::MAX
    &&& post == pre.push(spec_account_query_of(s)).push(
        spec_simulate_event(s, chain, body, a1, q1),
    ).push(spec_account_query_of(s))
    &&& payload == spec_real_payload(s, chain, body, a2, q2, used)
}

/// A client for one chain over one transport, with an optional signer.
/// Every signing operation resolves the account state afresh immediately
/// before the signature it feeds; nothing is cached across calls.
pub struct CosmosClient<T: Rpc> {
    /// The chain identifier every signature targets.
    pub chain_id: String,
    /// The underlying transport.
    pub rpc: T,
    /// The signer used for transaction signing, when one is attached.
    pub signer: Option<Signer>,
}

impl<T: Rpc> CosmosClient<T> {
    /// Creates a client over an already-connected transport.
    pub fn new(rpc: T, chain_id: &str) -> (r: CosmosClient<T>)
        ensures
            r.chain_id@ == chain_id@,
            r.rpc == rpc,
            r.signer is None,
    {
        CosmosClient { chain_id: chain_id.to_owned(), rpc, signer: None }
    }

    /// Associates a signer with the client.
    pub fn attach_signer(&mut self, signer: Signer)
        ensures
            final(self).signer == Some(signer),
            final(self).chain_id == old(self).chain_id,
            final(self).rpc == old(self).rpc,
    {
        self.signer = Some(signer);
    }

    /// The currently associated signer.
    pub fn signer(&self) -> (r: Option<&Signer>)
        ensures
            match r {
                Some(s) => self.signer == Some(*s),
                None => self.signer is None,
            },
    {
        self.signer.as_ref()
    }

    /// Sends an opaque encoded request to a named chain query path and
    /// returns the opaque encoded response.
    pub fn query(&mut self, path: &str, msg: Vec<u8>) -> (r: Result<Vec<u8>, Error>)
        ensures
            final(self).rpc.history() == old(self).rpc.history().push(
                RpcEvent::Query { path: path@, request: msg@ },
            ),
            final(self).chain_id == old(self).chain_id,
            final(self).signer == old(self).signer,
    {
        self.rpc.query(path, msg)
    }

    /// Resolves the attached signer's on-chain account state — its
    /// permanent account number and its next sequence number — fetched
    /// fresh with one query, never from a cache.
    pub fn account_sequence_id(&mut self) -> (r: Result<(u64, u64), Error>)
        ensures
            old(self).signer is None ==> r == Err::<(u64, u64), Error>(Error::NoSignerAttached)
                && *final(self) == *old(self),
            final(self).chain_id == old(self).chain_id,
            final(self).signer == old(self).signer,
            old(self).signer matches Some(s) ==> final(self).rpc.history() == old(
                self,
            ).rpc.history().push(
                RpcEvent::Query {
                    path: spec_account_query_path(),
                    request: account_request_bytes(s.public_address@),
                },
            ),
            r matches Ok(p) ==> exists|bytes: Seq<u8>|
                #[trigger] account_reply(bytes) matches Some(acct) && spec_resolve_account(acct)
                    == AccountResolution::Resolved(p.0, p.1),
    {
        let address = match &self.signer {
            None => {
                return Err(Error::NoSignerAttached);
            },
            Some(s) => s.public_address.clone(),
        };
        let request = encode_account_request(address.as_str());
        let bytes = self.query(account_query_path(), request)?;
        let account = decode_account_reply(&bytes)?;
        let p = resolve_account_state(account, address.as_str())?;
        proof {
            assert(account_reply(bytes@) matches Some(acct) && spec_resolve_account(acct)
                == AccountResolution::Resolved(p.0, p.1));
        }
        Ok(p)
    }

    /// Dry-runs a transaction body: resolves the account state, signs with
    /// the fixed placeholder gas limit purely to produce well-formed bytes,
    /// and submits them for simulation.
    pub fn simulate_tx(&mut self, body: &Body) -> (r: Result<SimulateResponse, Error>)
        ensures
            old(self).signer is None ==> r == Err::<SimulateResponse, Error>(
                Error::NoSignerAttached,
            ) && *final(self) == *old(self),
            final(self).chain_id == old(self).chain_id,
            final(self).signer == old(self).signer,
            old(self).rpc.history().is_prefix_of(final(self).rpc.history()),
            old(self).signer matches Some(s) ==> (r matches Ok(_) ==> exists|a: u64, q: u64|
                final(self).rpc.history() == old(self).rpc.history().push(
                    spec_account_query_of(s),
                ).push(#[trigger] spec_simulate_event(s, old(self).chain_id@, body@, a, q))),
    {
        if self.signer.is_none() {
            return Err(Error::NoSignerAttached);
        }
        let (account_number, sequence_id) = self.account_sequence_id()?;
        let signer = self.signer.as_ref().unwrap();
        let tx = signer.sign(
            self.chain_id.as_str(),
            account_number,
            sequence_id,
            PLACEHOLDER_GAS,
            body,
        )?;
        let r = self.rpc.simulate_tx(tx);
        proof {
            if let Some(s2) = old(self).signer {
                assert(self.rpc.history() == old(self).rpc.history().push(
                    spec_account_query_of(s2),
                ).push(
                    spec_simulate_event(
                        s2,
                        old(self).chain_id@,
                        body@,
                        account_number,
                        sequence_id,
                    ),
                ));
            }
        }
        r
    }

    /// Produces the final signed payload: dry-runs the body, scales the
    /// reported gas by the signer's adjustment percentage, resolves the
    /// account state a second, independent time, and signs with that
    /// freshly resolved sequence number. The two resolutions are the
    /// intended design: caching the first would risk a stale sequence.
    pub fn sign_tx(&mut self, body: &Body) -> (r: Result<Vec<u8>, Error>)
        ensures
            old(self).signer is None ==> r == Err::<Vec<u8>, Error>(Error::NoSignerAttached)
                && *final(self) == *old(self),
            final(self).chain_id == old(self).chain_id,
            final(self).signer == old(self).signer,
            old(self).rpc.history().is_prefix_of(final(self).rpc.history()),
            old(self).signer matches Some(s) ==> (r matches Ok(payload) ==> exists|
                a1: u64,
                q1: u64,
                a2: u64,
                q2: u64,
                used: u64,
            |
                #[trigger] spec_sign_pipeline(
                    s,
                    old(self).chain_id@,
                    body@,
                    old(self).rpc.history(),
                    final(self).rpc.history(),
                    payload@,
                    a1,
                    q1,
                    a2,
                    q2,
                    used,
                )),
    {
        if self.signer.is_none() {
            return Err(Error::NoSignerAttached);
        }
        let ghost pre: Seq<RpcEvent> = self.rpc.history();
        let sim = self.simulate_tx(body)?;
        let ghost mid: Seq<RpcEvent> = self.rpc.history();
        let pct = self.signer.as_ref().unwrap().gas_adjustment_percent;
        let gas = adjusted_gas(&sim, pct)?;
        let (account_number, sequence_id) = self.account_sequence_id()?;
        let signer = self.signer.as_ref().unwrap();
        let res = signer.sign(self.chain_id.as_str(), account_number, sequence_id, gas, body);
        proof {
            if let Some(s2) = old(self).signer {
                let (a1, q1): (u64, u64) = choose|a1: u64, q1: u64|
                    mid == pre.push(spec_account_query_of(s2)).push(
                        spec_simulate_event(s2, old(self).chain_id@, body@, a1, q1),
                    );
                if let Ok(payload) = &res {
                    if let Some(g) = sim.gas_info {
                        assert(spec_sign_pipeline(
                            s2,
                            old(self).chain_id@,
                            body@,
                            pre,
                            self.rpc.history(),
                            payload@,
                            a1,
                            q1,
                            account_number,
                            sequence_id,
                            g.gas_used,
                        ));
                    }
                }
            }
        }
        res
    }

    /// Signs the body through the full pipeline and broadcasts it without
    /// waiting for it to be included in a block.
    pub fn broadcast_tx_async(&mut self, body: &Body) -> (r: Result<TxAsyncResponse, Error>)
        ensures
            old(self).signer is None ==> r == Err::<TxAsyncResponse, Error>(
                Error::NoSignerAttached,
            ) && *final(self) == *old(self),
            final(self).chain_id == old(self).chain_id,
            final(self).signer == old(self).signer,
            old(self).rpc.history().is_prefix_of(final(self).rpc.history()),
            old(self).signer matches Some(s) ==> (r matches Ok(_) ==> exists|
                a1: u64,
                q1: u64,
                a2: u64,
                q2: u64,
                used: u64,
            |
                {
                    &&& final(self).rpc.history().len() > 0
                    &&& #[trigger] spec_sign_pipeline(
                        s,
                        old(self).chain_id@,
                        body@,
                        old(self).rpc.history(),
                        final(self).rpc.history().drop_last(),
                        spec_real_payload(s, old(self).chain_id@, body@, a2, q2, used),
                        a1,
                        q1,
                        a2,
                        q2,
                        used,
                    )
                    &&& final(self).rpc.history().last() == (RpcEvent::BroadcastAsync {
                        payload: spec_real_payload(s, old(self).chain_id@, body@, a2, q2, used),
                    })
                }),
    {
        let ghost pre: Seq<RpcEvent> = self.rpc.history();
        let payload = self.sign_tx(body)?;
        let ghost mid: Seq<RpcEvent> = self.rpc.history();
        let ghost p_view: Seq<u8> = payload@;
        let r = self.rpc.broadcast_tx_async(payload);
        proof {
            if let Some(s2) = old(self).signer {
                let (a1, q1, a2, q2, used): (u64, u64, u64, u64, u64) = choose|
                    a1: u64,
                    q1: u64,
                    a2: u64,
                    q2: u64,
                    used: u64,
                | spec_sign_pipeline(
                    s2,
                    old(self).chain_id@,
                    body@,
                    pre,
                    mid,
                    p_view,
                    a1,
                    q1,
                    a2,
                    q2,
                    used,
                );
                assert(self.rpc.history().drop_last() =~= mid);
                assert(spec_sign_pipeline(
                    s2,
                    old(self).chain_id@,
                    body@,
                    pre,
                    self.rpc.history().drop_last(),
                    spec_real_payload(s2, old(self).chain_id@, body@, a2, q2, used),
                    a1,
                    q1,
                    a2,
                    q2,
                    used,
                ));
            }
        }
        r
    }

    /// Signs the body through the full pipeline and broadcasts it, waiting
    /// for the node's transaction check.
    pub fn broadcast_tx_sync(&mut self, body: &Body) -> (r: Result<TxSyncResponse, Error>)
        ensures
            old(self).signer is None ==> r == Err::<TxSyncResponse, Error>(
                Error::NoSignerAttached,
            ) && *final(self) == *old(self),
            final(self).chain_id == old(self).chain_id,
            final(self).signer == old(self).signer,
            old(self).rpc.history().is_prefix_of(final(self).rpc.history()),
            old(self).signer matches Some(s) ==> (r matches Ok(_) ==> exists|
                a1: u64,
                q1: u64,
                a2: u64,
                q2: u64,
                used: u64,
            |
                {
                    &&& final(self).rpc.history().len() > 0
                    &&& #[trigger] spec_sign_pipeline(
                        s,
                        old(self).chain_id@,
                        body@,
                        old(self).rpc.history(),
                        final(self).rpc.history().drop_last(),
                        spec_real_payload(s, old(self).chain_id@, body@, a2, q2, used),
                        a1,
                        q1,
                        a2,
                        q2,
                        used,
                    )
                    &&& final(self).rpc.history().last() == (RpcEvent::BroadcastSync {
                        payload: spec_real_payload(s, old(self).chain_id@, body@, a2, q2, used),
                    })
                }),
    {
        let ghost pre: Seq<RpcEvent> = self.rpc.history();
        let payload = self.sign_tx(body)?;
        let ghost mid: Seq<RpcEvent> = self.rpc.history();
        let ghost p_view: Seq<u8> = payload@;
        let r = self.rpc.broadcast_tx_sync(payload);
        proof {
            if let Some(s2) = old(self).signer {
                let (a1, q1, a2, q2, used): (u64, u64, u64, u64, u64) = choose|
                    a1: u64,
                    q1: u64,
                    a2: u64,
                    q2: u64,
                    used: u64,
                | spec_sign_pipeline(
                    s2,
                    old(self).chain_id@,
                    body@,
                    pre,
                    mid,
                    p_view,
                    a1,
                    q1,
                    a2,
                    q2,
                    used,
                );
                assert(self.rpc.history().drop_last() =~= mid);
                assert(spec_sign_pipeline(
                    s2,
                    old(self).chain_id@,
                    body@,
                    pre,
                    self.rpc.history().drop_last(),
                    spec_real_payload(s2, old(self).chain_id@, body@, a2, q2, used),
                    a1,
                    q1,
                    a2,
                    q2,
                    used,
                ));
            }
        }
        r
    }
}

} // verus!
