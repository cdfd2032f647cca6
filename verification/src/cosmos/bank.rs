use vstd::prelude::*;

use crate::client::CosmosClient;
use crate::error::Error;
use crate::rpc::types::{Rpc, RpcEvent};
use crate::tx::{AnyMsg, Body};
use cosmrs::proto::prost::Message;

verus! {

/// One amount of one denomination, as the chain's interface writes it:
/// both fields are strings on the wire.
#[derive(Debug, Clone, PartialEq)]
pub struct Coin {
    /// Denomination of the amount.
    pub denom: String,
    /// Decimal amount, as its string representation.
    pub amount: String,
}

impl View for Coin {
    type V = (Seq<char>, Seq<char>);

    open spec fn view(&self) -> Self::V {
        (self.denom@, self.amount@)
    }
}

/// One denomination unit of a token's metadata.
#[derive(Debug, Clone, PartialEq)]
pub struct DenomUnit {
    /// Name of this unit.
    pub denom: String,
    /// Power of ten relating this unit to the base unit.
    pub exponent: u32,
    /// Alternative names of this unit.
    pub aliases: Vec<String>,
}

impl View for DenomUnit {
    type V = (Seq<char>, u32, Seq<Seq<char>>);

    open spec fn view(&self) -> Self::V {
        (self.denom@, self.exponent, self.aliases@.map_values(|a: String| a@))
    }
}

/// A token denomination's metadata, as plain values.
#[derive(Debug, Clone, PartialEq)]
pub struct Metadata {
    /// Free-form description of the token.
    pub description: String,
    /// The units the token is expressed in.
    pub denom_units: Vec<DenomUnit>,
    /// The base unit, with exponent zero.
    pub base: String,
    /// The unit clients should display.
    pub display: String,
    /// Name of the token.
    pub name: String,
    /// Symbol of the token.
    pub symbol: String,
    /// Link to a document with more information; may be empty.
    pub uri: String,
    /// Hash of that document; may be empty.
    pub uri_hash: String,
}

impl View for Metadata {
    type V = (
        Seq<char>,
        Seq<(Seq<char>, u32, Seq<Seq<char>>)>,
        Seq<char>,
        Seq<char>,
        Seq<char>,
        Seq<char>,
        Seq<char>,
        Seq<char>,
    );

    open spec fn view(&self) -> Self::V {
        (
            self.description@,
            self.denom_units@.map_values(|u: DenomUnit| u@),
            self.base@,
            self.display@,
            self.name@,
            self.symbol@,
            self.uri@,
            self.uri_hash@,
        )
    }
}

/// The encoded bank send message for a sender, a recipient and amounts.
pub uninterp spec fn msg_send_bytes(
    from: Seq<char>,
    to: Seq<char>,
    amount: Seq<(Seq<char>, Seq<char>)>,
) -> Seq<u8>;

/// The encoded metadata request for a denomination.
pub uninterp spec fn denom_metadata_request_bytes(denom: Seq<char>) -> Seq<u8>;

/// What decoding a metadata response yields: `None` when the bytes are
/// malformed, otherwise the optional metadata.
pub uninterp spec fn denom_metadata_reply(bytes: Seq<u8>) -> Option<
    Option<
        (
            Seq<char>,
            Seq<(Seq<char>, u32, Seq<Seq<char>>)>,
            Seq<char>,
            Seq<char>,
            Seq<char>,
            Seq<char>,
            Seq<char>,
            Seq<char>,
        ),
    >,
>;

/// The view of an optional metadata record.
pub open spec fn opt_metadata_view(m: Option<Metadata>) -> Option<
    (
        Seq<char>,
        Seq<(Seq<char>, u32, Seq<Seq<char>>)>,
        Seq<char>,
        Seq<char>,
        Seq<char>,
        Seq<char>,
        Seq<char>,
        Seq<char>,
    ),
> {
    match m {
        Some(x) => Some(x@),
        None => None,
    }
}

/// Relies on prost encoding of the bank module's send message: the bytes
/// are a function of sender, recipient and amounts.
#[verifier::external_body]
fn encode_msg_send(from: &str, to: &str, amount: &Vec<Coin>) -> (r: Vec<u8>)
    ensures
        r@ == msg_send_bytes(from@, to@, amount@.map_values(|c: Coin| c@)),
{
    cosmrs::proto::cosmos::bank::v1beta1::MsgSend {
        from_address: from.to_owned(),
        to_address: to.to_owned(),
        amount: amount.iter().map(|c| cosmrs::proto::cosmos::base::v1beta1::Coin {
            denom: c.denom.clone(),
            amount: c.amount.clone(),
        }).collect(),
    }.encode_to_vec()
}

/// Relies on prost encoding of the bank module's metadata request.
#[verifier::external_body]
fn encode_denom_metadata_request(denom: &str) -> (r: Vec<u8>)
    ensures
        r@ == denom_metadata_request_bytes(denom@),
{
    cosmrs::proto::cosmos::bank::v1beta1::QueryDenomMetadataRequest { denom: denom.to_owned() }
        .encode_to_vec()
}

/// Relies on prost decoding of the bank module's metadata response.
#[verifier::external_body]
fn decode_denom_metadata_response(bytes: &Vec<u8>) -> (r: Result<Option<Metadata>, Error>)
    ensures
        r matches Ok(m) ==> denom_metadata_reply(bytes@) == Some(opt_metadata_view(m)),
        r is Err ==> denom_metadata_reply(bytes@) is None,
        r matches Err(e) ==> e matches Error::DecodeError(_),
{
    let resp = cosmrs::proto::cosmos::bank::v1beta1::QueryDenomMetadataResponse::decode(
        bytes.as_slice(),
    ).map_err(crate::error::decode_failure)?;
    Ok(resp.metadata.map(|m| Metadata {
        description: m.description,
        denom_units: m.denom_units.into_iter().map(
            |u| DenomUnit { denom: u.denom, exponent: u.exponent, aliases: u.aliases },
        ).collect(),
        base: m.base,
        display: m.display,
        name: m.name,
        symbol: m.symbol,
        uri: m.uri,
        uri_hash: m.uri_hash,
    }))
}

/// The type identifier of the bank module's send message.
pub open spec fn spec_msg_send_url() -> Seq<char> {
    "/cosmos.bank.v1beta1.MsgSend"@
}

fn msg_send_url() -> (r: &'static str)
    ensures
        r@ == spec_msg_send_url(),
{
    "/cosmos.bank.v1beta1.MsgSend"
}

/// The bank module's metadata path.
pub open spec fn spec_denom_metadata_path() -> Seq<char> {
    "/cosmos.bank.v1beta1.Query/DenomMetadata"@
}

fn denom_metadata_path() -> (r: &'static str)
    ensures
        r@ == spec_denom_metadata_path(),
{
    "/cosmos.bank.v1beta1.Query/DenomMetadata"
}

/// Access to the chain's bank module through a client.
pub struct Bank<T: Rpc> {
    /// The client the module calls go through.
    pub client: CosmosClient<T>,
}

impl<T: Rpc> Bank<T> {
    /// Creates a bank module handle over the provided client.
    pub fn new(client: CosmosClient<T>) -> (r: Bank<T>)
        ensures
            r.client == client,
    {
        Bank { client }
    }

    /// Builds the unsigned transaction body that sends the given amounts
    /// from the attached signer's address: exactly one send message, under
    /// the bank module's type identifier, with the memo when one is given.
    /// Nothing is sent to the chain.
    pub fn send(&self, to_address: &str, amount: Vec<Coin>, memo: Option<&str>) -> (r: Result<
        Body,
        Error,
    >)
        ensures
            self.client.signer is None <==> r == Err::<Body, Error>(Error::NoSignerAttached),
            self.client.signer matches Some(s) ==> (r matches Ok(b) && {
                &&& b.messages@.len() == 1
                &&& b.messages@[0]@ == (
                    spec_msg_send_url(),
                    msg_send_bytes(
                        s.public_address@,
                        to_address@,
                        amount@.map_values(|c: Coin| c@),
                    ),
                )
                &&& b.memo@ == (match memo {
                    Some(m) => m@,
                    None => Seq::<char>::empty(),
                })
            }),
    {
        let from = match &self.client.signer {
            None => {
                return Err(Error::NoSignerAttached);
            },
            Some(s) => s.public_address.clone(),
        };
        let value = encode_msg_send(from.as_str(), to_address, &amount);
        let mut messages: Vec<AnyMsg> = Vec::new();
        messages.push(AnyMsg { type_url: msg_send_url().to_owned(), value });
        let memo_text = match memo {
            Some(m) => m.to_owned(),
            None => String::new(),
        };
        Ok(Body { messages, memo: memo_text })
    }

    /// Fetches the metadata of a token denomination.
    pub fn denom_metadata(&mut self, denom: &str) -> (r: Result<Option<Metadata>, Error>)
        ensures
            final(self).client.rpc.history() == old(self).client.rpc.history().push(
                RpcEvent::Query {
                    path: spec_denom_metadata_path(),
                    request: denom_metadata_request_bytes(denom@),
                },
            ),
            final(self).client.chain_id == old(self).client.chain_id,
            final(self).client.signer == old(self).client.signer,
            r matches Ok(m) ==> exists|bytes: Seq<u8>| #[trigger] denom_metadata_reply(bytes)
                == Some(opt_metadata_view(m)),
    {
        let request = encode_denom_metadata_request(denom);
        let bytes = self.client.query(denom_metadata_path(), request)?;
        let m = decode_denom_metadata_response(&bytes)?;
        proof {
            assert(denom_metadata_reply(bytes@) == Some(opt_metadata_view(m)));
        }
        Ok(m)
    }
}

} // verus!
