use vstd::prelude::*;

use crate::error::encode_failure as efail;
use crate::error::Error;
use crate::tx::Body;
use cosmrs::crypto::secp256k1::SigningKey;
use cosmrs::tendermint::chain::Id;
use cosmrs::tx::Body as TxBody;
use cosmrs::tx::{Fee, SignDoc, SignerInfo};
use cosmrs::Coin;

verus! {

// Names for what the key-handling calls of the signing backend return.
// Each is a pure function of its arguments: BIP-39/BIP-32 derivation,
// public-key computation, bech32 address encoding and RFC 6979 ECDSA
// signing are all deterministic.

/// The secret scalar derived from a seed phrase and a derivation path.
pub uninterp spec fn derived_secret(phrase: Seq<char>, derivation: Seq<char>) -> Seq<u8>;

/// The compressed public key belonging to a secret scalar.
pub uninterp spec fn pubkey_of_secret(secret: Seq<u8>) -> Seq<u8>;

/// The bech32-style account address of a public key under a prefix.
pub uninterp spec fn bech32_address(pubkey: Seq<u8>, prefix: Seq<char>) -> Seq<char>;

/// The canonical signed transaction bytes produced from a secret scalar,
/// the fee parameters, the chain identifier, the resolved account state,
/// the gas limit and the transaction body.
pub uninterp spec fn signed_tx_bytes(
    secret: Seq<u8>,
    denom: Seq<char>,
    gas_price: u128,
    chain_id: Seq<char>,
    account_number: u64,
    sequence: u64,
    gas: u64,
    body: (Seq<(Seq<char>, Seq<u8>)>, Seq<char>),
) -> Seq<u8>;

/// The derivation path used when the caller supplies none.
pub open spec fn spec_default_derivation() -> Seq<char> {
    "m/44'/118'/0'/0/0"@
}

fn default_derivation() -> (r: &'static str)
    ensures
        r@ == spec_default_derivation(),
{
    "m/44'/118'/0'/0/0"
}

// Hexadecimal decoding of a raw private key, written out and verified here:
// two digits per byte, both letter cases accepted, an odd length or any
// other character rejected.

/// Whether a character is a hexadecimal digit (code points of `0`-`9`,
/// `a`-`f`, `A`-`F`).
pub open spec fn is_hex_digit(c: char) -> bool {
    (48 <= c as int && c as int <= 57) || (97 <= c as int && c as int <= 102) || (65 <= c as int
        && c as int <= 70)
}

/// The numeric value of a hexadecimal digit; zero for any other character.
pub open spec fn hex_digit_value(c: char) -> u8 {
    if 48 <= c as int && c as int <= 57 {
        (c as int - 48) as u8
    } else if 97 <= c as int && c as int <= 102 {
        (c as int - 87) as u8
    } else if 65 <= c as int && c as int <= 70 {
        (c as int - 55) as u8
    } else {
        0
    }
}

/// Whether a string is well-formed hexadecimal: even length, digits only.
pub open spec fn hex_valid(s: Seq<char>) -> bool {
    s.len() % 2 == 0 && (forall|i: int| 0 <= i < s.len() ==> is_hex_digit(s[i]))
}

/// The bytes a well-formed hexadecimal string denotes.
pub open spec fn hex_bytes(s: Seq<char>) -> Seq<u8> {
    Seq::new((s.len() / 2) as nat, |k: int| (hex_digit_value(s[2 * k]) * 16 + hex_digit_value(s[2 * k + 1])) as u8)
}

fn hex_digit(c: char) -> (r: Option<u8>)
    ensures
        r is Some <==> is_hex_digit(c),
        r matches Some(v) ==> v == hex_digit_value(c) && v <= 15,
{
    let v: u32 = c as u32;
    if 48 <= v && v <= 57 {
        Some((v - 48) as u8)
    } else if 97 <= v && v <= 102 {
        Some((v - 87) as u8)
    } else if 65 <= v && v <= 70 {
        Some((v - 55) as u8)
    } else {
        None
    }
}

/// Decodes a hexadecimal string to bytes; rejects exactly the strings that
/// are not well-formed hexadecimal.
pub fn decode_hex(s: &str) -> (r: Result<Vec<u8>, Error>)
    ensures
        r matches Ok(v) ==> hex_valid(s@) && v@ == hex_bytes(s@),
        r is Err ==> !hex_valid(s@),
{
    let n = s.unicode_len();
    if n % 2 != 0 {
        return Err(Error::DecodeError("odd-length hexadecimal string".to_owned()));
    }
    let mut out: Vec<u8> = Vec::new();
    let mut i: usize = 0;
    while i + 1 < n
        invariant
            n == s@.len(),
            n % 2 == 0,
            i % 2 == 0,
            i <= n,
            forall|j: int| 0 <= j < i ==> is_hex_digit(s@[j]),
            out@ == hex_bytes(s@.take(i as int)),
        decreases n - i,
    {
        let hi = match hex_digit(s.get_char(i)) {
            Some(v) => v,
            None => {
                return Err(Error::DecodeError("not a hexadecimal digit".to_owned()));
            },
        };
        let lo = match hex_digit(s.get_char(i + 1)) {
            Some(v) => v,
            None => {
                return Err(Error::DecodeError("not a hexadecimal digit".to_owned()));
            },
        };
        out.push(hi * 16 + lo);
        proof {
            assert(out@ =~= hex_bytes(s@.take(i + 2 as int)));
        }
        i = i + 2;
    }
    proof {
        assert(i == n);
        assert(s@.take(n as int) =~= s@);
    }
    Ok(out)
}

// Trusted boundary to the key-handling backend.

/// Relies on bip32's `Mnemonic::new`, `Phrase::to_seed` and
/// `XPrv::derive_from_path`: BIP-39 seeding and BIP-32 derivation are
/// deterministic, so the secret scalar is a function of phrase and path
/// alone.
#[verifier::external_body]
fn derive_secret(phrase: &str, derivation: &str) -> (r: Result<Vec<u8>, Error>)
    ensures
        r matches Ok(b) ==> b@ == derived_secret(phrase@, derivation@),
{
    let mnemonic = cosmrs::bip32::Mnemonic::new(phrase, cosmrs::bip32::Language::English)
        .map_err(crate::error::decode_failure)?;
    let path: cosmrs::bip32::DerivationPath = derivation.parse().map_err(crate::error::decode_failure)?;
    Ok(cosmrs::bip32::XPrv::derive_from_path(mnemonic.to_seed(""), &path)
        .map_err(crate::error::decode_failure)?
        .private_key()
        .to_bytes()
        .to_vec())
}

/// Relies on cosmrs's `SigningKey::from_slice`, `SigningKey::public_key`
/// and `PublicKey::account_id`: the compressed public key and the bech32
/// account address are functions of the secret scalar and the prefix.
#[verifier::external_body]
fn derive_identity(secret: &Vec<u8>, prefix: &str) -> (r: Result<(Vec<u8>, String), Error>)
    ensures
        r matches Ok(p) ==> p.0@ == pubkey_of_secret(secret@) && p.1@ == bech32_address(
            pubkey_of_secret(secret@),
            prefix@,
        ),
{
    let key = cosmrs::crypto::secp256k1::SigningKey::from_slice(secret).map_err(crate::error::decode_failure)?;
    let public_key = key.public_key();
    let address = public_key.account_id(prefix).map_err(crate::error::decode_failure)?;
    Ok((public_key.to_bytes(), address.to_string()))
}

/// Relies on bip32's `Mnemonic::random`: a fresh phrase drawn from the
/// system's randomness. Nothing is promised of its value.
#[verifier::external_body]
fn random_mnemonic() -> String {
    cosmrs::bip32::Mnemonic::random(
        cosmrs::bip32::secp256k1::elliptic_curve::rand_core::OsRng,
        cosmrs::bip32::Language::English,
    ).phrase().to_owned()
}

/// Relies on cosmrs's `Fee::from_amount_and_gas`, `SignerInfo::single_direct`,
/// `Body::new`, `SignDoc::new` and `SignDoc::sign` (RFC 6979 deterministic
/// ECDSA): the canonical sign document, and therefore the signed bytes, are
/// a function of the arguments alone.
#[verifier::external_body]
fn sign_payload(
    secret: &Vec<u8>,
    denom: &str,
    gas_price: u128,
    chain_id: &str,
    account_number: u64,
    sequence: u64,
    gas: u64,
    body: &Body,
) -> (r: Result<Vec<u8>, Error>)
    ensures
        r matches Ok(b) ==> b@ == signed_tx_bytes(
            secret@,
            denom@,
            gas_price,
            chain_id@,
            account_number,
            sequence,
            gas,
            body@,
        ),
{
    let key = SigningKey::from_slice(secret).map_err(efail)?;
    let coin = Coin { amount: gas_price, denom: denom.parse().map_err(efail)? };
    let auth = SignerInfo::single_direct(Some(key.public_key()), sequence).auth_info(
        Fee::from_amount_and_gas(coin, gas),
    );
    let msgs = body.messages.iter().map(
        |m| cosmrs::Any { type_url: m.type_url.clone(), value: m.value.clone() },
    );
    let tx_body = TxBody::new(msgs, &body.memo, 0u32);
    let chain = chain_id.parse::<Id>().map_err(efail)?;
    let doc = SignDoc::new(&tx_body, &auth, &chain, account_number).map_err(efail)?;
    doc.sign(&key).map_err(efail)?.to_bytes().map_err(efail)
}

/// Holds the signing identity: the secret scalar (owned exclusively by this
/// value and never handed out), the derived public key and account address,
/// the fee denomination, the gas-adjustment percentage and the gas price.
pub struct Signer {
    /// The seed phrase the signer was derived from, when there was one.
    pub mnemonic: Option<String>,
    /// Denomination the fee is paid in.
    pub denom: String,
    /// The bech32-style account address derived from the public key.
    pub public_address: String,
    /// The derived compressed public key.
    pub public_key: Vec<u8>,
    /// Percentage added to simulated gas before it becomes the real limit.
    pub gas_adjustment_percent: u8,
    /// Flat price per unit of gas.
    pub gas_price: u128,
    /// The secret scalar used for signing. Signing is exposed only as a
    /// method on this owner.
    pub private_key: Vec<u8>,
}

impl Signer {
    /// The secret scalar as specifications see it.
    pub open spec fn spec_secret(&self) -> Seq<u8> {
        self.private_key@
    }

    /// The derivation path a constructor resolves from the caller's choice.
    pub open spec fn spec_derivation_of(derivation: Option<&str>) -> Seq<char> {
        match derivation {
            Some(d) => d@,
            None => spec_default_derivation(),
        }
    }

    /// Whether the signer's stored artifacts all belong to its secret.
    pub open spec fn wf(&self, prefix: Seq<char>) -> bool {
        &&& self.public_key@ == pubkey_of_secret(self.spec_secret())
        &&& self.public_address@ == bech32_address(self.public_key@, prefix)
    }

    /// Creates a signer from a seed phrase, an address prefix, a fee
    /// denomination and an optional derivation path.
    pub fn from_mnemonic(
        phrase: &str,
        prefix: &str,
        denom: &str,
        derivation: Option<&str>,
        gas_adjustment_percent: u8,
        gas_price: u128,
    ) -> (r: Result<Signer, Error>)
        ensures
            r matches Ok(s) ==> {
                &&& s.spec_secret() == derived_secret(phrase@, Self::spec_derivation_of(derivation))
                &&& s.wf(prefix@)
                &&& s.mnemonic matches Some(m) && m@ == phrase@
                &&& s.denom@ == denom@
                &&& s.gas_adjustment_percent == gas_adjustment_percent
                &&& s.gas_price == gas_price
            },
    {
        let path = match derivation {
            Some(d) => d,
            None => default_derivation(),
        };
        let secret = derive_secret(phrase, path)?;
        let (public_key, public_address) = derive_identity(&secret, prefix)?;
        Ok(
            Signer {
                mnemonic: Some(phrase.to_owned()),
                denom: denom.to_owned(),
                public_address,
                public_key,
                gas_adjustment_percent,
                gas_price,
                private_key: secret,
            },
        )
    }

    /// Creates a signer from a raw private key given in hexadecimal.
    pub fn from_private_key(
        private_key: &str,
        prefix: &str,
        denom: &str,
        gas_adjustment_percent: u8,
        gas_price: u128,
    ) -> (r: Result<Signer, Error>)
        ensures
            r matches Ok(s) ==> {
                &&& hex_valid(private_key@)
                &&& s.spec_secret() == hex_bytes(private_key@)
                &&& s.wf(prefix@)
                &&& s.mnemonic is None
                &&& s.denom@ == denom@
                &&& s.gas_adjustment_percent == gas_adjustment_percent
                &&& s.gas_price == gas_price
            },
            !hex_valid(private_key@) ==> r is Err,
    {
        let secret = decode_hex(private_key)?;
        let (public_key, public_address) = derive_identity(&secret, prefix)?;
        Ok(
            Signer {
                mnemonic: None,
                denom: denom.to_owned(),
                public_address,
                public_key,
                gas_adjustment_percent,
                gas_price,
                private_key: secret,
            },
        )
    }

    /// Creates a signer with a fresh random seed phrase; the phrase is kept
    /// in the signer so the caller can persist it.
    pub fn generate_signer(
        prefix: &str,
        denom: &str,
        derivation: Option<&str>,
        gas_adjustment_percent: u8,
        gas_price: u128,
    ) -> (r: Result<Signer, Error>)
        ensures
            r matches Ok(s) ==> {
                &&& s.mnemonic matches Some(m) && s.spec_secret() == derived_secret(
                    m@,
                    Self::spec_derivation_of(derivation),
                )
                &&& s.wf(prefix@)
                &&& s.denom@ == denom@
                &&& s.gas_adjustment_percent == gas_adjustment_percent
                &&& s.gas_price == gas_price
            },
    {
        let phrase = random_mnemonic();
        Signer::from_mnemonic(
            phrase.as_str(),
            prefix,
            denom,
            derivation,
            gas_adjustment_percent,
            gas_price,
        )
    }

    /// Signs a transaction body for a chain, an account number, a sequence
    /// number and a gas limit, producing the canonical signed bytes.
    pub fn sign(
        &self,
        chain_id: &str,
        account_number: u64,
        sequence_id: u64,
        gas_info: u64,
        body: &Body,
    ) -> (r: Result<Vec<u8>, Error>)
        ensures
            r matches Ok(b) ==> b@ == signed_tx_bytes(
                self.spec_secret(),
                self.denom@,
                self.gas_price,
                chain_id@,
                account_number,
                sequence_id,
                gas_info,
                body@,
            ),
    {
        sign_payload(
            &self.private_key,
            self.denom.as_str(),
            self.gas_price,
            chain_id,
            account_number,
            sequence_id,
            gas_info,
            body,
        )
    }
}

/// Law: deriving a signer is deterministic. Two signers obtained from the
/// same phrase, the same derivation path and the same prefix carry the same
/// public key and the same account address.
pub proof fn lemma_derive_signer_deterministic(
    s1: Signer,
    s2: Signer,
    phrase: Seq<char>,
    path: Seq<char>,
    prefix: Seq<char>,
)
    requires
        s1.spec_secret() == derived_secret(phrase, path),
        s2.spec_secret() == derived_secret(phrase, path),
        s1.wf(prefix),
        s2.wf(prefix),
    ensures
        s1.public_key@ == s2.public_key@,
        s1.public_address@ == s2.public_address@,
{
}

/// Law: signing is reproducible. Two signatures over the same body, made
/// with the same key and fee parameters under numerically identical account
/// state, are byte-for-byte the same, so whatever verifies one verifies the
/// other.
pub proof fn lemma_sign_reproducible(
    b1: Seq<u8>,
    b2: Seq<u8>,
    secret: Seq<u8>,
    denom: Seq<char>,
    gas_price: u128,
    chain_id: Seq<char>,
    account_number: u64,
    sequence: u64,
    gas: u64,
    body: (Seq<(Seq<char>, Seq<u8>)>, Seq<char>),
)
    requires
        b1 == signed_tx_bytes(secret, denom, gas_price, chain_id, account_number, sequence, gas, body),
        b2 == signed_tx_bytes(secret, denom, gas_price, chain_id, account_number, sequence, gas, body),
    ensures
        b1 == b2,
{
}

} // verus!
