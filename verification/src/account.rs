//! The 32-byte account identifier of the relay network, and its SS58 text
//! form.
//!
//! Parsing and rendering of the text form go through subxt's `AccountId32`;
//! their results are named, not restated, since the checksum inside the
//! format is not worth writing out.

use vstd::prelude::*;
use vstd::string::StringSliceAdditionalSpecFns;
use vstd::utf8::encode_utf8;
use core::str::FromStr;
use crate::scale::push_bytes;

verus! {

/// The account bytes that an SS58 address text denotes, if the text is a
/// well-formed address: what subxt's `AccountId32` parser accepts and
/// returns. A function of the text alone.
pub uninterp spec fn ss58_decode(text: Seq<char>) -> Option<Seq<u8>>;

/// The canonical SS58 address text of 32 account bytes, as subxt's
/// `AccountId32` renders it. A function of the bytes alone.
pub uninterp spec fn ss58_encode(bytes: Seq<u8>) -> Seq<char>;

/// Relies on subxt's `AccountId32::from_str`: SS58 parsing, whose outcome
/// depends on the text alone, and which hands back exactly 32 bytes when it
/// accepts. The base58 decoder underneath works in a fixed 132-byte buffer
/// and can panic on longer text (a long run of leading `1` digits underflows
/// its final slice), so the text is bounded here; no address of a 32-byte
/// account comes near that length.
#[verifier::external_body]
fn parse_ss58(text: &str) -> (r: Option<Vec<u8>>)
    requires
        text.spec_bytes().len() <= 128,
    ensures
        r is Some <==> ss58_decode(text@) is Some,
        r matches Some(b) ==> ss58_decode(text@) == Some(b@) && b@.len() == 32,
{
    match subxt::utils::AccountId32::from_str(text) {
        Ok(account) => Some(account.0.to_vec()),
        Err(_) => None,
    }
}

/// Relies on subxt's `AccountId32` display impl: the SS58 rendering of the 32
/// bytes under the canonical network prefix, a function of the bytes alone.
/// The same crate's parser accepts exactly this rendering and returns the
/// same 32 bytes: the render is base58 over the prefix, the key and a
/// checksum of those 33 bytes, and the parser re-derives that checksum over
/// the same bytes; the text is ASCII and stays far below the parser's length
/// bound.
#[verifier::external_body]
fn render_ss58(bytes: &Vec<u8>) -> (r: String)
    requires
        bytes@.len() == 32,
    ensures
        r@ == ss58_encode(bytes@),
        ss58_decode(r@) == Some(bytes@),
        encode_utf8(r@).len() <= 128,
{
    let mut raw = [0u8; 32];
    raw.copy_from_slice(bytes);
    format!("{}", subxt::utils::AccountId32(raw))
}

/// A fixed-size 32-byte account identifier on the relay network.
pub struct AccountId {
    bytes: Vec<u8>,
}

impl View for AccountId {
    type V = Seq<u8>;

    closed spec fn view(&self) -> Seq<u8> {
        self.bytes@
    }
}

impl AccountId {
    /// An account identifier always holds exactly 32 bytes.
    pub open spec fn wf(&self) -> bool {
        self@.len() == 32
    }

    /// Wraps raw bytes, accepting exactly the 32-byte case.
    pub fn from_bytes(bytes: Vec<u8>) -> (r: Option<AccountId>)
        ensures
            r is Some <==> bytes@.len() == 32,
            r matches Some(a) ==> a@ == bytes@ && a.wf(),
    {
        if bytes.len() == 32 {
            Some(AccountId { bytes })
        } else {
            None
        }
    }

    /// The raw bytes.
    pub fn as_bytes(&self) -> (r: &Vec<u8>)
        ensures
            r@ == self@,
    {
        &self.bytes
    }

    /// An independent copy holding the same bytes.
    pub fn duplicate(&self) -> (r: AccountId)
        ensures
            r@ == self@,
    {
        let mut bytes: Vec<u8> = Vec::new();
        push_bytes(&mut bytes, &self.bytes);
        proof {
            assert(bytes@ =~= self@);
        }
        AccountId { bytes }
    }

    /// Reads an account identifier from its SS58 text form; `None` on text
    /// that is not a well-formed address. Text longer than the length bound,
    /// which no address of a 32-byte account can reach, is rejected out of
    /// hand.
    pub fn parse(text: &str) -> (r: Option<AccountId>)
        ensures
            text.spec_bytes().len() <= 128 ==> (r is Some <==> ss58_decode(text@) is Some),
            text.spec_bytes().len() > 128 ==> r is None,
            r matches Some(a) ==> a.wf() && ss58_decode(text@) == Some(a@),
    {
        if text.as_bytes().len() > 128 {
            return None;
        }
        match parse_ss58(text) {
            Some(bytes) => Some(AccountId { bytes }),
            None => None,
        }
    }

    /// The SS58 text form of this account under the canonical network prefix.
    /// Parsing the rendered text yields this same account back, so the text
    /// round trip is idempotent on canonical address text.
    pub fn to_text(&self) -> (r: String)
        requires
            self.wf(),
        ensures
            r@ == ss58_encode(self@),
            ss58_decode(r@) == Some(self@),
            encode_utf8(r@).len() <= 128,
    {
        render_ss58(&self.bytes)
    }
}

} // verus!
