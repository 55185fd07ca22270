//! The requests that a paired wallet sends, and the records that answers are made of.

use vstd::prelude::*;
use crate::json::{Json, JsonValue};
use crate::text::{copy_text, same_text, texts_of};

verus! {

/// A balance lookup as the wallet states it.
#[derive(Debug, Clone, PartialEq, Eq)]
pub struct BitcoinLookupRequest {
    pub request_type: String,
    pub query: String,
}

impl BitcoinLookupRequest {
    /// Whether the request names the lookup type and asks about something.
    pub fn is_valid(&self) -> (r: bool)
        ensures
            r == (self.request_type@ == "bitcoin_lookup"@ && self.query@.len() > 0),
    {
        same_text(self.request_type.as_str(), "bitcoin_lookup") && !self.query.as_str().is_empty()
    }
}

/// One transaction in an answer.
#[derive(Debug, Clone, PartialEq, Eq)]
pub struct TransactionInfo {
    pub txid: String,
    pub timestamp: i64,
    pub amount: i64,
    pub confirmations: u32,
}

/// The mathematical value of a `TransactionInfo`.
pub ghost struct TransactionInfoView {
    pub txid: Seq<char>,
    pub timestamp: i64,
    pub amount: i64,
    pub confirmations: u32,
}

impl View for TransactionInfo {
    type V = TransactionInfoView;

    open spec fn view(&self) -> TransactionInfoView {
        TransactionInfoView {
            txid: self.txid@,
            timestamp: self.timestamp,
            amount: self.amount,
            confirmations: self.confirmations,
        }
    }
}

/// The values of a run of transactions.
pub open spec fn transactions_of(items: Seq<TransactionInfo>) -> Seq<TransactionInfoView> {
    Seq::new(items.len(), |i: int| items[i]@)
}

/// The answer to a lookup as the first wallets read it.
#[derive(Debug, Clone, PartialEq, Eq)]
pub struct BitcoinLookupResponse {
    pub response_type: String,
    pub query: String,
    pub confirmed_balance: i64,
    pub unconfirmed_balance: i64,
    pub transactions: Vec<TransactionInfo>,
}

impl BitcoinLookupResponse {
    /// An answer for `query` with no balance and no transactions yet.
    pub fn new(query: String) -> (r: Self)
        ensures
            r.response_type@ == "bitcoin_lookup_result"@,
            r.query@ == query@,
            r.confirmed_balance == 0,
            r.unconfirmed_balance == 0,
            r.transactions@.len() == 0,
    {
        BitcoinLookupResponse {
            response_type: copy_text("bitcoin_lookup_result"),
            query,
            confirmed_balance: 0,
            unconfirmed_balance: 0,
            transactions: Vec::new(),
        }
    }
}

/// One unspent output in an answer.
#[derive(Debug, Clone, PartialEq, Eq)]
pub struct UtxoInfo {
    pub txid: String,
    pub vout: u32,
    pub value: u64,
    pub address: String,
    pub confirmations: u32,
}

/// The mathematical value of a `UtxoInfo`.
pub ghost struct UtxoInfoView {
    pub txid: Seq<char>,
    pub vout: u32,
    pub value: u64,
    pub address: Seq<char>,
    pub confirmations: u32,
}

impl View for UtxoInfo {
    type V = UtxoInfoView;

    open spec fn view(&self) -> UtxoInfoView {
        UtxoInfoView {
            txid: self.txid@,
            vout: self.vout,
            value: self.value,
            address: self.address@,
            confirmations: self.confirmations,
        }
    }
}

/// The values of a run of unspent outputs.
pub open spec fn utxos_of(items: Seq<UtxoInfo>) -> Seq<UtxoInfoView> {
    Seq::new(items.len(), |i: int| items[i]@)
}

/// Why an event that reached this server is not answered.
#[derive(Debug, Clone, Copy, PartialEq, Eq, Structural)]
pub enum MalformedRequest {
    /// No tag carries a correlation id.
    MissingCorrelation,
    /// No tag says whom the event is addressed to.
    MissingRecipient,
    /// The event is addressed to another public key.
    WrongRecipient,
    /// The body is not JSON.
    UnparsableBody,
    /// The body's `type` is none of the four request types.
    UnknownType,
    /// The body lacks a field that its type requires, or holds it in another shape.
    InvalidPayload,
}

/// What a wallet asks for.
#[derive(Debug, Clone, PartialEq, Eq)]
pub enum Request {
    /// Balance and transactions of an address or an extended public key.
    Lookup { query: String },
    /// Hand a raw transaction to the network.
    Broadcast { tx_hex: String },
    /// Current fee rates.
    Fees,
    /// Unspent outputs of some addresses.
    Utxos { addresses: Vec<String> },
}

/// The mathematical value of a `Request`.
pub ghost enum RequestView {
    Lookup { query: Seq<char> },
    Broadcast { tx_hex: Seq<char> },
    Fees,
    Utxos { addresses: Seq<Seq<char>> },
}

impl View for Request {
    type V = RequestView;

    open spec fn view(&self) -> RequestView {
        match self {
            Request::Lookup { query } => RequestView::Lookup { query: query@ },
            Request::Broadcast { tx_hex } => RequestView::Broadcast { tx_hex: tx_hex@ },
            Request::Fees => RequestView::Fees,
            Request::Utxos { addresses } => RequestView::Utxos { addresses: texts_of(addresses@) },
        }
    }
}

/// Whether every element is a string.
pub open spec fn all_text(items: Seq<JsonValue>) -> bool {
    forall|i: int| 0 <= i < items.len() ==> (#[trigger] items[i]) is Str
}

/// The texts of elements that are strings.
pub open spec fn texts_in(items: Seq<JsonValue>) -> Seq<Seq<char>> {
    Seq::new(items.len(), |i: int| items[i]->Str_0)
}

/// The declared type of a request body: its `type` member where that is a string,
/// else the empty text.
pub open spec fn declared_type(body: JsonValue) -> Seq<char> {
    match body.member("type"@) {
        Some(JsonValue::Str(t)) => t,
        _ => Seq::empty(),
    }
}

/// The request that a JSON body states: routed by its declared type, with the fields
/// that the type requires.
pub open spec fn request_of(body: JsonValue) -> Result<RequestView, MalformedRequest> {
    let declared = declared_type(body);
    if declared == "bitcoin_lookup"@ {
        match body.member("query"@) {
            Some(JsonValue::Str(q)) => Ok(RequestView::Lookup { query: q }),
            _ => Err(MalformedRequest::InvalidPayload),
        }
    } else if declared == "broadcast_tx"@ {
        match body.member("txHex"@) {
            Some(JsonValue::Str(h)) => Ok(RequestView::Broadcast { tx_hex: h }),
            _ => Err(MalformedRequest::InvalidPayload),
        }
    } else if declared == "get_fees"@ {
        Ok(RequestView::Fees)
    } else if declared == "get_utxos"@ {
        match body.member("addresses"@) {
            Some(JsonValue::Array(items)) => if all_text(items) {
                Ok(RequestView::Utxos { addresses: texts_in(items) })
            } else {
                Err(MalformedRequest::InvalidPayload)
            },
            _ => Err(MalformedRequest::InvalidPayload),
        }
    } else {
        Err(MalformedRequest::UnknownType)
    }
}

/// The value of a decoded request or of its refusal.
pub open spec fn decoded_value(r: Result<Request, MalformedRequest>) -> Result<
    RequestView,
    MalformedRequest,
> {
    match r {
        Ok(request) => Ok(request@),
        Err(e) => Err(e),
    }
}

/// The strings of an array of strings; `None` where an element is something else.
pub fn strings_in(items: &Vec<Json>) -> (r: Option<Vec<String>>)
    ensures
        match r {
            Some(v) => all_text(crate::json::values_of(items@)) && texts_of(v@) == texts_in(
                crate::json::values_of(items@),
            ),
            None => !all_text(crate::json::values_of(items@)),
        },
{
    let ghost values = crate::json::values_of(items@);
    let mut out: Vec<String> = Vec::new();
    let mut i: usize = 0;
    while i < items.len()
        invariant
            i <= items.len(),
            values == crate::json::values_of(items@),
            out@.len() == i,
            forall|k: int| 0 <= k < i ==> (#[trigger] values[k]) is Str,
            forall|k: int| 0 <= k < i ==> (#[trigger] out@[k])@ == values[k]->Str_0,
        decreases items.len() - i,
    {
        match items[i].as_str() {
            Some(s) => {
                out.push(s.clone());
            },
            None => {
                assert(!(values[i as int] is Str));
                return None;
            },
        }
        i = i + 1;
    }
    assert(texts_of(out@) =~= texts_in(values));
    Some(out)
}

/// Decodes a request body: the declared `type` picks the request, which must hold the
/// fields that its type requires.
pub fn decode_request(body: &Json) -> (r: Result<Request, MalformedRequest>)
    ensures
        decoded_value(r) == request_of(body@),
{
    let declared: String = match body.get("type") {
        Some(t) => match t.as_str() {
            Some(s) => s.clone(),
            None => String::new(),
        },
        None => String::new(),
    };
    assert(declared@ == declared_type(body@));
    if same_text(declared.as_str(), "bitcoin_lookup") {
        match body.get("query") {
            Some(q) => match q.as_str() {
                Some(s) => Ok(Request::Lookup { query: s.clone() }),
                None => Err(MalformedRequest::InvalidPayload),
            },
            None => Err(MalformedRequest::InvalidPayload),
        }
    } else if same_text(declared.as_str(), "broadcast_tx") {
        match body.get("txHex") {
            Some(h) => match h.as_str() {
                Some(s) => Ok(Request::Broadcast { tx_hex: s.clone() }),
                None => Err(MalformedRequest::InvalidPayload),
            },
            None => Err(MalformedRequest::InvalidPayload),
        }
    } else if same_text(declared.as_str(), "get_fees") {
        Ok(Request::Fees)
    } else if same_text(declared.as_str(), "get_utxos") {
        match body.get("addresses") {
            Some(a) => match a.as_array() {
                Some(items) => match strings_in(items) {
                    Some(addresses) => Ok(Request::Utxos { addresses }),
                    None => Err(MalformedRequest::InvalidPayload),
                },
                None => Err(MalformedRequest::InvalidPayload),
            },
            None => Err(MalformedRequest::InvalidPayload),
        }
    } else {
        Err(MalformedRequest::UnknownType)
    }
}

} // verus!
