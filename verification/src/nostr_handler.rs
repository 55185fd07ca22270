//! Correlation and dispatch: which inbound events are requests to this server, what
//! each request needs from the indexer, and the event that answers it.

use vstd::prelude::*;
use crate::electrs::{
    balance_result, broadcast_result, calls_of, fees_result, outcomes_of, records_of, text_result,
    transactions_result, txids_result, utxos_collected, AddressTransaction, ElectrsClient,
    FeeEstimate, HttpOutcome, HttpOutcomeView, IndexerCall, IndexerCallView, IndexerError,
    IndexerErrorView,
};
use crate::json::{json_of_text, text_of_json, value_of, Json, JsonValue};
use crate::lookup::{
    add_up, addresses_of, confirmed_total, lookup_addresses, outcome_views, outcomes_for,
    transactions_total, AddressOutcome, AddressOutcomeView, LookupError,
};
use crate::protocol::{
    decode_request, request_of, transactions_of, utxos_of, MalformedRequest, Request, RequestView,
    TransactionInfo, TransactionInfoView, UtxoInfo,
};
use crate::reply::{clamp_i64, response_json, Response, ResponseBody, ResponseBodyView, ResponseView};
use crate::text::{copy_text, same_text, texts_of};

verus! {

/// The kind of the events that carry requests.
pub const NOMAD_SERVER_REQUEST_KIND: u16 = 30078;

/// The kind of the events that carry answers.
pub const NOMAD_SERVER_RESPONSE_KIND: u16 = 30079;

/// An event as a relay delivered it, in plain values.
#[derive(Debug, Clone, PartialEq, Eq)]
pub struct InboundEvent {
    pub kind: u16,
    pub pubkey: String,
    pub tags: Vec<Vec<String>>,
    pub content: String,
}

/// The values of a run of tags.
pub open spec fn tags_of(tags: Seq<Vec<String>>) -> Seq<Seq<Seq<char>>> {
    Seq::new(tags.len(), |i: int| texts_of(tags[i]@))
}

/// The mathematical value of an `InboundEvent`.
pub ghost struct InboundEventView {
    pub kind: u16,
    pub pubkey: Seq<char>,
    pub tags: Seq<Seq<Seq<char>>>,
    pub content: Seq<char>,
}

impl View for InboundEvent {
    type V = InboundEventView;

    open spec fn view(&self) -> InboundEventView {
        InboundEventView {
            kind: self.kind,
            pubkey: self.pubkey@,
            tags: tags_of(self.tags@),
            content: self.content@,
        }
    }
}

/// The second entry of the first tag, at or after position `i`, that has two entries
/// or more and `name` as its first.
pub open spec fn tag_value(tags: Seq<Seq<Seq<char>>>, name: Seq<char>, i: int) -> Option<Seq<char>>
    decreases tags.len() - i,
{
    if i < 0 || i >= tags.len() {
        None
    } else if tags[i].len() >= 2 && tags[i][0] == name {
        Some(tags[i][1])
    } else {
        tag_value(tags, name, i + 1)
    }
}

/// The correlation id that an event carries: the value of its first `req` tag.
pub open spec fn correlation_id(event: InboundEventView) -> Option<Seq<char>> {
    tag_value(event.tags, "req"@, 0)
}

/// The public key that an event is addressed to: the value of its first `p` tag.
pub open spec fn recipient(event: InboundEventView) -> Option<Seq<char>> {
    tag_value(event.tags, "p"@, 0)
}

/// A request that may be answered: it carries a correlation id and is addressed to
/// this server.
#[derive(Debug, Clone, PartialEq, Eq)]
pub struct InboundRequest {
    pub correlation_id: String,
    pub requester_identity: String,
    pub request: Request,
}

/// The mathematical value of an `InboundRequest`.
pub ghost struct InboundRequestView {
    pub correlation_id: Seq<char>,
    pub requester_identity: Seq<char>,
    pub request: RequestView,
}

impl View for InboundRequest {
    type V = InboundRequestView;

    open spec fn view(&self) -> InboundRequestView {
        InboundRequestView {
            correlation_id: self.correlation_id@,
            requester_identity: self.requester_identity@,
            request: self.request@,
        }
    }
}

/// What becomes of an inbound event.
#[derive(Debug, Clone, PartialEq, Eq)]
pub enum Routed {
    /// The event is of another kind: not looked at further.
    Ignored,
    /// The event is no well-formed request to this server: dropped without an answer.
    Discarded(MalformedRequest),
    /// The event is a request: its handler runs, and an answer is published.
    Accepted(InboundRequest),
}

/// The mathematical value of a `Routed`.
pub ghost enum RoutedView {
    Ignored,
    Discarded(MalformedRequest),
    Accepted(InboundRequestView),
}

impl View for Routed {
    type V = RoutedView;

    open spec fn view(&self) -> RoutedView {
        match self {
            Routed::Ignored => RoutedView::Ignored,
            Routed::Discarded(why) => RoutedView::Discarded(*why),
            Routed::Accepted(request) => RoutedView::Accepted(request@),
        }
    }
}

/// What keeps an event from being decoded at all: another kind, no correlation id, no
/// recipient, or a recipient other than this server.
pub open spec fn turned_away(event: InboundEventView, server_pubkey: Seq<char>) -> Option<RoutedView> {
    if event.kind != NOMAD_SERVER_REQUEST_KIND {
        Some(RoutedView::Ignored)
    } else if correlation_id(event) is None {
        Some(RoutedView::Discarded(MalformedRequest::MissingCorrelation))
    } else if recipient(event) is None {
        Some(RoutedView::Discarded(MalformedRequest::MissingRecipient))
    } else if recipient(event) != Some(server_pubkey) {
        Some(RoutedView::Discarded(MalformedRequest::WrongRecipient))
    } else {
        None
    }
}

/// What becomes of an event, given what its body parses to: filter by kind, then
/// correlation id and recipient, then the body, then the declared type.
pub open spec fn routed(
    event: InboundEventView,
    server_pubkey: Seq<char>,
    parsed: Option<JsonValue>,
) -> RoutedView {
    match turned_away(event, server_pubkey) {
        Some(r) => r,
        None => match parsed {
            None => RoutedView::Discarded(MalformedRequest::UnparsableBody),
            Some(body) => match request_of(body) {
                Ok(request) => RoutedView::Accepted(
                    InboundRequestView {
                        correlation_id: correlation_id(event)->0,
                        requester_identity: event.pubkey,
                        request,
                    },
                ),
                Err(why) => RoutedView::Discarded(why),
            },
        },
    }
}

/// An event without a correlation id is never accepted, whatever else it holds: no
/// handler runs for it and no answer is made.
pub proof fn lemma_no_correlation_no_answer(
    event: InboundEventView,
    server_pubkey: Seq<char>,
    parsed: Option<JsonValue>,
)
    requires
        correlation_id(event) is None,
    ensures
        !(routed(event, server_pubkey, parsed) is Accepted),
{
}

/// An event addressed to another public key is never accepted, whatever else it
/// holds: no handler runs for it and no answer is made.
pub proof fn lemma_other_recipient_no_answer(
    event: InboundEventView,
    server_pubkey: Seq<char>,
    parsed: Option<JsonValue>,
)
    requires
        recipient(event) != Some(server_pubkey),
    ensures
        !(routed(event, server_pubkey, parsed) is Accepted),
{
}

/// An accepted request carries the event's correlation id and its author, and the
/// event was addressed to this server.
pub proof fn lemma_accepted_is_correlated(
    event: InboundEventView,
    server_pubkey: Seq<char>,
    parsed: Option<JsonValue>,
)
    requires
        routed(event, server_pubkey, parsed) is Accepted,
    ensures
        event.kind == NOMAD_SERVER_REQUEST_KIND,
        correlation_id(event) == Some(routed(event, server_pubkey, parsed)->Accepted_0.correlation_id),
        recipient(event) == Some(server_pubkey),
        routed(event, server_pubkey, parsed)->Accepted_0.requester_identity == event.pubkey,
{
}

/// The value of the first tag named `name`.
pub fn first_tag_value(tags: &Vec<Vec<String>>, name: &str) -> (r: Option<String>)
    ensures
        match r {
            Some(v) => tag_value(tags_of(tags@), name@, 0) == Some(v@),
            None => tag_value(tags_of(tags@), name@, 0) is None,
        },
{
    let mut i: usize = 0;
    while i < tags.len()
        invariant
            i <= tags.len(),
            tag_value(tags_of(tags@), name@, 0) == tag_value(tags_of(tags@), name@, i as int),
        decreases tags.len() - i,
    {
        let tag = &tags[i];
        assert(tags_of(tags@)[i as int] == texts_of(tag@));
        if tag.len() >= 2 && same_text(tag[0].as_str(), name) {
            return Some(tag[1].clone());
        }
        i = i + 1;
    }
    None
}

/// The correlation id of an event: the value of its first `req` tag.
pub fn extract_req_id(event: &InboundEvent) -> (r: Option<String>)
    ensures
        match r {
            Some(v) => correlation_id(event@) == Some(v@),
            None => correlation_id(event@) is None,
        },
{
    first_tag_value(&event.tags, "req")
}

/// An event to hand to the relays, before it is signed.
#[derive(Debug, Clone, PartialEq, Eq)]
pub struct OutboundEvent {
    pub kind: u16,
    pub tags: Vec<Vec<String>>,
    pub content: String,
}

/// The mathematical value of an `OutboundEvent`.
pub ghost struct OutboundEventView {
    pub kind: u16,
    pub tags: Seq<Seq<Seq<char>>>,
    pub content: Seq<char>,
}

impl View for OutboundEvent {
    type V = OutboundEventView;

    open spec fn view(&self) -> OutboundEventView {
        OutboundEventView { kind: self.kind, tags: tags_of(self.tags@), content: self.content@ }
    }
}

/// The event that carries an answer: of the response kind, addressed to the requester,
/// tagged with the correlation id, with the answer's payload as its body.
pub open spec fn response_event_of(to_pubkey: Seq<char>, response: ResponseView) -> OutboundEventView {
    OutboundEventView {
        kind: NOMAD_SERVER_RESPONSE_KIND,
        tags: seq![seq!["p"@, to_pubkey], seq!["req"@, response.req]],
        content: text_of_json(response_json(response)),
    }
}

fn pair(name: &str, value: &str) -> (r: Vec<String>)
    ensures
        texts_of(r@) == seq![name@, value@],
{
    let mut tag: Vec<String> = Vec::new();
    tag.push(copy_text(name));
    tag.push(copy_text(value));
    assert(texts_of(tag@) =~= seq![name@, value@]);
    tag
}

/// Builds the event that carries an answer to `to_pubkey`.
pub fn response_event(to_pubkey: &str, response: &Response) -> (r: OutboundEvent)
    ensures
        r@ == response_event_of(to_pubkey@, response@),
{
    let mut tags: Vec<Vec<String>> = Vec::new();
    tags.push(pair("p", to_pubkey));
    tags.push(pair("req", response.req.as_str()));
    assert(tags_of(tags@) =~= seq![seq!["p"@, to_pubkey@], seq!["req"@, response.req@]]);
    OutboundEvent { kind: NOMAD_SERVER_RESPONSE_KIND, tags, content: response.to_text() }
}

/// An answer's event is not itself a request, carries the correlation id of the
/// answer both as a tag and in its payload, and is addressed to the requester.
pub proof fn lemma_response_event_is_bound(to_pubkey: Seq<char>, response: ResponseView)
    ensures
        response_event_of(to_pubkey, response).kind != NOMAD_SERVER_REQUEST_KIND,
        tag_value(response_event_of(to_pubkey, response).tags, "req"@, 0) == Some(response.req),
        tag_value(response_event_of(to_pubkey, response).tags, "p"@, 0) == Some(to_pubkey),
        response_json(response).member("req"@) == Some(JsonValue::Str(response.req)),
{
    reveal_strlit("req");
    reveal_strlit("p");
    reveal_with_fuel(tag_value, 3);
    let fields = response_json(response)->Object_0;
    assert(fields[0].name == "req"@);
    crate::reply::lemma_member_at(fields, "req"@, 0);
}

/// What a lookup failure says to the wallet.
pub open spec fn lookup_error_text(e: LookupError) -> Seq<char> {
    match e {
        LookupError::InvalidQuery => "Invalid query"@,
        LookupError::Derivation => "Invalid extended public key"@,
    }
}

/// The answer to a lookup: the failure where the query is invalid or its key cannot
/// be used, and else the sums over its addresses and their merged transactions.
pub open spec fn lookup_reply_of(
    req_id: Seq<char>,
    query: Seq<char>,
    gap_limit: u32,
    outcomes: Seq<AddressOutcomeView>,
) -> ResponseView {
    ResponseView {
        req: req_id,
        body: match addresses_of(query, gap_limit) {
            Err(e) => ResponseBodyView::LookupFailed { error: lookup_error_text(e) },
            Ok(addresses) => {
                let seen = outcomes_for(outcomes, addresses.len() as int);
                ResponseBodyView::Lookup {
                    confirmed_balance: clamp_i64(confirmed_total(seen)),
                    unconfirmed_balance: clamp_i64(crate::lookup::unconfirmed_total(seen)),
                    transactions: transactions_total(seen),
                }
            },
        },
    }
}

/// The answer to a broadcast: the transaction id where the indexer took the
/// transaction, else the failure in words. A broadcast that ran out of time says
/// `Timeout`.
pub open spec fn broadcast_reply_of(req_id: Seq<char>, result: Result<Seq<char>, IndexerErrorView>) -> ResponseView {
    ResponseView {
        req: req_id,
        body: match result {
            Ok(txid) => ResponseBodyView::BroadcastAccepted { txid },
            Err(e) => ResponseBodyView::BroadcastRejected { error: e.message() },
        },
    }
}

/// The fee rates that are answered where the indexer gives none.
pub open spec fn default_fees() -> (u64, u64, u64) {
    (10, 5, 1)
}

/// The answer to a fee request: the indexer's rates, or the default rates where it
/// gave none. It is never a failure.
pub open spec fn fees_reply_of(req_id: Seq<char>, rates: Option<(u64, u64, u64)>) -> ResponseView {
    let r = match rates {
        Some(r) => r,
        None => default_fees(),
    };
    ResponseView { req: req_id, body: ResponseBodyView::Fees { fast: r.0, medium: r.1, slow: r.2 } }
}

/// A broadcast that ran out of time is answered, and the answer says that it failed
/// and why: `success` is false and `error` is `Timeout`.
pub proof fn lemma_broadcast_timeout_is_answered(req_id: Seq<char>)
    ensures
        broadcast_reply_of(req_id, broadcast_result(crate::electrs::HttpOutcomeView::TimedOut)) == (
        ResponseView { req: req_id, body: ResponseBodyView::BroadcastRejected { error: "Timeout"@ } }),
        response_json(
            broadcast_reply_of(req_id, broadcast_result(crate::electrs::HttpOutcomeView::TimedOut)),
        ) == JsonValue::Object(
            seq![
                crate::reply::field("req"@, JsonValue::Str(req_id)),
                crate::reply::field("success"@, JsonValue::Bool(false)),
                crate::reply::field("error"@, JsonValue::Str("Timeout"@)),
            ],
        ),
{
}

/// Where the indexer gives no fee rates, whatever the failure, the answer holds the
/// default rates and is no error.
pub proof fn lemma_failed_fees_are_the_defaults(req_id: Seq<char>)
    ensures
        fees_reply_of(req_id, None) == (ResponseView {
            req: req_id,
            body: ResponseBodyView::Fees { fast: 10, medium: 5, slow: 1 },
        }),
        !fees_reply_of(req_id, None).is_error(),
{
}

/// A fee call that fails, in whatever way and whatever estimates are handed in with
/// it, gives no rates, so that its request is answered with the default rates.
pub proof fn lemma_failing_indexer_gives_no_rates(outcome: HttpOutcomeView, estimates: Seq<FeeEstimate>)
    requires
        crate::electrs::transport_failure(outcome) is Some,
    ensures
        rates_given(outcome, estimates) is None,
{
}

/// The rates that a fee result holds, if it holds any.
pub open spec fn rates_of(result: Result<(u64, u64, u64), IndexerError>) -> Option<(u64, u64, u64)> {
    match result {
        Ok(r) => Some(r),
        Err(_) => None,
    }
}

fn to_infos(list: &Vec<AddressTransaction>) -> (r: Vec<TransactionInfo>)
    ensures
        transactions_of(r@) == records_of(list@),
{
    let mut out: Vec<TransactionInfo> = Vec::new();
    let mut i: usize = 0;
    while i < list.len()
        invariant
            i <= list.len(),
            out@.len() == i,
            forall|k: int| 0 <= k < i ==> (#[trigger] out@[k])@ == list@[k]@,
        decreases list.len() - i,
    {
        out.push(list[i].to_info());
        i = i + 1;
    }
    assert(transactions_of(out@) =~= records_of(list@));
    out
}

/// The answer to a lookup of `query`, given what the indexer said about each of its
/// addresses.
pub fn lookup_reply(req_id: &str, query: &str, gap_limit: u32, outcomes: &Vec<AddressOutcome>) -> (r:
    Response)
    ensures
        r@ == lookup_reply_of(req_id@, query@, gap_limit, outcome_views(outcomes@)),
{
    let body = match lookup_addresses(query, gap_limit) {
        Err(LookupError::InvalidQuery) => ResponseBody::LookupFailed {
            error: copy_text("Invalid query"),
        },
        Err(LookupError::Derivation) => ResponseBody::LookupFailed {
            error: copy_text("Invalid extended public key"),
        },
        Ok(addresses) => {
            let sums = add_up(outcomes, addresses.len());
            ResponseBody::Lookup {
                confirmed_balance: sums.0,
                unconfirmed_balance: sums.1,
                transactions: to_infos(&sums.2),
            }
        },
    };
    Response { req: copy_text(req_id), body }
}

/// The answer to a broadcast, given what the broadcast came to.
pub fn broadcast_reply(req_id: &str, result: &Result<String, IndexerError>) -> (r: Response)
    ensures
        r@ == broadcast_reply_of(req_id@, text_result(*result)),
{
    let body = match result {
        Ok(txid) => ResponseBody::BroadcastAccepted { txid: txid.clone() },
        Err(e) => ResponseBody::BroadcastRejected { error: e.message() },
    };
    Response { req: copy_text(req_id), body }
}

/// The answer to a fee request, given the rates that the indexer gave or the failure
/// in their place.
pub fn fees_reply(req_id: &str, result: &Result<(u64, u64, u64), IndexerError>) -> (r: Response)
    ensures
        r@ == fees_reply_of(req_id@, rates_of(*result)),
{
    let rates: (u64, u64, u64) = match result {
        Ok(r) => *r,
        Err(_) => (10, 5, 1),
    };
    Response {
        req: copy_text(req_id),
        body: ResponseBody::Fees { fast: rates.0, medium: rates.1, slow: rates.2 },
    }
}

/// The answer to a request for unspent outputs.
pub fn utxos_reply(req_id: &str, utxos: Vec<UtxoInfo>) -> (r: Response)
    ensures
        r@ == (ResponseView { req: req_id@, body: ResponseBodyView::Utxos { utxos: utxos_of(utxos@) } }),
{
    Response { req: copy_text(req_id), body: ResponseBody::Utxos { utxos } }
}

/// The calls that a lookup of the given addresses makes: for each address in turn, one
/// for its balance and then one for its transactions.
pub open spec fn lookup_calls_of(addresses: Seq<Seq<char>>) -> Seq<IndexerCallView> {
    Seq::new(
        2 * addresses.len(),
        |i: int|
            if i % 2 == 0 {
                IndexerCallView::Balance { address: addresses[i / 2] }
            } else {
                IndexerCallView::Transactions { address: addresses[i / 2] }
            },
    )
}

/// The calls that a request makes. A lookup whose query is invalid or whose key cannot
/// be used makes none.
pub open spec fn planned_calls_of(request: RequestView, gap_limit: u32) -> Seq<IndexerCallView> {
    match request {
        RequestView::Lookup { query } => match addresses_of(query, gap_limit) {
            Ok(addresses) => lookup_calls_of(addresses),
            Err(_) => Seq::empty(),
        },
        RequestView::Broadcast { tx_hex } => seq![IndexerCallView::Broadcast { tx_hex }],
        RequestView::Fees => seq![IndexerCallView::Fees],
        RequestView::Utxos { addresses } => Seq::new(
            addresses.len(),
            |i: int| IndexerCallView::Utxos { address: addresses[i] },
        ),
    }
}

/// A lookup of one address asks the indexer exactly twice: once for the balance of
/// that address and once for its transactions.
pub proof fn lemma_single_address_is_asked_once(query: Seq<char>, gap_limit: u32)
    requires
        crate::resolver::classified(query) is SingleAddress,
    ensures
        planned_calls_of(RequestView::Lookup { query }, gap_limit) == seq![
            IndexerCallView::Balance { address: query },
            IndexerCallView::Transactions { address: query },
        ],
{
    assert(lookup_calls_of(seq![query]) =~= seq![
        IndexerCallView::Balance { address: query },
        IndexerCallView::Transactions { address: query },
    ]);
}

/// A lookup of an extended public key whose first `gap_limit` addresses can be had
/// looks at exactly those addresses, in the order of their index, and so asks the
/// indexer twice for each.
pub proof fn lemma_extended_key_is_asked_per_address(query: Seq<char>, gap_limit: u32)
    requires
        crate::resolver::classified(query) is ExtendedPublicKey,
        crate::resolver::derivable(query, gap_limit),
    ensures
        addresses_of(query, gap_limit) is Ok,
        addresses_of(query, gap_limit)->Ok_0.len() == gap_limit,
        forall|i: int|
            0 <= i < gap_limit ==> crate::resolver::derived_address(query, i as u32) == Some(
                #[trigger] addresses_of(query, gap_limit)->Ok_0[i],
            ),
        planned_calls_of(RequestView::Lookup { query }, gap_limit).len() == 2 * gap_limit,
{
    assert forall|i: int| 0 <= i < gap_limit implies crate::resolver::derived_address(
        query,
        i as u32,
    ) == Some(#[trigger] addresses_of(query, gap_limit)->Ok_0[i]) by {
        let k = i as u32;
        let payload = crate::resolver::base58check_payload(query)->0;
        assert(crate::resolver::payload_address(payload, k) is Some);
    }
}

/// The calls that a lookup of the given addresses makes.
pub fn lookup_calls(addresses: &Vec<String>) -> (r: Vec<IndexerCall>)
    ensures
        calls_of(r@) == lookup_calls_of(texts_of(addresses@)),
{
    let mut out: Vec<IndexerCall> = Vec::new();
    let mut i: usize = 0;
    while i < addresses.len()
        invariant
            i <= addresses.len(),
            out@.len() == 2 * i,
            forall|k: int|
                0 <= k < 2 * i ==> (#[trigger] out@[k])@ == lookup_calls_of(texts_of(addresses@))[k],
        decreases addresses.len() - i,
    {
        out.push(IndexerCall::Balance { address: addresses[i].clone() });
        out.push(IndexerCall::Transactions { address: addresses[i].clone() });
        i = i + 1;
    }
    assert(calls_of(out@) =~= lookup_calls_of(texts_of(addresses@)));
    out
}

/// The calls that a request makes, in the order in which their outcomes are handed
/// back.
pub fn planned_calls(request: &Request, gap_limit: u32) -> (r: Vec<IndexerCall>)
    ensures
        calls_of(r@) == planned_calls_of(request@, gap_limit),
{
    match request {
        Request::Lookup { query } => match lookup_addresses(query.as_str(), gap_limit) {
            Ok(addresses) => lookup_calls(&addresses),
            Err(_) => Vec::new(),
        },
        Request::Broadcast { tx_hex } => {
            let mut out: Vec<IndexerCall> = Vec::new();
            out.push(IndexerCall::Broadcast { tx_hex: tx_hex.clone() });
            assert(calls_of(out@) =~= seq![IndexerCallView::Broadcast { tx_hex: tx_hex@ }]);
            out
        },
        Request::Fees => {
            let mut out: Vec<IndexerCall> = Vec::new();
            out.push(IndexerCall::Fees);
            assert(calls_of(out@) =~= seq![IndexerCallView::Fees]);
            out
        },
        Request::Utxos { addresses } => {
            let mut out: Vec<IndexerCall> = Vec::new();
            let mut i: usize = 0;
            while i < addresses.len()
                invariant
                    i <= addresses.len(),
                    out@.len() == i,
                    forall|k: int|
                        0 <= k < i ==> (#[trigger] out@[k])@ == (IndexerCallView::Utxos {
                            address: addresses@[k]@,
                        }),
                decreases addresses.len() - i,
            {
                out.push(IndexerCall::Utxos { address: addresses[i].clone() });
                i = i + 1;
            }
            assert(calls_of(out@) =~= planned_calls_of(request@, gap_limit));
            out
        },
    }
}

/// The outcome of call number `i`; a call without an outcome counts as one that did
/// not reach the indexer.
pub open spec fn outcome_at(outcomes: Seq<HttpOutcomeView>, i: int) -> HttpOutcomeView {
    if 0 <= i < outcomes.len() {
        outcomes[i]
    } else {
        HttpOutcomeView::Unreachable
    }
}

/// What was learned about one address from the outcome of its balance call, the
/// outcome of its transactions call, and the outcomes of the detail calls.
pub open spec fn looked_at(
    address: Seq<char>,
    balance: HttpOutcomeView,
    listing: HttpOutcomeView,
    details: Seq<HttpOutcomeView>,
) -> AddressOutcomeView {
    AddressOutcomeView {
        balance: match balance_result(balance, json_of_text(balance.body())) {
            Ok(b) => Some(b),
            Err(_) => None,
        },
        transactions: match transactions_result(listing, details, address) {
            Ok(records) => Some(records),
            Err(_) => None,
        },
    }
}

/// What was learned about each address of a lookup, from the outcomes of the planned
/// calls in their order.
pub open spec fn lookup_outcomes_of(
    addresses: Seq<Seq<char>>,
    outcomes: Seq<HttpOutcomeView>,
    details: Seq<HttpOutcomeView>,
) -> Seq<AddressOutcomeView> {
    Seq::new(
        addresses.len(),
        |i: int|
            looked_at(
                addresses[i],
                outcome_at(outcomes, 2 * i),
                outcome_at(outcomes, 2 * i + 1),
                details,
            ),
    )
}

/// The calls that follow the planned ones: for the lookup of a single address, one
/// for each transaction that its listing states, in the order of the listing; none
/// for anything else.
pub open spec fn detail_calls_of(request: RequestView, outcomes: Seq<HttpOutcomeView>) -> Seq<
    IndexerCallView,
> {
    match request {
        RequestView::Lookup { query } => if crate::resolver::classified(query) is SingleAddress {
            match txids_result(outcome_at(outcomes, 1)) {
                Ok(txids) => Seq::new(
                    txids.len(),
                    |i: int| IndexerCallView::TransactionDetail { txid: txids[i] },
                ),
                Err(_) => Seq::empty(),
            }
        } else {
            Seq::empty()
        },
        _ => Seq::empty(),
    }
}

/// The details that count for a lookup: those given for a single address, none for an
/// extended public key.
pub open spec fn details_used(query: Seq<char>, details: Seq<HttpOutcomeView>) -> Seq<HttpOutcomeView> {
    if crate::resolver::classified(query) is SingleAddress {
        details
    } else {
        Seq::empty()
    }
}

/// The rates that a fee request gives, if it gives any.
pub open spec fn rates_given(outcome: HttpOutcomeView, estimates: Seq<FeeEstimate>) -> Option<
    (u64, u64, u64),
> {
    match fees_result(outcome, estimates) {
        Ok(rates) => Some(rates),
        Err(_) => None,
    }
}

/// The answer to a request, given the outcomes of its planned calls in their order,
/// the outcomes of its detail calls in theirs, and the fee estimates read from the
/// reply to a fee call.
pub open spec fn reply_of(
    request: InboundRequestView,
    gap_limit: u32,
    outcomes: Seq<HttpOutcomeView>,
    details: Seq<HttpOutcomeView>,
    estimates: Seq<FeeEstimate>,
) -> ResponseView {
    match request.request {
        RequestView::Lookup { query } => lookup_reply_of(
            request.correlation_id,
            query,
            gap_limit,
            match addresses_of(query, gap_limit) {
                Ok(addresses) => lookup_outcomes_of(addresses, outcomes, details_used(query, details)),
                Err(_) => Seq::empty(),
            },
        ),
        RequestView::Broadcast { tx_hex } => broadcast_reply_of(
            request.correlation_id,
            broadcast_result(outcome_at(outcomes, 0)),
        ),
        RequestView::Fees => fees_reply_of(
            request.correlation_id,
            rates_given(outcome_at(outcomes, 0), estimates),
        ),
        RequestView::Utxos { addresses } => ResponseView {
            req: request.correlation_id,
            body: ResponseBodyView::Utxos {
                utxos: utxos_collected(addresses, outcomes, addresses.len() as int),
            },
        },
    }
}

/// Every request that was accepted is answered by one event: it goes to the author of
/// the request and carries the request's correlation id, as a tag and in its payload.
pub proof fn lemma_answer_is_bound_to_its_request(
    request: InboundRequestView,
    gap_limit: u32,
    outcomes: Seq<HttpOutcomeView>,
    details: Seq<HttpOutcomeView>,
    estimates: Seq<FeeEstimate>,
)
    ensures
        ({
            let reply = reply_of(request, gap_limit, outcomes, details, estimates);
            let event = response_event_of(request.requester_identity, reply);
            &&& reply.req == request.correlation_id
            &&& event.kind == NOMAD_SERVER_RESPONSE_KIND
            &&& tag_value(event.tags, "req"@, 0) == Some(request.correlation_id)
            &&& tag_value(event.tags, "p"@, 0) == Some(request.requester_identity)
            &&& response_json(reply).member("req"@) == Some(JsonValue::Str(request.correlation_id))
        }),
{
    let reply = reply_of(request, gap_limit, outcomes, details, estimates);
    lemma_response_event_is_bound(request.requester_identity, reply);
}

/// The dispatcher of one server identity.
#[derive(Debug, Clone, PartialEq, Eq)]
pub struct NostrHandler {
    pub server_pubkey: String,
    pub electrs_client: ElectrsClient,
}

impl NostrHandler {
    /// A dispatcher for the server whose public key, in hex, is `server_pubkey`.
    pub fn new(server_pubkey: String, electrs_client: ElectrsClient) -> (r: Self)
        ensures
            r.server_pubkey@ == server_pubkey@,
            r.electrs_client.base_url@ == electrs_client.base_url@,
    {
        NostrHandler { server_pubkey, electrs_client }
    }

    /// Whether the event need not be decoded, and what becomes of it then.
    pub fn turn_away(&self, event: &InboundEvent) -> (r: Option<Routed>)
        ensures
            match r {
                Some(routed) => turned_away(event@, self.server_pubkey@) == Some(routed@),
                None => turned_away(event@, self.server_pubkey@) is None,
            },
    {
        if event.kind != NOMAD_SERVER_REQUEST_KIND {
            return Some(Routed::Ignored);
        }
        if extract_req_id(event).is_none() {
            return Some(Routed::Discarded(MalformedRequest::MissingCorrelation));
        }
        match first_tag_value(&event.tags, "p") {
            None => Some(Routed::Discarded(MalformedRequest::MissingRecipient)),
            Some(to) => if same_text(to.as_str(), self.server_pubkey.as_str()) {
                None
            } else {
                Some(Routed::Discarded(MalformedRequest::WrongRecipient))
            },
        }
    }

    /// What becomes of an event, given what its body parses to.
    pub fn route(&self, event: &InboundEvent, parsed: Option<&Json>) -> (r: Routed)
        ensures
            r@ == routed(event@, self.server_pubkey@, value_of(parsed)),
    {
        if let Some(r) = self.turn_away(event) {
            return r;
        }
        let body = match parsed {
            Some(body) => body,
            None => { return Routed::Discarded(MalformedRequest::UnparsableBody); },
        };
        let correlation_id = match extract_req_id(event) {
            Some(id) => id,
            None => { return Routed::Discarded(MalformedRequest::MissingCorrelation); },
        };
        match decode_request(body) {
            Ok(request) => Routed::Accepted(
                InboundRequest { correlation_id, requester_identity: event.pubkey.clone(), request },
            ),
            Err(why) => Routed::Discarded(why),
        }
    }

    /// What becomes of an event: the body is parsed only where the event is a request
    /// to this server.
    pub fn dispatch(&self, event: &InboundEvent) -> (r: Routed)
        ensures
            r@ == routed(event@, self.server_pubkey@, json_of_text(event@.content)),
    {
        if let Some(r) = self.turn_away(event) {
            return r;
        }
        match Json::parse(event.content.as_str()) {
            Some(body) => self.route(event, Some(&body)),
            None => self.route(event, None),
        }
    }

    /// The calls that follow the planned ones, given what the planned ones came to.
    pub fn detail_calls(&self, request: &Request, outcomes: &Vec<HttpOutcome>) -> (r: Vec<IndexerCall>)
        ensures
            calls_of(r@) == detail_calls_of(request@, outcomes_of(outcomes@)),
    {
        let query = match request {
            Request::Lookup { query } => query,
            _ => { return Vec::new(); },
        };
        match crate::resolver::classify(query.as_str()) {
            crate::resolver::Query::SingleAddress => {},
            _ => { return Vec::new(); },
        }
        let listing = if 1 < outcomes.len() {
            self.electrs_client.get_address_txs(&outcomes[1])
        } else {
            self.electrs_client.get_address_txs(&HttpOutcome::Unreachable)
        };
        assert(crate::electrs::texts_result(listing) == txids_result(
            outcome_at(outcomes_of(outcomes@), 1),
        ));
        let txids = match listing {
            Ok(txids) => txids,
            Err(_) => { return Vec::new(); },
        };
        let mut out: Vec<IndexerCall> = Vec::new();
        let mut i: usize = 0;
        while i < txids.len()
            invariant
                i <= txids.len(),
                out@.len() == i,
                forall|k: int|
                    0 <= k < i ==> (#[trigger] out@[k])@ == (IndexerCallView::TransactionDetail {
                        txid: txids@[k]@,
                    }),
            decreases txids.len() - i,
        {
            out.push(IndexerCall::TransactionDetail { txid: txids[i].clone() });
            i = i + 1;
        }
        assert(calls_of(out@) =~= detail_calls_of(request@, outcomes_of(outcomes@)));
        out
    }

    fn outcome_or_unreachable(outcomes: &Vec<HttpOutcome>, at: u128) -> (r: HttpOutcome)
        ensures
            r@ == outcome_at(outcomes_of(outcomes@), at as int),
    {
        if at < outcomes.len() as u128 {
            let i: usize = at as usize;
            match &outcomes[i] {
                HttpOutcome::Unreachable => HttpOutcome::Unreachable,
                HttpOutcome::TimedOut => HttpOutcome::TimedOut,
                HttpOutcome::Reply { status, body } => HttpOutcome::Reply {
                    status: *status,
                    body: body.clone(),
                },
            }
        } else {
            HttpOutcome::Unreachable
        }
    }

    /// What was learned about each address of a lookup, from the outcomes of the
    /// planned calls.
    pub fn lookup_outcomes(
        &self,
        addresses: &Vec<String>,
        outcomes: &Vec<HttpOutcome>,
        details: &Vec<HttpOutcome>,
    ) -> (r: Vec<AddressOutcome>)
        ensures
            outcome_views(r@) == lookup_outcomes_of(
                texts_of(addresses@),
                outcomes_of(outcomes@),
                outcomes_of(details@),
            ),
    {
        let ghost wanted = lookup_outcomes_of(
            texts_of(addresses@),
            outcomes_of(outcomes@),
            outcomes_of(details@),
        );
        let mut out: Vec<AddressOutcome> = Vec::new();
        let mut i: usize = 0;
        while i < addresses.len()
            invariant
                i <= addresses.len(),
                wanted == lookup_outcomes_of(
                    texts_of(addresses@),
                    outcomes_of(outcomes@),
                    outcomes_of(details@),
                ),
                out@.len() == i,
                forall|k: int| 0 <= k < i ==> (#[trigger] out@[k])@ == wanted[k],
            decreases addresses.len() - i,
        {
            let at: u128 = 2 * (i as u128);
            let first = Self::outcome_or_unreachable(outcomes, at);
            let second = Self::outcome_or_unreachable(outcomes, at + 1);
            let balance = self.electrs_client.get_address_balance(&first);
            let transactions = self.electrs_client.get_address_transactions(
                addresses[i].as_str(),
                &second,
                details,
            );
            let outcome = AddressOutcome { balance, transactions };
            assert(outcome@ == wanted[i as int]);
            out.push(outcome);
            i = i + 1;
        }
        assert(outcome_views(out@) =~= wanted);
        out
    }

    /// The event that answers a request, given what its calls came to: the handler of
    /// the request's type makes the answer, which goes to the author of the request
    /// under its correlation id.
    pub fn answer(
        &self,
        request: &InboundRequest,
        gap_limit: u32,
        outcomes: &Vec<HttpOutcome>,
        details: &Vec<HttpOutcome>,
        estimates: &Vec<FeeEstimate>,
    ) -> (r: OutboundEvent)
        ensures
            r@ == response_event_of(
                request@.requester_identity,
                reply_of(
                    request@,
                    gap_limit,
                    outcomes_of(outcomes@),
                    outcomes_of(details@),
                    estimates@,
                ),
            ),
    {
        let to = request.requester_identity.as_str();
        let req_id = request.correlation_id.as_str();
        match &request.request {
            Request::Lookup { query } => {
                let seen = match lookup_addresses(query.as_str(), gap_limit) {
                    Ok(addresses) => match crate::resolver::classify(query.as_str()) {
                        crate::resolver::Query::SingleAddress => self.lookup_outcomes(
                            &addresses,
                            outcomes,
                            details,
                        ),
                        _ => {
                            let none: Vec<HttpOutcome> = Vec::new();
                            assert(outcomes_of(none@) =~= Seq::<HttpOutcomeView>::empty());
                            self.lookup_outcomes(&addresses, outcomes, &none)
                        },
                    },
                    Err(_) => {
                        let none: Vec<AddressOutcome> = Vec::new();
                        assert(outcome_views(none@) =~= Seq::<AddressOutcomeView>::empty());
                        none
                    },
                };
                self.lookup_and_publish(to, req_id, query.as_str(), gap_limit, &seen)
            },
            Request::Broadcast { .. } => {
                let outcome = Self::outcome_or_unreachable(outcomes, 0);
                self.broadcast_and_publish(to, req_id, &outcome)
            },
            Request::Fees => {
                let outcome = Self::outcome_or_unreachable(outcomes, 0);
                let rates = self.electrs_client.estimate_fees(&outcome, estimates);
                self.fees_and_publish(to, req_id, &rates)
            },
            Request::Utxos { addresses } => self.utxos_and_publish(to, req_id, addresses, outcomes),
        }
    }

    /// The event that answers a lookup.
    pub fn lookup_and_publish(
        &self,
        to_pubkey: &str,
        req_id: &str,
        query: &str,
        gap_limit: u32,
        outcomes: &Vec<AddressOutcome>,
    ) -> (r: OutboundEvent)
        ensures
            r@ == response_event_of(
                to_pubkey@,
                lookup_reply_of(req_id@, query@, gap_limit, outcome_views(outcomes@)),
            ),
    {
        response_event(to_pubkey, &lookup_reply(req_id, query, gap_limit, outcomes))
    }

    /// The event that answers a broadcast, given what the request to the indexer came
    /// to.
    pub fn broadcast_and_publish(&self, to_pubkey: &str, req_id: &str, outcome: &HttpOutcome) -> (r:
        OutboundEvent)
        ensures
            r@ == response_event_of(
                to_pubkey@,
                broadcast_reply_of(req_id@, broadcast_result(outcome@)),
            ),
    {
        let result = self.electrs_client.broadcast_transaction(outcome);
        response_event(to_pubkey, &broadcast_reply(req_id, &result))
    }

    /// The event that answers a fee request, given the rates that the indexer gave or
    /// the failure in their place.
    pub fn fees_and_publish(
        &self,
        to_pubkey: &str,
        req_id: &str,
        result: &Result<(u64, u64, u64), IndexerError>,
    ) -> (r: OutboundEvent)
        ensures
            r@ == response_event_of(to_pubkey@, fees_reply_of(req_id@, rates_of(*result))),
    {
        response_event(to_pubkey, &fees_reply(req_id, result))
    }

    /// The event that answers a request for unspent outputs, given what the request
    /// for each address came to. A failed address is left out; the answer holds the
    /// outputs of the others and no error.
    pub fn utxos_and_publish(
        &self,
        to_pubkey: &str,
        req_id: &str,
        addresses: &Vec<String>,
        outcomes: &Vec<HttpOutcome>,
    ) -> (r: OutboundEvent)
        ensures
            r@ == response_event_of(
                to_pubkey@,
                ResponseView {
                    req: req_id@,
                    body: ResponseBodyView::Utxos {
                        utxos: utxos_collected(
                            texts_of(addresses@),
                            outcomes_of(outcomes@),
                            addresses@.len() as int,
                        ),
                    },
                },
            ),
    {
        let utxos = self.electrs_client.get_utxos(addresses, outcomes);
        response_event(to_pubkey, &utxos_reply(req_id, utxos))
    }
}

} // verus!
