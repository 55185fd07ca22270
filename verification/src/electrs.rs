//! The chain indexer seen from this side: where each question goes, and what each
//! reply means.

use vstd::prelude::*;
use crate::json::{json_of_text, values_of, Json, JsonValue};
use crate::protocol::{utxos_of, TransactionInfo, TransactionInfoView, UtxoInfo, UtxoInfoView};
use crate::reply::{
    clamp_i64, i64_member, int_within, text_member, text_within, u32_member, u64_member,
};
use crate::text::{copy_text, push_decimal, push_text, same_text, decimal};

verus! {

/// How a request to the indexer ended.
#[derive(Debug, Clone, PartialEq, Eq)]
pub enum HttpOutcome {
    /// No connection was made.
    Unreachable,
    /// No reply came within the time allowed.
    TimedOut,
    /// The indexer replied.
    Reply { status: u16, body: String },
}

/// The mathematical value of an `HttpOutcome`.
pub ghost enum HttpOutcomeView {
    Unreachable,
    TimedOut,
    Reply { status: u16, body: Seq<char> },
}

impl View for HttpOutcome {
    type V = HttpOutcomeView;

    open spec fn view(&self) -> HttpOutcomeView {
        match self {
            HttpOutcome::Unreachable => HttpOutcomeView::Unreachable,
            HttpOutcome::TimedOut => HttpOutcomeView::TimedOut,
            HttpOutcome::Reply { status, body } => HttpOutcomeView::Reply {
                status: *status,
                body: body@,
            },
        }
    }
}

impl HttpOutcomeView {
    /// The body of a reply; empty where there was none.
    pub open spec fn body(self) -> Seq<char> {
        match self {
            HttpOutcomeView::Reply { body, .. } => body,
            _ => Seq::empty(),
        }
    }
}

/// Why a question to the indexer has no answer.
#[derive(Debug, Clone, PartialEq, Eq)]
pub enum IndexerError {
    /// No connection was made.
    Unreachable,
    /// No reply came within the time allowed.
    Timeout,
    /// The indexer replied with a status that is not a success.
    Status { status: u16, body: String },
    /// The reply is not what the question expects.
    Malformed,
    /// The indexer did not take the transaction.
    BroadcastRejected { reason: String },
}

/// The mathematical value of an `IndexerError`.
pub ghost enum IndexerErrorView {
    Unreachable,
    Timeout,
    Status { status: u16, body: Seq<char> },
    Malformed,
    BroadcastRejected { reason: Seq<char> },
}

impl View for IndexerError {
    type V = IndexerErrorView;

    open spec fn view(&self) -> IndexerErrorView {
        match self {
            IndexerError::Unreachable => IndexerErrorView::Unreachable,
            IndexerError::Timeout => IndexerErrorView::Timeout,
            IndexerError::Status { status, body } => IndexerErrorView::Status {
                status: *status,
                body: body@,
            },
            IndexerError::Malformed => IndexerErrorView::Malformed,
            IndexerError::BroadcastRejected { reason } => IndexerErrorView::BroadcastRejected {
                reason: reason@,
            },
        }
    }
}

impl IndexerErrorView {
    /// The error in words.
    pub open spec fn message(self) -> Seq<char> {
        match self {
            IndexerErrorView::Unreachable => "Failed to connect to Electrs"@,
            IndexerErrorView::Timeout => "Timeout"@,
            IndexerErrorView::Status { status, body } => "Electrs returned error "@ + decimal(
                status as nat,
            ) + ": "@ + body,
            IndexerErrorView::Malformed => "Failed to parse Electrs response"@,
            IndexerErrorView::BroadcastRejected { reason } => reason,
        }
    }
}

impl IndexerError {
    /// The error in words.
    pub fn message(&self) -> (r: String)
        ensures
            r@ == self@.message(),
    {
        match self {
            IndexerError::Unreachable => copy_text("Failed to connect to Electrs"),
            IndexerError::Timeout => copy_text("Timeout"),
            IndexerError::Status { status, body } => {
                let mut out = copy_text("Electrs returned error ");
                push_decimal(&mut out, *status as u64);
                push_text(&mut out, ": ");
                push_text(&mut out, body.as_str());
                out
            },
            IndexerError::Malformed => copy_text("Failed to parse Electrs response"),
            IndexerError::BroadcastRejected { reason } => reason.clone(),
        }
    }
}

/// Whether an HTTP status is a success.
pub open spec fn is_success(status: u16) -> bool {
    200 <= status < 300
}

/// The failure that an outcome is by itself, before its body is read: no connection,
/// no reply in time, or a status that is not a success.
pub open spec fn transport_failure(outcome: HttpOutcomeView) -> Option<IndexerErrorView> {
    match outcome {
        HttpOutcomeView::Unreachable => Some(IndexerErrorView::Unreachable),
        HttpOutcomeView::TimedOut => Some(IndexerErrorView::Timeout),
        HttpOutcomeView::Reply { status, body } => if is_success(status) {
            None
        } else {
            Some(IndexerErrorView::Status { status, body })
        },
    }
}

/// The failure that an outcome is by itself, if it is one.
pub fn failure_of(outcome: &HttpOutcome) -> (r: Option<IndexerError>)
    ensures
        match r {
            Some(e) => transport_failure(outcome@) == Some(e@),
            None => transport_failure(outcome@) is None,
        },
{
    match outcome {
        HttpOutcome::Unreachable => Some(IndexerError::Unreachable),
        HttpOutcome::TimedOut => Some(IndexerError::Timeout),
        HttpOutcome::Reply { status, body } => if 200 <= *status && *status < 300 {
            None
        } else {
            Some(IndexerError::Status { status: *status, body: body.clone() })
        },
    }
}

/// The balances that a reply body states: its `confirmed` and `unconfirmed` members.
pub open spec fn balance_of(document: JsonValue) -> Option<(i64, i64)> {
    let confirmed = int_within(document.member("confirmed"@), i64::MIN as int, i64::MAX as int);
    let unconfirmed = int_within(document.member("unconfirmed"@), i64::MIN as int, i64::MAX as int);
    if confirmed is Some && unconfirmed is Some {
        Some((confirmed->0 as i64, unconfirmed->0 as i64))
    } else {
        None
    }
}

/// What a balance request came to, given what its body parses to.
pub open spec fn balance_result(outcome: HttpOutcomeView, parsed: Option<JsonValue>) -> Result<
    (i64, i64),
    IndexerErrorView,
> {
    match transport_failure(outcome) {
        Some(e) => Err(e),
        None => match parsed {
            Some(document) => match balance_of(document) {
                Some(b) => Ok(b),
                None => Err(IndexerErrorView::Malformed),
            },
            None => Err(IndexerErrorView::Malformed),
        },
    }
}

/// The value of a result whose error is an `IndexerError`.
pub open spec fn plain_result<T>(r: Result<T, IndexerError>) -> Result<T, IndexerErrorView> {
    match r {
        Ok(v) => Ok(v),
        Err(e) => Err(e@),
    }
}

/// The value of a text result whose error is an `IndexerError`.
pub open spec fn text_result(r: Result<String, IndexerError>) -> Result<Seq<char>, IndexerErrorView> {
    match r {
        Ok(v) => Ok(v@),
        Err(e) => Err(e@),
    }
}

/// Reads the balances from a parsed reply body.
pub fn decode_balance(document: &Json) -> (r: Option<(i64, i64)>)
    ensures
        r == balance_of(document@),
{
    match (i64_member(document, "confirmed"), i64_member(document, "unconfirmed")) {
        (Some(confirmed), Some(unconfirmed)) => Some((confirmed, unconfirmed)),
        _ => None,
    }
}

/// What a broadcast came to: the transaction id that a successful reply carries as
/// its body, or the reason for which the indexer did not take the transaction.
pub open spec fn broadcast_result(outcome: HttpOutcomeView) -> Result<Seq<char>, IndexerErrorView> {
    match outcome {
        HttpOutcomeView::Unreachable => Err(IndexerErrorView::Unreachable),
        HttpOutcomeView::TimedOut => Err(IndexerErrorView::Timeout),
        HttpOutcomeView::Reply { status, body } => if is_success(status) {
            Ok(body)
        } else {
            Err(IndexerErrorView::BroadcastRejected { reason: body })
        },
    }
}

/// The integer of a member that may be left out or be `null`: `Some(None)` where it is,
/// `None` where the member holds anything but an integer within `lo..=hi`.
pub open spec fn optional_int(m: Option<JsonValue>, lo: int, hi: int) -> Option<Option<int>> {
    match m {
        None => Some(None),
        Some(JsonValue::Null) => Some(None),
        Some(JsonValue::Int(n)) => if lo <= n <= hi {
            Some(Some(n))
        } else {
            None
        },
        _ => None,
    }
}

/// Whether a member is left out, is `null` or is a string.
pub open spec fn optional_text_ok(m: Option<JsonValue>) -> bool {
    match m {
        None => true,
        Some(JsonValue::Null) => true,
        Some(JsonValue::Str(_)) => true,
        _ => false,
    }
}

/// The truth value of the member `confirmed` of the member `status`.
pub open spec fn confirmed_of(j: JsonValue) -> Option<bool> {
    match j.member("status"@) {
        Some(status) => match status.member("confirmed"@) {
            Some(JsonValue::Bool(b)) => Some(b),
            _ => None,
        },
        None => None,
    }
}

/// One transaction as the indexer lists it for an address.
#[derive(Debug, Clone, PartialEq, Eq)]
pub struct ListedTransaction {
    pub txid: String,
    pub confirmed: bool,
    pub block_time: Option<i64>,
}

/// The mathematical value of a `ListedTransaction`.
pub ghost struct ListedTransactionView {
    pub txid: Seq<char>,
    pub confirmed: bool,
    pub block_time: Option<i64>,
}

impl View for ListedTransaction {
    type V = ListedTransactionView;

    open spec fn view(&self) -> ListedTransactionView {
        ListedTransactionView {
            txid: self.txid@,
            confirmed: self.confirmed,
            block_time: self.block_time,
        }
    }
}

/// The values of a run of listed transactions.
pub open spec fn listed_of(items: Seq<ListedTransaction>) -> Seq<ListedTransactionView> {
    Seq::new(items.len(), |i: int| items[i]@)
}

/// The transaction that a listing entry states. It needs `txid` and
/// `status.confirmed`; `status.block_height`, `status.block_hash`, `status.block_time`
/// and `fee` may be left out or `null`, and must else have their type.
pub open spec fn listed_transaction_of(j: JsonValue) -> Option<ListedTransactionView> {
    let txid = text_within(j.member("txid"@));
    let confirmed = confirmed_of(j);
    let status = j.member("status"@);
    let fee = optional_int(j.member("fee"@), i64::MIN as int, i64::MAX as int);
    if txid is Some && confirmed is Some && status is Some && fee is Some {
        let height = optional_int(status->0.member("block_height"@), 0, u32::MAX as int);
        let time = optional_int(status->0.member("block_time"@), i64::MIN as int, i64::MAX as int);
        if height is Some && time is Some && optional_text_ok(status->0.member("block_hash"@)) {
            Some(
                ListedTransactionView {
                    txid: txid->0,
                    confirmed: confirmed->0,
                    block_time: match time->0 {
                        Some(t) => Some(t as i64),
                        None => None,
                    },
                },
            )
        } else {
            None
        }
    } else {
        None
    }
}

/// The transactions that a listing states: an array in which each entry states one.
pub open spec fn listing_of(document: JsonValue) -> Option<Seq<ListedTransactionView>> {
    match document {
        JsonValue::Array(items) => if forall|i: int|
            0 <= i < items.len() ==> (#[trigger] listed_transaction_of(items[i])) is Some {
            Some(Seq::new(items.len(), |i: int| listed_transaction_of(items[i])->0))
        } else {
            None
        },
        _ => None,
    }
}

/// What a request for an address's transactions came to, given what its body parses
/// to.
pub open spec fn listing_result(outcome: HttpOutcomeView, parsed: Option<JsonValue>) -> Result<
    Seq<ListedTransactionView>,
    IndexerErrorView,
> {
    match transport_failure(outcome) {
        Some(e) => Err(e),
        None => match parsed {
            Some(document) => match listing_of(document) {
                Some(listed) => Ok(listed),
                None => Err(IndexerErrorView::Malformed),
            },
            None => Err(IndexerErrorView::Malformed),
        },
    }
}

/// What one output of a transaction pays to `address`: its `value` where its
/// `scriptpubkey_address` is `address`, else nothing.
pub open spec fn output_value(output: JsonValue, address: Seq<char>) -> int {
    if text_within(output.member("scriptpubkey_address"@)) == Some(address) {
        match int_within(output.member("value"@), i64::MIN as int, i64::MAX as int) {
            Some(n) => n,
            None => 0,
        }
    } else {
        0
    }
}

/// What a run of outputs pays to `address`.
pub open spec fn outputs_total(outputs: Seq<JsonValue>, address: Seq<char>) -> int
    decreases outputs.len(),
{
    if outputs.len() == 0 {
        0
    } else {
        outputs_total(outputs.drop_last(), address) + output_value(outputs.last(), address)
    }
}

/// The amount of a transaction for `address`: what its outputs under `vout` pay to the
/// address, held to the `i64` range. What its inputs take from the address is not
/// subtracted.
pub open spec fn amount_of(document: JsonValue, address: Seq<char>) -> i64 {
    match document.member("vout"@) {
        Some(JsonValue::Array(outputs)) => clamp_i64(outputs_total(outputs, address)),
        _ => 0,
    }
}

/// What a request for one transaction's amount came to, given what its body parses
/// to. A status that is not a success counts as an amount of zero.
pub open spec fn amount_result(
    outcome: HttpOutcomeView,
    parsed: Option<JsonValue>,
    address: Seq<char>,
) -> Result<i64, IndexerErrorView> {
    match outcome {
        HttpOutcomeView::Unreachable => Err(IndexerErrorView::Unreachable),
        HttpOutcomeView::TimedOut => Err(IndexerErrorView::Timeout),
        HttpOutcomeView::Reply { status, body } => if !is_success(status) {
            Ok(0)
        } else {
            match parsed {
                Some(document) => Ok(amount_of(document, address)),
                None => Err(IndexerErrorView::Malformed),
            }
        },
    }
}

/// The amount that goes into the record of transaction `i`: what its detail request
/// came to, and zero where that failed or was not made.
pub open spec fn enriched_amount(details: Seq<HttpOutcomeView>, i: int, address: Seq<char>) -> i64 {
    if 0 <= i < details.len() {
        match amount_result(details[i], json_of_text(details[i].body()), address) {
            Ok(amount) => amount,
            Err(_) => 0,
        }
    } else {
        0
    }
}

/// The record of a listed transaction: its block time or zero, the amount given, and
/// one confirmation where it is confirmed.
pub open spec fn address_transaction(listed: ListedTransactionView, amount: i64) -> TransactionInfoView {
    TransactionInfoView {
        txid: listed.txid,
        timestamp: match listed.block_time {
            Some(t) => t,
            None => 0,
        },
        amount,
        confirmations: if listed.confirmed {
            1
        } else {
            0
        },
    }
}

/// The records of an address's listed transactions, each with its enriched amount.
pub open spec fn address_transactions(
    listed: Seq<ListedTransactionView>,
    details: Seq<HttpOutcomeView>,
    address: Seq<char>,
) -> Seq<TransactionInfoView> {
    Seq::new(
        listed.len(),
        |i: int| address_transaction(listed[i], enriched_amount(details, i, address)),
    )
}

/// The values of a run of outcomes.
pub open spec fn outcomes_of(items: Seq<HttpOutcome>) -> Seq<HttpOutcomeView> {
    Seq::new(items.len(), |i: int| items[i]@)
}

/// One transaction of an address: when, how much for the address, and how settled.
#[derive(Debug, Clone, PartialEq, Eq)]
pub struct AddressTransaction {
    pub txid: String,
    pub timestamp: i64,
    pub amount: i64,
    pub confirmations: u32,
}

impl View for AddressTransaction {
    type V = TransactionInfoView;

    open spec fn view(&self) -> TransactionInfoView {
        TransactionInfoView {
            txid: self.txid@,
            timestamp: self.timestamp,
            amount: self.amount,
            confirmations: self.confirmations,
        }
    }
}

/// The values of a run of address transactions.
pub open spec fn records_of(items: Seq<AddressTransaction>) -> Seq<TransactionInfoView> {
    Seq::new(items.len(), |i: int| items[i]@)
}

impl AddressTransaction {
    /// The same transaction as an entry of an answer.
    pub fn to_info(&self) -> (r: TransactionInfo)
        ensures
            r@ == self@,
    {
        TransactionInfo {
            txid: self.txid.clone(),
            timestamp: self.timestamp,
            amount: self.amount,
            confirmations: self.confirmations,
        }
    }

    /// A copy of the record.
    pub fn copy(&self) -> (r: AddressTransaction)
        ensures
            r@ == self@,
    {
        AddressTransaction {
            txid: self.txid.clone(),
            timestamp: self.timestamp,
            amount: self.amount,
            confirmations: self.confirmations,
        }
    }
}

fn optional_i64_member(j: &Json, key: &str) -> (r: Option<Option<i64>>)
    ensures
        match r {
            Some(Some(n)) => optional_int(j@.member(key@), i64::MIN as int, i64::MAX as int)
                == Some(Some(n as int)),
            Some(None) => optional_int(j@.member(key@), i64::MIN as int, i64::MAX as int) == Some(
                None::<int>,
            ),
            None => optional_int(j@.member(key@), i64::MIN as int, i64::MAX as int) is None,
        },
{
    match j.get(key) {
        None => Some(None),
        Some(m) => match m {
            Json::Null => Some(None),
            _ => match m.as_i64() {
                Some(n) => Some(Some(n)),
                None => None,
            },
        },
    }
}

fn optional_u32_ok(j: &Json, key: &str) -> (r: bool)
    ensures
        r == optional_int(j@.member(key@), 0, u32::MAX as int).is_some(),
{
    match j.get(key) {
        None => true,
        Some(m) => match m {
            Json::Null => true,
            _ => match m.as_u64() {
                Some(n) => n <= 0xffff_ffff,
                None => false,
            },
        },
    }
}

fn optional_text_member_ok(j: &Json, key: &str) -> (r: bool)
    ensures
        r == optional_text_ok(j@.member(key@)),
{
    match j.get(key) {
        None => true,
        Some(m) => match m {
            Json::Null => true,
            Json::Str(_) => true,
            _ => false,
        },
    }
}

fn confirmed_member(j: &Json) -> (r: Option<bool>)
    ensures
        r == confirmed_of(j@),
{
    match j.get("status") {
        Some(status) => match status.get("confirmed") {
            Some(c) => c.as_bool(),
            None => None,
        },
        None => None,
    }
}

fn decode_listed(j: &Json) -> (r: Option<ListedTransaction>)
    ensures
        match r {
            Some(t) => listed_transaction_of(j@) == Some(t@),
            None => listed_transaction_of(j@) is None,
        },
{
    let txid = match text_member(j, "txid") {
        Some(t) => t,
        None => { return None; },
    };
    let confirmed = match confirmed_member(j) {
        Some(c) => c,
        None => { return None; },
    };
    let status = match j.get("status") {
        Some(s) => s,
        None => { return None; },
    };
    if optional_i64_member(j, "fee").is_none() {
        return None;
    }
    if !optional_u32_ok(status, "block_height") {
        return None;
    }
    let block_time = match optional_i64_member(status, "block_time") {
        Some(t) => t,
        None => { return None; },
    };
    if !optional_text_member_ok(status, "block_hash") {
        return None;
    }
    Some(ListedTransaction { txid, confirmed, block_time })
}

/// Reads an address's transactions from a parsed reply body.
pub fn decode_listing(document: &Json) -> (r: Option<Vec<ListedTransaction>>)
    ensures
        match r {
            Some(v) => listing_of(document@) == Some(listed_of(v@)),
            None => listing_of(document@) is None,
        },
{
    let items = match document.as_array() {
        Some(items) => items,
        None => { return None; },
    };
    let ghost values = values_of(items@);
    let mut out: Vec<ListedTransaction> = Vec::new();
    let mut i: usize = 0;
    while i < items.len()
        invariant
            i <= items.len(),
            values == values_of(items@),
            document@ == JsonValue::Array(values),
            out@.len() == i,
            forall|k: int|
                0 <= k < i ==> (#[trigger] listed_transaction_of(values[k])) == Some(out@[k]@),
        decreases items.len() - i,
    {
        match decode_listed(&items[i]) {
            Some(t) => {
                out.push(t);
            },
            None => {
                assert(listed_transaction_of(values[i as int]) is None);
                return None;
            },
        }
        i = i + 1;
    }
    assert(listing_of(document@)->0 =~= listed_of(out@));
    Some(out)
}

fn decode_output_value(output: &Json, address: &str) -> (r: i64)
    ensures
        r == output_value(output@, address@),
{
    match text_member(output, "scriptpubkey_address") {
        Some(paid) => if same_text(paid.as_str(), address) {
            match i64_member(output, "value") {
                Some(n) => n,
                None => 0,
            }
        } else {
            0
        },
        None => 0,
    }
}

/// Reads from a parsed transaction what its outputs pay to `address`.
pub fn decode_amount(document: &Json, address: &str) -> (r: i64)
    ensures
        r == amount_of(document@, address@),
{
    let outputs = match document.get("vout") {
        Some(listed) => match listed.as_array() {
            Some(outputs) => outputs,
            None => { return 0; },
        },
        None => { return 0; },
    };
    let ghost values = values_of(outputs@);
    let mut total: i128 = 0;
    let mut i: usize = 0;
    while i < outputs.len()
        invariant
            i <= outputs.len(),
            values == values_of(outputs@),
            total == outputs_total(values.take(i as int), address@),
            -(i as int) * 0x8000_0000_0000_0000 <= total <= (i as int) * 0x8000_0000_0000_0000,
        decreases outputs.len() - i,
    {
        let paid = decode_output_value(&outputs[i], address);
        proof {
            assert(values.take(i + 1).drop_last() == values.take(i as int));
            assert((i as int) * 0x8000_0000_0000_0000 + 0x8000_0000_0000_0000 == (i + 1)
                * 0x8000_0000_0000_0000) by (nonlinear_arith);
            assert((i as int) * 0x8000_0000_0000_0000 <= 0xffff_ffff_ffff_ffff
                * 0x8000_0000_0000_0000) by (nonlinear_arith)
                requires
                    i <= 0xffff_ffff_ffff_ffff,
            ;
        }
        total = total + paid as i128;
        i = i + 1;
    }
    assert(values.take(outputs.len() as int) == values);
    if total > i64::MAX as i128 {
        i64::MAX
    } else if total < i64::MIN as i128 {
        i64::MIN
    } else {
        total as i64
    }
}

/// The transaction ids of a listing, in its order.
pub open spec fn listed_txids(listed: Seq<ListedTransactionView>) -> Seq<Seq<char>> {
    Seq::new(listed.len(), |i: int| listed[i].txid)
}

/// The value of a list of texts or of the error in its place.
pub open spec fn texts_result(r: Result<Vec<String>, IndexerError>) -> Result<
    Seq<Seq<char>>,
    IndexerErrorView,
> {
    match r {
        Ok(v) => Ok(crate::text::texts_of(v@)),
        Err(e) => Err(e@),
    }
}

/// What the transaction ids of an address come to: the ids of the listed
/// transactions in the order of the listing, or the failure of the listing.
pub open spec fn txids_result(listing: HttpOutcomeView) -> Result<Seq<Seq<char>>, IndexerErrorView> {
    match listing_result(listing, json_of_text(listing.body())) {
        Ok(listed) => Ok(listed_txids(listed)),
        Err(e) => Err(e),
    }
}

/// The value of a list of records or of the error in its place.
pub open spec fn records_result(r: Result<Vec<AddressTransaction>, IndexerError>) -> Result<
    Seq<TransactionInfoView>,
    IndexerErrorView,
> {
    match r {
        Ok(v) => Ok(records_of(v@)),
        Err(e) => Err(e@),
    }
}

/// What the transactions of `address` come to: the records of the listed
/// transactions, or the failure of the listing.
pub open spec fn transactions_result(
    listing: HttpOutcomeView,
    details: Seq<HttpOutcomeView>,
    address: Seq<char>,
) -> Result<Seq<TransactionInfoView>, IndexerErrorView> {
    match listing_result(listing, json_of_text(listing.body())) {
        Ok(listed) => Ok(address_transactions(listed, details, address)),
        Err(e) => Err(e),
    }
}

/// The unspent output that an entry of the indexer's list for `address` states: its
/// `txid`, `vout` and `value`, and one confirmation where `status.confirmed` holds.
pub open spec fn listed_utxo_of(j: JsonValue, address: Seq<char>) -> Option<UtxoInfoView> {
    let txid = text_within(j.member("txid"@));
    let vout = int_within(j.member("vout"@), 0, u32::MAX as int);
    let value = int_within(j.member("value"@), 0, u64::MAX as int);
    let confirmed = confirmed_of(j);
    if txid is Some && vout is Some && value is Some && confirmed is Some {
        Some(
            UtxoInfoView {
                txid: txid->0,
                vout: vout->0 as u32,
                value: value->0 as u64,
                address,
                confirmations: if confirmed->0 {
                    1
                } else {
                    0
                },
            },
        )
    } else {
        None
    }
}

/// The unspent outputs that a reply body states for `address`: an array in which each
/// entry states one.
pub open spec fn listed_utxos_of(document: JsonValue, address: Seq<char>) -> Option<
    Seq<UtxoInfoView>,
> {
    match document {
        JsonValue::Array(items) => if forall|i: int|
            0 <= i < items.len() ==> (#[trigger] listed_utxo_of(items[i], address)) is Some {
            Some(Seq::new(items.len(), |i: int| listed_utxo_of(items[i], address)->0))
        } else {
            None
        },
        _ => None,
    }
}

/// The unspent outputs that one address adds to an answer: those that its reply
/// states, and none where the request failed or the reply is not a list of outputs.
pub open spec fn utxos_found(outcome: HttpOutcomeView, parsed: Option<JsonValue>, address: Seq<char>) -> Seq<
    UtxoInfoView,
> {
    if transport_failure(outcome) is Some {
        Seq::empty()
    } else {
        match parsed {
            Some(document) => match listed_utxos_of(document, address) {
                Some(found) => found,
                None => Seq::empty(),
            },
            None => Seq::empty(),
        }
    }
}

/// The unspent outputs of the first `n` addresses, in the order of the addresses. An
/// address without an outcome adds none.
pub open spec fn utxos_collected(
    addresses: Seq<Seq<char>>,
    outcomes: Seq<HttpOutcomeView>,
    n: int,
) -> Seq<UtxoInfoView>
    decreases n,
{
    if n <= 0 {
        Seq::empty()
    } else if n - 1 < outcomes.len() {
        utxos_collected(addresses, outcomes, n - 1) + utxos_found(
            outcomes[n - 1],
            json_of_text(outcomes[n - 1].body()),
            addresses[n - 1],
        )
    } else {
        utxos_collected(addresses, outcomes, n - 1)
    }
}

fn decode_listed_utxo(j: &Json, address: &str) -> (r: Option<UtxoInfo>)
    ensures
        match r {
            Some(u) => listed_utxo_of(j@, address@) == Some(u@),
            None => listed_utxo_of(j@, address@) is None,
        },
{
    let txid = match text_member(j, "txid") {
        Some(t) => t,
        None => { return None; },
    };
    let vout = match u32_member(j, "vout") {
        Some(n) => n,
        None => { return None; },
    };
    let value = match u64_member(j, "value") {
        Some(n) => n,
        None => { return None; },
    };
    let confirmations: u32 = match confirmed_member(j) {
        Some(c) => if c {
            1
        } else {
            0
        },
        None => { return None; },
    };
    Some(UtxoInfo { txid, vout, value, address: copy_text(address), confirmations })
}

/// Reads the unspent outputs of `address` from a parsed reply body.
pub fn decode_utxos(document: &Json, address: &str) -> (r: Option<Vec<UtxoInfo>>)
    ensures
        match r {
            Some(v) => listed_utxos_of(document@, address@) == Some(utxos_of(v@)),
            None => listed_utxos_of(document@, address@) is None,
        },
{
    let items = match document.as_array() {
        Some(items) => items,
        None => { return None; },
    };
    let ghost values = values_of(items@);
    let mut out: Vec<UtxoInfo> = Vec::new();
    let mut i: usize = 0;
    while i < items.len()
        invariant
            i <= items.len(),
            values == values_of(items@),
            document@ == JsonValue::Array(values),
            out@.len() == i,
            forall|k: int|
                0 <= k < i ==> (#[trigger] listed_utxo_of(values[k], address@)) == Some(out@[k]@),
        decreases items.len() - i,
    {
        match decode_listed_utxo(&items[i], address) {
            Some(u) => {
                out.push(u);
            },
            None => {
                assert(listed_utxo_of(values[i as int], address@) is None);
                return None;
            },
        }
        i = i + 1;
    }
    assert(listed_utxos_of(document@, address@)->0 =~= utxos_of(out@));
    Some(out)
}

/// One fee estimate of the indexer: the rate, rounded up to a whole number, at which a
/// transaction is expected to confirm within `target` blocks.
#[derive(Debug, Clone, Copy, PartialEq, Eq, Structural)]
pub struct FeeEstimate {
    pub target: u32,
    pub rate: u64,
}

/// The confirmation target of the fast rate.
pub const FAST_TARGET: u32 = 1;

/// The confirmation target of the medium rate.
pub const MEDIUM_TARGET: u32 = 6;

/// The confirmation target of the slow rate.
pub const SLOW_TARGET: u32 = 144;

/// The rate of the first estimate for `target` at or after position `i`.
pub open spec fn rate_from(estimates: Seq<FeeEstimate>, target: u32, i: int) -> Option<u64>
    decreases estimates.len() - i,
{
    if i < 0 || i >= estimates.len() {
        None
    } else if estimates[i].target == target {
        Some(estimates[i].rate)
    } else {
        rate_from(estimates, target, i + 1)
    }
}

/// A rate is never answered as less than one.
pub open spec fn at_least_one(rate: u64) -> u64 {
    if rate == 0 {
        1
    } else {
        rate
    }
}

/// The fast, medium and slow rates that the estimates give: those for the targets of
/// 1, 6 and 144 blocks, each at least one; none where one of the three is missing.
pub open spec fn fee_rates_of(estimates: Seq<FeeEstimate>) -> Option<(u64, u64, u64)> {
    match (
        rate_from(estimates, FAST_TARGET, 0),
        rate_from(estimates, MEDIUM_TARGET, 0),
        rate_from(estimates, SLOW_TARGET, 0),
    ) {
        (Some(fast), Some(medium), Some(slow)) => Some(
            (at_least_one(fast), at_least_one(medium), at_least_one(slow)),
        ),
        _ => None,
    }
}

/// What a fee request came to, given the estimates read from its body.
pub open spec fn fees_result(outcome: HttpOutcomeView, estimates: Seq<FeeEstimate>) -> Result<
    (u64, u64, u64),
    IndexerErrorView,
> {
    match transport_failure(outcome) {
        Some(e) => Err(e),
        None => match fee_rates_of(estimates) {
            Some(rates) => Ok(rates),
            None => Err(IndexerErrorView::Malformed),
        },
    }
}

fn rate_for(estimates: &Vec<FeeEstimate>, target: u32) -> (r: Option<u64>)
    ensures
        r == rate_from(estimates@, target, 0),
{
    let mut i: usize = 0;
    while i < estimates.len()
        invariant
            i <= estimates.len(),
            rate_from(estimates@, target, 0) == rate_from(estimates@, target, i as int),
        decreases estimates.len() - i,
    {
        if estimates[i].target == target {
            return Some(estimates[i].rate);
        }
        i = i + 1;
    }
    None
}

fn one_or_more(rate: u64) -> (r: u64)
    ensures
        r == at_least_one(rate),
{
    if rate == 0 {
        1
    } else {
        rate
    }
}

/// The fast, medium and slow rates that the estimates give.
pub fn select_fee_rates(estimates: &Vec<FeeEstimate>) -> (r: Option<(u64, u64, u64)>)
    ensures
        r == fee_rates_of(estimates@),
{
    match (
        rate_for(estimates, FAST_TARGET),
        rate_for(estimates, MEDIUM_TARGET),
        rate_for(estimates, SLOW_TARGET),
    ) {
        (Some(fast), Some(medium), Some(slow)) => Some(
            (one_or_more(fast), one_or_more(medium), one_or_more(slow)),
        ),
        _ => None,
    }
}

/// One question to the indexer.
#[derive(Debug, Clone, PartialEq, Eq)]
pub enum IndexerCall {
    /// The balance of an address.
    Balance { address: String },
    /// The transactions of an address.
    Transactions { address: String },
    /// One transaction in full.
    TransactionDetail { txid: String },
    /// Hand in a raw transaction.
    Broadcast { tx_hex: String },
    /// Current fee rates.
    Fees,
    /// The unspent outputs of an address.
    Utxos { address: String },
}

/// The mathematical value of an `IndexerCall`.
pub ghost enum IndexerCallView {
    Balance { address: Seq<char> },
    Transactions { address: Seq<char> },
    TransactionDetail { txid: Seq<char> },
    Broadcast { tx_hex: Seq<char> },
    Fees,
    Utxos { address: Seq<char> },
}

impl View for IndexerCall {
    type V = IndexerCallView;

    open spec fn view(&self) -> IndexerCallView {
        match self {
            IndexerCall::Balance { address } => IndexerCallView::Balance { address: address@ },
            IndexerCall::Transactions { address } => IndexerCallView::Transactions {
                address: address@,
            },
            IndexerCall::TransactionDetail { txid } => IndexerCallView::TransactionDetail {
                txid: txid@,
            },
            IndexerCall::Broadcast { tx_hex } => IndexerCallView::Broadcast { tx_hex: tx_hex@ },
            IndexerCall::Fees => IndexerCallView::Fees,
            IndexerCall::Utxos { address } => IndexerCallView::Utxos { address: address@ },
        }
    }
}

/// The values of a run of calls.
pub open spec fn calls_of(items: Seq<IndexerCall>) -> Seq<IndexerCallView> {
    Seq::new(items.len(), |i: int| items[i]@)
}

impl IndexerCallView {
    /// The seconds after which the call is given up: 20 for an address's
    /// transactions, 45 for unspent outputs, 30 for the others.
    pub open spec fn timeout_secs(self) -> u64 {
        match self {
            IndexerCallView::Transactions { .. } => 20,
            IndexerCallView::Utxos { .. } => 45,
            _ => 30,
        }
    }

    /// Where the call goes, under the indexer's base address.
    pub open spec fn url(self, base: Seq<char>) -> Seq<char> {
        match self {
            IndexerCallView::Balance { address } => endpoint(
                base,
                "/address/"@,
                address,
                "/balance"@,
            ),
            IndexerCallView::Transactions { address } => endpoint(
                base,
                "/address/"@,
                address,
                "/txs"@,
            ),
            IndexerCallView::TransactionDetail { txid } => endpoint(base, "/tx/"@, txid, ""@),
            IndexerCallView::Broadcast { .. } => endpoint(base, "/tx"@, ""@, ""@),
            IndexerCallView::Fees => endpoint(base, "/fee-estimates"@, ""@, ""@),
            IndexerCallView::Utxos { address } => endpoint(base, "/address/"@, address, "/utxo"@),
        }
    }
}

impl IndexerCall {
    /// The seconds after which the call is given up.
    pub fn timeout_secs(&self) -> (r: u64)
        ensures
            r == self@.timeout_secs(),
    {
        match self {
            IndexerCall::Transactions { .. } => 20,
            IndexerCall::Utxos { .. } => 45,
            _ => 30,
        }
    }
}

/// The client's side of the indexer's HTTP interface.
#[derive(Debug, Clone, PartialEq, Eq)]
pub struct ElectrsClient {
    pub base_url: String,
}

/// The address of `path` under `base`, with `subject` and then `tail` behind it.
pub open spec fn endpoint(base: Seq<char>, path: Seq<char>, subject: Seq<char>, tail: Seq<char>) -> Seq<
    char,
> {
    base + path + subject + tail
}

impl ElectrsClient {
    /// A client for the indexer at `url_override`, or at the indexer's usual place
    /// where no other is given.
    pub fn new(url_override: Option<String>) -> (r: Self)
        ensures
            r.base_url@ == match url_override {
                Some(url) => url@,
                None => "http://electrs:3002"@,
            },
    {
        let base_url = match url_override {
            Some(url) => url,
            None => copy_text("http://electrs:3002"),
        };
        ElectrsClient { base_url }
    }

    fn address_of(&self, path: &str, subject: &str, tail: &str) -> (r: String)
        ensures
            r@ == endpoint(self.base_url@, path@, subject@, tail@),
    {
        let mut out = self.base_url.clone();
        push_text(&mut out, path);
        push_text(&mut out, subject);
        push_text(&mut out, tail);
        out
    }

    /// Where the balance of `address` is asked.
    pub fn balance_url(&self, address: &str) -> (r: String)
        ensures
            r@ == endpoint(self.base_url@, "/address/"@, address@, "/balance"@),
    {
        self.address_of("/address/", address, "/balance")
    }

    /// Where the transactions of `address` are asked.
    pub fn transactions_url(&self, address: &str) -> (r: String)
        ensures
            r@ == endpoint(self.base_url@, "/address/"@, address@, "/txs"@),
    {
        self.address_of("/address/", address, "/txs")
    }

    /// Where the unspent outputs of `address` are asked.
    pub fn utxos_url(&self, address: &str) -> (r: String)
        ensures
            r@ == endpoint(self.base_url@, "/address/"@, address@, "/utxo"@),
    {
        self.address_of("/address/", address, "/utxo")
    }

    /// Where the transaction `txid` is asked.
    pub fn transaction_url(&self, txid: &str) -> (r: String)
        ensures
            r@ == endpoint(self.base_url@, "/tx/"@, txid@, ""@),
    {
        self.address_of("/tx/", txid, "")
    }

    /// Where a raw transaction is handed in.
    pub fn broadcast_url(&self) -> (r: String)
        ensures
            r@ == endpoint(self.base_url@, "/tx"@, ""@, ""@),
    {
        self.address_of("/tx", "", "")
    }

    /// Where fee rates are asked.
    pub fn fees_url(&self) -> (r: String)
        ensures
            r@ == endpoint(self.base_url@, "/fee-estimates"@, ""@, ""@),
    {
        self.address_of("/fee-estimates", "", "")
    }

    /// Where a call goes.
    pub fn url_for(&self, call: &IndexerCall) -> (r: String)
        ensures
            r@ == call@.url(self.base_url@),
    {
        match call {
            IndexerCall::Balance { address } => self.balance_url(address.as_str()),
            IndexerCall::Transactions { address } => self.transactions_url(address.as_str()),
            IndexerCall::TransactionDetail { txid } => self.transaction_url(txid.as_str()),
            IndexerCall::Broadcast { .. } => self.broadcast_url(),
            IndexerCall::Fees => self.fees_url(),
            IndexerCall::Utxos { address } => self.utxos_url(address.as_str()),
        }
    }

    /// What a balance request came to: the confirmed and unconfirmed balance that the
    /// reply states, or why there is none.
    pub fn get_address_balance(&self, outcome: &HttpOutcome) -> (r: Result<(i64, i64), IndexerError>)
        ensures
            plain_result(r) == balance_result(outcome@, json_of_text(outcome@.body())),
    {
        if let Some(e) = failure_of(outcome) {
            return Err(e);
        }
        match outcome {
            HttpOutcome::Reply { body, .. } => match Json::parse(body.as_str()) {
                Some(document) => match decode_balance(&document) {
                    Some(b) => Ok(b),
                    None => Err(IndexerError::Malformed),
                },
                None => Err(IndexerError::Malformed),
            },
            _ => Err(IndexerError::Malformed),
        }
    }

    /// What a request for one transaction's amount for `address` came to.
    pub fn get_transaction_amount(&self, outcome: &HttpOutcome, address: &str) -> (r: Result<
        i64,
        IndexerError,
    >)
        ensures
            plain_result(r) == amount_result(outcome@, json_of_text(outcome@.body()), address@),
    {
        match outcome {
            HttpOutcome::Unreachable => Err(IndexerError::Unreachable),
            HttpOutcome::TimedOut => Err(IndexerError::Timeout),
            HttpOutcome::Reply { status, body } => if !(200 <= *status && *status < 300) {
                Ok(0)
            } else {
                match Json::parse(body.as_str()) {
                    Some(document) => Ok(decode_amount(&document, address)),
                    None => Err(IndexerError::Malformed),
                }
            },
        }
    }

    /// The transactions of `address`: one record for each transaction that the
    /// listing states, in its order. `details` holds, position by position, what the
    /// detail request for each listed transaction came to; a record's amount is zero
    /// where that request failed or was not made.
    pub fn get_address_transactions(
        &self,
        address: &str,
        listing: &HttpOutcome,
        details: &Vec<HttpOutcome>,
    ) -> (r: Result<Vec<AddressTransaction>, IndexerError>)
        ensures
            records_result(r) == transactions_result(listing@, outcomes_of(details@), address@),
    {
        if let Some(e) = failure_of(listing) {
            return Err(e);
        }
        let listed = match listing {
            HttpOutcome::Reply { body, .. } => match Json::parse(body.as_str()) {
                Some(document) => match decode_listing(&document) {
                    Some(listed) => listed,
                    None => { return Err(IndexerError::Malformed); },
                },
                None => { return Err(IndexerError::Malformed); },
            },
            _ => { return Err(IndexerError::Malformed); },
        };
        let ghost wanted = address_transactions(listed_of(listed@), outcomes_of(details@), address@);
        let mut out: Vec<AddressTransaction> = Vec::new();
        let mut i: usize = 0;
        while i < listed.len()
            invariant
                i <= listed.len(),
                wanted == address_transactions(listed_of(listed@), outcomes_of(details@), address@),
                out@.len() == i,
                forall|k: int| 0 <= k < i ==> (#[trigger] out@[k])@ == wanted[k],
            decreases listed.len() - i,
        {
            let amount: i64 = if i < details.len() {
                match self.get_transaction_amount(&details[i], address) {
                    Ok(amount) => amount,
                    Err(_) => 0,
                }
            } else {
                0
            };
            assert(amount == enriched_amount(outcomes_of(details@), i as int, address@));
            let entry = &listed[i];
            out.push(
                AddressTransaction {
                    txid: entry.txid.clone(),
                    timestamp: match entry.block_time {
                        Some(t) => t,
                        None => 0,
                    },
                    amount,
                    confirmations: if entry.confirmed {
                        1
                    } else {
                        0
                    },
                },
            );
            i = i + 1;
        }
        assert(records_of(out@) =~= wanted);
        Ok(out)
    }

    /// The transaction ids of an address, in the order in which the indexer lists them.
    pub fn get_address_txs(&self, listing: &HttpOutcome) -> (r: Result<Vec<String>, IndexerError>)
        ensures
            texts_result(r) == txids_result(listing@),
    {
        if let Some(e) = failure_of(listing) {
            return Err(e);
        }
        let listed = match listing {
            HttpOutcome::Reply { body, .. } => match Json::parse(body.as_str()) {
                Some(document) => match decode_listing(&document) {
                    Some(listed) => listed,
                    None => { return Err(IndexerError::Malformed); },
                },
                None => { return Err(IndexerError::Malformed); },
            },
            _ => { return Err(IndexerError::Malformed); },
        };
        let mut out: Vec<String> = Vec::new();
        let mut i: usize = 0;
        while i < listed.len()
            invariant
                i <= listed.len(),
                out@.len() == i,
                forall|k: int| 0 <= k < i ==> (#[trigger] out@[k])@ == listed@[k].txid@,
            decreases listed.len() - i,
        {
            out.push(listed[i].txid.clone());
            i = i + 1;
        }
        assert(crate::text::texts_of(out@) =~= listed_txids(listed_of(listed@)));
        Ok(out)
    }

    /// The unspent outputs of `addresses`, given what the request for each address
    /// came to, position by position. An address whose request failed adds nothing,
    /// and the others keep their outputs.
    pub fn get_utxos(&self, addresses: &Vec<String>, outcomes: &Vec<HttpOutcome>) -> (r: Vec<UtxoInfo>)
        ensures
            utxos_of(r@) == utxos_collected(
                crate::text::texts_of(addresses@),
                outcomes_of(outcomes@),
                addresses@.len() as int,
            ),
    {
        let ghost names = crate::text::texts_of(addresses@);
        let ghost seen = outcomes_of(outcomes@);
        let mut out: Vec<UtxoInfo> = Vec::new();
        let mut i: usize = 0;
        while i < addresses.len()
            invariant
                i <= addresses.len(),
                names == crate::text::texts_of(addresses@),
                seen == outcomes_of(outcomes@),
                utxos_of(out@) == utxos_collected(names, seen, i as int),
            decreases addresses.len() - i,
        {
            if i < outcomes.len() {
                let ghost before = utxos_of(out@);
                let ghost found = utxos_found(seen[i as int], json_of_text(seen[i as int].body()), names[i as int]);
                if failure_of(&outcomes[i]).is_none() {
                    if let HttpOutcome::Reply { body, .. } = &outcomes[i] {
                        if let Some(document) = Json::parse(body.as_str()) {
                            if let Some(mut listed) = decode_utxos(&document, addresses[i].as_str()) {
                                assert(utxos_of(listed@) == found);
                                let ghost added = listed@;
                                out.append(&mut listed);
                                assert(utxos_of(out@) =~= before + utxos_of(added));
                            }
                        }
                    }
                }
                assert(utxos_of(out@) =~= before + found);
            }
            i = i + 1;
        }
        out
    }

    /// What a fee request came to: the fast, medium and slow rates among the
    /// estimates read from the reply, or why there are none.
    pub fn estimate_fees(&self, outcome: &HttpOutcome, estimates: &Vec<FeeEstimate>) -> (r: Result<
        (u64, u64, u64),
        IndexerError,
    >)
        ensures
            plain_result(r) == fees_result(outcome@, estimates@),
    {
        if let Some(e) = failure_of(outcome) {
            return Err(e);
        }
        match select_fee_rates(estimates) {
            Some(rates) => Ok(rates),
            None => Err(IndexerError::Malformed),
        }
    }

    /// What a broadcast came to.
    pub fn broadcast_transaction(&self, outcome: &HttpOutcome) -> (r: Result<String, IndexerError>)
        ensures
            text_result(r) == broadcast_result(outcome@),
    {
        match outcome {
            HttpOutcome::Unreachable => Err(IndexerError::Unreachable),
            HttpOutcome::TimedOut => Err(IndexerError::Timeout),
            HttpOutcome::Reply { status, body } => if 200 <= *status && *status < 300 {
                Ok(body.clone())
            } else {
                Err(IndexerError::BroadcastRejected { reason: body.clone() })
            },
        }
    }
}

} // verus!
