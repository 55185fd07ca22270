//! Answers: one canonical record per request type, its JSON payload with the field
//! names of every wallet generation, and the way back from a payload.

use vstd::prelude::*;
use crate::json::{
    json_of_text, lemma_object_value, member_from, members_of, print_text, printable,
    text_of_json, values_of, Json, JsonValue, Member, MemberValue,
};
use crate::text::copy_text;
use crate::protocol::{
    transactions_of, utxos_of, TransactionInfo, TransactionInfoView, UtxoInfo, UtxoInfoView,
};

verus! {

/// The mathematical value of a `ResponseBody`.
pub ghost enum ResponseBodyView {
    Lookup { confirmed_balance: i64, unconfirmed_balance: i64, transactions: Seq<TransactionInfoView> },
    LookupFailed { error: Seq<char> },
    BroadcastAccepted { txid: Seq<char> },
    BroadcastRejected { error: Seq<char> },
    Fees { fast: u64, medium: u64, slow: u64 },
    Utxos { utxos: Seq<UtxoInfoView> },
}

/// The mathematical value of a `Response`.
pub ghost struct ResponseView {
    pub req: Seq<char>,
    pub body: ResponseBodyView,
}

impl ResponseView {
    /// Whether the answer reports a failure.
    pub open spec fn is_error(self) -> bool {
        self.body is LookupFailed || self.body is BroadcastRejected
    }
}

/// What an answer says, by kind of request.
#[derive(Debug, Clone, PartialEq, Eq)]
pub enum ResponseBody {
    /// Balances and transactions of the address or key asked about.
    Lookup { confirmed_balance: i64, unconfirmed_balance: i64, transactions: Vec<TransactionInfo> },
    /// The lookup could not be made.
    LookupFailed { error: String },
    /// The network took the transaction.
    BroadcastAccepted { txid: String },
    /// The transaction was not handed on.
    BroadcastRejected { error: String },
    /// Fee rates.
    Fees { fast: u64, medium: u64, slow: u64 },
    /// Unspent outputs.
    Utxos { utxos: Vec<UtxoInfo> },
}

/// An answer: the correlation id of the request that it answers, and what it says.
#[derive(Debug, Clone, PartialEq, Eq)]
pub struct Response {
    pub req: String,
    pub body: ResponseBody,
}

impl View for ResponseBody {
    type V = ResponseBodyView;

    open spec fn view(&self) -> ResponseBodyView {
        match self {
            ResponseBody::Lookup { confirmed_balance, unconfirmed_balance, transactions } => {
                ResponseBodyView::Lookup {
                    confirmed_balance: *confirmed_balance,
                    unconfirmed_balance: *unconfirmed_balance,
                    transactions: transactions_of(transactions@),
                }
            },
            ResponseBody::LookupFailed { error } => ResponseBodyView::LookupFailed { error: error@ },
            ResponseBody::BroadcastAccepted { txid } => ResponseBodyView::BroadcastAccepted {
                txid: txid@,
            },
            ResponseBody::BroadcastRejected { error } => ResponseBodyView::BroadcastRejected {
                error: error@,
            },
            ResponseBody::Fees { fast, medium, slow } => ResponseBodyView::Fees {
                fast: *fast,
                medium: *medium,
                slow: *slow,
            },
            ResponseBody::Utxos { utxos } => ResponseBodyView::Utxos { utxos: utxos_of(utxos@) },
        }
    }
}

impl View for Response {
    type V = ResponseView;

    open spec fn view(&self) -> ResponseView {
        ResponseView { req: self.req@, body: self.body@ }
    }
}

/// The value of an answer that may be missing.
pub open spec fn response_value(r: Option<Response>) -> Option<ResponseView> {
    match r {
        Some(r) => Some(r@),
        None => None,
    }
}

/// An object member.
pub open spec fn field(name: Seq<char>, value: JsonValue) -> MemberValue {
    MemberValue { name, value }
}

/// The nearest value that an `i64` holds.
pub open spec fn clamp_i64(n: int) -> i64 {
    if n > i64::MAX {
        i64::MAX
    } else if n < i64::MIN {
        i64::MIN
    } else {
        n as i64
    }
}

/// The payload entry of one transaction.
pub open spec fn transaction_json(t: TransactionInfoView) -> JsonValue {
    JsonValue::Object(
        seq![
            field("txid"@, JsonValue::Str(t.txid)),
            field("timestamp"@, JsonValue::Int(t.timestamp as int)),
            field("amount"@, JsonValue::Int(t.amount as int)),
            field("confirmations"@, JsonValue::Int(t.confirmations as int)),
        ],
    )
}

/// The payload entries of a run of transactions.
pub open spec fn transactions_json(ts: Seq<TransactionInfoView>) -> Seq<JsonValue> {
    Seq::new(ts.len(), |i: int| transaction_json(ts[i]))
}

/// The payload entry of one unspent output.
pub open spec fn utxo_json(u: UtxoInfoView) -> JsonValue {
    JsonValue::Object(
        seq![
            field("txid"@, JsonValue::Str(u.txid)),
            field("vout"@, JsonValue::Int(u.vout as int)),
            field("value"@, JsonValue::Int(u.value as int)),
            field("address"@, JsonValue::Str(u.address)),
            field("confirmations"@, JsonValue::Int(u.confirmations as int)),
        ],
    )
}

/// The payload entries of a run of unspent outputs.
pub open spec fn utxos_json(us: Seq<UtxoInfoView>) -> Seq<JsonValue> {
    Seq::new(us.len(), |i: int| utxo_json(us[i]))
}

/// The payload of an answer. It always carries `req`. A lookup carries its balances
/// under the current names and under the names that the first wallets read, beside the
/// count of transactions and the total of both balances held to the `i64` range.
pub open spec fn response_json(r: ResponseView) -> JsonValue {
    let req = field("req"@, JsonValue::Str(r.req));
    match r.body {
        ResponseBodyView::Lookup { confirmed_balance, unconfirmed_balance, transactions } => {
            JsonValue::Object(
                seq![
                    req,
                    field("confirmedBalance"@, JsonValue::Int(confirmed_balance as int)),
                    field("unconfirmedBalance"@, JsonValue::Int(unconfirmed_balance as int)),
                    field("confirmations"@, JsonValue::Int(transactions.len() as int)),
                    field(
                        "amount"@,
                        JsonValue::Int(clamp_i64(confirmed_balance + unconfirmed_balance) as int),
                    ),
                    field("confirmed_balance"@, JsonValue::Int(confirmed_balance as int)),
                    field("unconfirmed_balance"@, JsonValue::Int(unconfirmed_balance as int)),
                    field("transactions"@, JsonValue::Array(transactions_json(transactions))),
                ],
            )
        },
        ResponseBodyView::LookupFailed { error } => JsonValue::Object(
            seq![req, field("error"@, JsonValue::Str(error))],
        ),
        ResponseBodyView::BroadcastAccepted { txid } => JsonValue::Object(
            seq![req, field("success"@, JsonValue::Bool(true)), field("txid"@, JsonValue::Str(txid))],
        ),
        ResponseBodyView::BroadcastRejected { error } => JsonValue::Object(
            seq![
                req,
                field("success"@, JsonValue::Bool(false)),
                field("error"@, JsonValue::Str(error)),
            ],
        ),
        ResponseBodyView::Fees { fast, medium, slow } => JsonValue::Object(
            seq![
                req,
                field("fast"@, JsonValue::Int(fast as int)),
                field("medium"@, JsonValue::Int(medium as int)),
                field("slow"@, JsonValue::Int(slow as int)),
            ],
        ),
        ResponseBodyView::Utxos { utxos } => JsonValue::Object(
            seq![req, field("utxos"@, JsonValue::Array(utxos_json(utxos)))],
        ),
    }
}

/// The integer of a member that must be there, within `lo..=hi`.
pub open spec fn int_within(m: Option<JsonValue>, lo: int, hi: int) -> Option<int> {
    match m {
        Some(JsonValue::Int(n)) => if lo <= n <= hi {
            Some(n)
        } else {
            None
        },
        _ => None,
    }
}

/// The integer of a member that may be left out, which then counts as zero.
pub open spec fn int_or_zero(m: Option<JsonValue>, lo: int, hi: int) -> Option<int> {
    match m {
        None => Some(0),
        _ => int_within(m, lo, hi),
    }
}

/// The text of a member that must be there.
pub open spec fn text_within(m: Option<JsonValue>) -> Option<Seq<char>> {
    match m {
        Some(JsonValue::Str(s)) => Some(s),
        _ => None,
    }
}

/// The transaction that a payload entry states: `txid` alone, or with `timestamp`,
/// `amount` and `confirmations`.
pub open spec fn transaction_of(j: JsonValue) -> Option<TransactionInfoView> {
    let txid = text_within(j.member("txid"@));
    let timestamp = int_or_zero(j.member("timestamp"@), i64::MIN as int, i64::MAX as int);
    let amount = int_or_zero(j.member("amount"@), i64::MIN as int, i64::MAX as int);
    let confirmations = int_or_zero(j.member("confirmations"@), 0, u32::MAX as int);
    if txid is Some && timestamp is Some && amount is Some && confirmations is Some {
        Some(
            TransactionInfoView {
                txid: txid->0,
                timestamp: timestamp->0 as i64,
                amount: amount->0 as i64,
                confirmations: confirmations->0 as u32,
            },
        )
    } else {
        None
    }
}

/// The transactions that a run of payload entries states, where each states one.
pub open spec fn transactions_in(items: Seq<JsonValue>) -> Option<Seq<TransactionInfoView>> {
    if forall|i: int| 0 <= i < items.len() ==> (#[trigger] transaction_of(items[i])) is Some {
        Some(Seq::new(items.len(), |i: int| transaction_of(items[i])->0))
    } else {
        None
    }
}

/// The unspent output that a payload entry states.
pub open spec fn utxo_of(j: JsonValue) -> Option<UtxoInfoView> {
    let txid = text_within(j.member("txid"@));
    let vout = int_within(j.member("vout"@), 0, u32::MAX as int);
    let value = int_within(j.member("value"@), 0, u64::MAX as int);
    let address = text_within(j.member("address"@));
    let confirmations = int_within(j.member("confirmations"@), 0, u32::MAX as int);
    if txid is Some && vout is Some && value is Some && address is Some && confirmations is Some {
        Some(
            UtxoInfoView {
                txid: txid->0,
                vout: vout->0 as u32,
                value: value->0 as u64,
                address: address->0,
                confirmations: confirmations->0 as u32,
            },
        )
    } else {
        None
    }
}

/// The unspent outputs that a run of payload entries states, where each states one.
pub open spec fn utxos_in(items: Seq<JsonValue>) -> Option<Seq<UtxoInfoView>> {
    if forall|i: int| 0 <= i < items.len() ==> (#[trigger] utxo_of(items[i])) is Some {
        Some(Seq::new(items.len(), |i: int| utxo_of(items[i])->0))
    } else {
        None
    }
}

/// The body that a payload states. The member that only one kind of answer has tells
/// the kinds apart: `success`, `utxos`, `fast`, `transactions`, then `error`.
pub open spec fn body_of(j: JsonValue) -> Option<ResponseBodyView> {
    if j.member("success"@) is Some {
        match j.member("success"@) {
            Some(JsonValue::Bool(true)) => match text_within(j.member("txid"@)) {
                Some(txid) => Some(ResponseBodyView::BroadcastAccepted { txid }),
                None => None,
            },
            Some(JsonValue::Bool(false)) => match text_within(j.member("error"@)) {
                Some(error) => Some(ResponseBodyView::BroadcastRejected { error }),
                None => None,
            },
            _ => None,
        }
    } else if j.member("utxos"@) is Some {
        match j.member("utxos"@) {
            Some(JsonValue::Array(items)) => match utxos_in(items) {
                Some(utxos) => Some(ResponseBodyView::Utxos { utxos }),
                None => None,
            },
            _ => None,
        }
    } else if j.member("fast"@) is Some {
        let fast = int_within(j.member("fast"@), 0, u64::MAX as int);
        let medium = int_within(j.member("medium"@), 0, u64::MAX as int);
        let slow = int_within(j.member("slow"@), 0, u64::MAX as int);
        if fast is Some && medium is Some && slow is Some {
            Some(
                ResponseBodyView::Fees {
                    fast: fast->0 as u64,
                    medium: medium->0 as u64,
                    slow: slow->0 as u64,
                },
            )
        } else {
            None
        }
    } else if j.member("transactions"@) is Some {
        let confirmed = int_within(j.member("confirmed_balance"@), i64::MIN as int, i64::MAX as int);
        let unconfirmed = int_within(
            j.member("unconfirmed_balance"@),
            i64::MIN as int,
            i64::MAX as int,
        );
        match j.member("transactions"@) {
            Some(JsonValue::Array(items)) => match transactions_in(items) {
                Some(transactions) => if confirmed is Some && unconfirmed is Some {
                    Some(
                        ResponseBodyView::Lookup {
                            confirmed_balance: confirmed->0 as i64,
                            unconfirmed_balance: unconfirmed->0 as i64,
                            transactions,
                        },
                    )
                } else {
                    None
                },
                None => None,
            },
            _ => None,
        }
    } else {
        match text_within(j.member("error"@)) {
            Some(error) => Some(ResponseBodyView::LookupFailed { error }),
            None => None,
        }
    }
}

/// The answer that a payload states: its `req` and its body.
pub open spec fn response_of(j: JsonValue) -> Option<ResponseView> {
    match (text_within(j.member("req"@)), body_of(j)) {
        (Some(req), Some(body)) => Some(ResponseView { req, body }),
        _ => None,
    }
}

/// Where position `i` is the first that holds `key`, a lookup of `key` finds its value.
pub proof fn lemma_member_at(fields: Seq<MemberValue>, key: Seq<char>, i: int)
    requires
        0 <= i < fields.len(),
        fields[i].name == key,
        forall|k: int| 0 <= k < i ==> (#[trigger] fields[k]).name != key,
    ensures
        JsonValue::Object(fields).member(key) == Some(fields[i].value),
{
    lemma_member_skip(fields, key, 0, i);
}

proof fn lemma_member_skip(fields: Seq<MemberValue>, key: Seq<char>, from: int, i: int)
    requires
        0 <= from <= i < fields.len(),
        fields[i].name == key,
        forall|k: int| 0 <= k < i ==> (#[trigger] fields[k]).name != key,
    ensures
        member_from(fields, key, from) == Some(fields[i].value),
    decreases i - from,
{
    if from < i {
        lemma_member_skip(fields, key, from + 1, i);
    }
}

/// The member names differ from each other: by their length, or by their first
/// character.
proof fn lemma_names()
    ensures
        "req"@.len() == 3,
        "txid"@.len() == 4 && "txid"@[0] == 't',
        "vout"@.len() == 4 && "vout"@[0] == 'v',
        "fast"@.len() == 4 && "fast"@[0] == 'f',
        "slow"@.len() == 4 && "slow"@[0] == 's',
        "utxos"@.len() == 5 && "utxos"@[0] == 'u',
        "error"@.len() == 5 && "error"@[0] == 'e',
        "value"@.len() == 5 && "value"@[0] == 'v',
        "amount"@.len() == 6 && "amount"@[0] == 'a',
        "medium"@.len() == 6 && "medium"@[0] == 'm',
        "success"@.len() == 7 && "success"@[0] == 's',
        "address"@.len() == 7 && "address"@[0] == 'a',
        "timestamp"@.len() == 9,
        "transactions"@.len() == 12,
        "confirmations"@.len() == 13,
        "confirmedBalance"@.len() == 16,
        "confirmed_balance"@.len() == 17,
        "unconfirmedBalance"@.len() == 18,
        "unconfirmed_balance"@.len() == 19,
{
    reveal_strlit("req");
    reveal_strlit("txid");
    reveal_strlit("vout");
    reveal_strlit("fast");
    reveal_strlit("slow");
    reveal_strlit("utxos");
    reveal_strlit("error");
    reveal_strlit("value");
    reveal_strlit("amount");
    reveal_strlit("medium");
    reveal_strlit("success");
    reveal_strlit("address");
    reveal_strlit("timestamp");
    reveal_strlit("transactions");
    reveal_strlit("confirmations");
    reveal_strlit("confirmedBalance");
    reveal_strlit("confirmed_balance");
    reveal_strlit("unconfirmedBalance");
    reveal_strlit("unconfirmed_balance");
}

/// A payload holds no number but integers, so all of it can be written.
pub proof fn lemma_payload_is_printable(r: ResponseView)
    ensures
        printable(response_json(r)),
{
    reveal_with_fuel(printable, 3);
    match r.body {
        ResponseBodyView::Lookup { confirmed_balance, unconfirmed_balance, transactions } => {
            let items = transactions_json(transactions);
            assert forall|i: int| 0 <= i < items.len() implies printable(#[trigger] items[i]) by {
                assert(items[i] == transaction_json(transactions[i]));
            }
            assert(printable(JsonValue::Array(items)));
        },
        ResponseBodyView::Utxos { utxos } => {
            let items = utxos_json(utxos);
            assert forall|i: int| 0 <= i < items.len() implies printable(#[trigger] items[i]) by {
                assert(items[i] == utxo_json(utxos[i]));
            }
            assert(printable(JsonValue::Array(items)));
        },
        _ => {},
    }
}

/// A transaction's payload entry states that transaction.
pub proof fn lemma_transaction_round_trip(t: TransactionInfoView)
    ensures
        transaction_of(transaction_json(t)) == Some(t),
{
    lemma_names();
    reveal_with_fuel(member_from, 5);
}

/// An unspent output's payload entry states that output.
pub proof fn lemma_utxo_round_trip(u: UtxoInfoView)
    ensures
        utxo_of(utxo_json(u)) == Some(u),
{
    lemma_names();
    reveal_with_fuel(member_from, 6);
}

/// Writing an answer as a payload and reading the payload back gives the same answer:
/// the same `req` and the same fields, whatever the kind of answer.
pub proof fn lemma_response_round_trip(r: ResponseView)
    ensures
        response_of(response_json(r)) == Some(r),
{
    lemma_names();
    reveal_with_fuel(member_from, 9);
    match r.body {
        ResponseBodyView::Lookup { confirmed_balance, unconfirmed_balance, transactions } => {
            let items = transactions_json(transactions);
            assert forall|i: int| 0 <= i < items.len() implies (#[trigger] transaction_of(
                items[i],
            )) == Some(transactions[i]) by {
                lemma_transaction_round_trip(transactions[i]);
            }
            assert(transactions_in(items) == Some(transactions)) by {
                assert(transactions_in(items)->0 =~= transactions);
            }
        },
        ResponseBodyView::Utxos { utxos } => {
            let items = utxos_json(utxos);
            assert forall|i: int| 0 <= i < items.len() implies (#[trigger] utxo_of(items[i]))
                == Some(utxos[i]) by {
                lemma_utxo_round_trip(utxos[i]);
            }
            assert(utxos_in(items) == Some(utxos)) by {
                assert(utxos_in(items)->0 =~= utxos);
            }
        },
        _ => {},
    }
}

fn named(name: &str, value: Json) -> (m: Member)
    ensures
        m.name@ == name@,
        m.value == value,
{
    Member { name: copy_text(name), value }
}

fn clamped_sum(a: i64, b: i64) -> (r: i64)
    ensures
        r == clamp_i64(a + b),
{
    let total: i128 = a as i128 + b as i128;
    if total > i64::MAX as i128 {
        i64::MAX
    } else if total < i64::MIN as i128 {
        i64::MIN
    } else {
        total as i64
    }
}

fn transaction_to_json(t: &TransactionInfo) -> (j: Json)
    ensures
        j@ == transaction_json(t@),
{
    let fields = vec![
        named("txid", Json::Str(t.txid.clone())),
        named("timestamp", Json::Int(t.timestamp)),
        named("amount", Json::Int(t.amount)),
        named("confirmations", Json::Uint(t.confirmations as u64)),
    ];
    proof {
        lemma_object_value(fields);
        assert(members_of(fields@) =~= transaction_json(t@)->Object_0);
    }
    Json::Object(fields)
}

fn utxo_to_json(u: &UtxoInfo) -> (j: Json)
    ensures
        j@ == utxo_json(u@),
{
    let fields = vec![
        named("txid", Json::Str(u.txid.clone())),
        named("vout", Json::Uint(u.vout as u64)),
        named("value", Json::Uint(u.value)),
        named("address", Json::Str(u.address.clone())),
        named("confirmations", Json::Uint(u.confirmations as u64)),
    ];
    proof {
        lemma_object_value(fields);
        assert(members_of(fields@) =~= utxo_json(u@)->Object_0);
    }
    Json::Object(fields)
}

fn transactions_to_json(ts: &Vec<TransactionInfo>) -> (v: Vec<Json>)
    ensures
        values_of(v@) == transactions_json(transactions_of(ts@)),
{
    let mut out: Vec<Json> = Vec::new();
    let mut i: usize = 0;
    while i < ts.len()
        invariant
            i <= ts.len(),
            out@.len() == i,
            forall|k: int| 0 <= k < i ==> (#[trigger] out@[k])@ == transaction_json(ts@[k]@),
        decreases ts.len() - i,
    {
        out.push(transaction_to_json(&ts[i]));
        i = i + 1;
    }
    assert(values_of(out@) =~= transactions_json(transactions_of(ts@)));
    out
}

fn utxos_to_json(us: &Vec<UtxoInfo>) -> (v: Vec<Json>)
    ensures
        values_of(v@) == utxos_json(utxos_of(us@)),
{
    let mut out: Vec<Json> = Vec::new();
    let mut i: usize = 0;
    while i < us.len()
        invariant
            i <= us.len(),
            out@.len() == i,
            forall|k: int| 0 <= k < i ==> (#[trigger] out@[k])@ == utxo_json(us@[k]@),
        decreases us.len() - i,
    {
        out.push(utxo_to_json(&us[i]));
        i = i + 1;
    }
    assert(values_of(out@) =~= utxos_json(utxos_of(us@)));
    out
}

fn array_of(items: Vec<Json>) -> (j: Json)
    ensures
        j@ == JsonValue::Array(values_of(items@)),
{
    proof {
        crate::json::lemma_array_value(items);
    }
    Json::Array(items)
}

/// The text of the member `key`, where it is there and is a string.
pub fn text_member(j: &Json, key: &str) -> (r: Option<String>)
    ensures
        match r {
            Some(s) => text_within(j@.member(key@)) == Some(s@),
            None => text_within(j@.member(key@)) is None,
        },
{
    match j.get(key) {
        Some(m) => match m.as_str() {
            Some(s) => Some(s.clone()),
            None => None,
        },
        None => None,
    }
}

/// The integer of the member `key`, where it is there and an `i64` holds it.
pub fn i64_member(j: &Json, key: &str) -> (r: Option<i64>)
    ensures
        match r {
            Some(n) => int_within(j@.member(key@), i64::MIN as int, i64::MAX as int) == Some(
                n as int,
            ),
            None => int_within(j@.member(key@), i64::MIN as int, i64::MAX as int) is None,
        },
{
    match j.get(key) {
        Some(m) => m.as_i64(),
        None => None,
    }
}

/// The integer of the member `key`, where it is there and a `u64` holds it.
pub fn u64_member(j: &Json, key: &str) -> (r: Option<u64>)
    ensures
        match r {
            Some(n) => int_within(j@.member(key@), 0, u64::MAX as int) == Some(n as int),
            None => int_within(j@.member(key@), 0, u64::MAX as int) is None,
        },
{
    match j.get(key) {
        Some(m) => m.as_u64(),
        None => None,
    }
}

/// The integer of the member `key`, where it is there and a `u32` holds it.
pub fn u32_member(j: &Json, key: &str) -> (r: Option<u32>)
    ensures
        match r {
            Some(n) => int_within(j@.member(key@), 0, u32::MAX as int) == Some(n as int),
            None => int_within(j@.member(key@), 0, u32::MAX as int) is None,
        },
{
    match u64_member(j, key) {
        Some(n) => if n <= 0xffff_ffff {
            Some(n as u32)
        } else {
            None
        },
        None => None,
    }
}

fn transaction_from_json(j: &Json) -> (r: Option<TransactionInfo>)
    ensures
        match r {
            Some(t) => transaction_of(j@) == Some(t@),
            None => transaction_of(j@) is None,
        },
{
    let txid = match text_member(j, "txid") {
        Some(t) => t,
        None => { return None; },
    };
    let timestamp: i64 = if j.get("timestamp").is_none() {
        0
    } else {
        match i64_member(j, "timestamp") {
            Some(n) => n,
            None => { return None; },
        }
    };
    let amount: i64 = if j.get("amount").is_none() {
        0
    } else {
        match i64_member(j, "amount") {
            Some(n) => n,
            None => { return None; },
        }
    };
    let confirmations: u32 = if j.get("confirmations").is_none() {
        0
    } else {
        match u32_member(j, "confirmations") {
            Some(n) => n,
            None => { return None; },
        }
    };
    Some(TransactionInfo { txid, timestamp, amount, confirmations })
}

fn utxo_from_json(j: &Json) -> (r: Option<UtxoInfo>)
    ensures
        match r {
            Some(u) => utxo_of(j@) == Some(u@),
            None => utxo_of(j@) is None,
        },
{
    let txid = match text_member(j, "txid") {
        Some(t) => t,
        None => { return None; },
    };
    let vout = match u32_member(j, "vout") {
        Some(n) => n,
        None => { return None; },
    };
    let value = match u64_member(j, "value") {
        Some(n) => n,
        None => { return None; },
    };
    let address = match text_member(j, "address") {
        Some(t) => t,
        None => { return None; },
    };
    let confirmations = match u32_member(j, "confirmations") {
        Some(n) => n,
        None => { return None; },
    };
    Some(UtxoInfo { txid, vout, value, address, confirmations })
}

fn transactions_from_json(items: &Vec<Json>) -> (r: Option<Vec<TransactionInfo>>)
    ensures
        match r {
            Some(ts) => transactions_in(values_of(items@)) == Some(transactions_of(ts@)),
            None => transactions_in(values_of(items@)) is None,
        },
{
    let ghost values = values_of(items@);
    let mut out: Vec<TransactionInfo> = Vec::new();
    let mut i: usize = 0;
    while i < items.len()
        invariant
            i <= items.len(),
            values == values_of(items@),
            out@.len() == i,
            forall|k: int| 0 <= k < i ==> (#[trigger] transaction_of(values[k])) == Some(out@[k]@),
        decreases items.len() - i,
    {
        match transaction_from_json(&items[i]) {
            Some(t) => {
                out.push(t);
            },
            None => {
                assert(transaction_of(values[i as int]) is None);
                return None;
            },
        }
        i = i + 1;
    }
    assert(transactions_in(values)->0 =~= transactions_of(out@));
    Some(out)
}

fn utxos_from_json(items: &Vec<Json>) -> (r: Option<Vec<UtxoInfo>>)
    ensures
        match r {
            Some(us) => utxos_in(values_of(items@)) == Some(utxos_of(us@)),
            None => utxos_in(values_of(items@)) is None,
        },
{
    let ghost values = values_of(items@);
    let mut out: Vec<UtxoInfo> = Vec::new();
    let mut i: usize = 0;
    while i < items.len()
        invariant
            i <= items.len(),
            values == values_of(items@),
            out@.len() == i,
            forall|k: int| 0 <= k < i ==> (#[trigger] utxo_of(values[k])) == Some(out@[k]@),
        decreases items.len() - i,
    {
        match utxo_from_json(&items[i]) {
            Some(u) => {
                out.push(u);
            },
            None => {
                assert(utxo_of(values[i as int]) is None);
                return None;
            },
        }
        i = i + 1;
    }
    assert(utxos_in(values)->0 =~= utxos_of(out@));
    Some(out)
}

fn body_from_json(j: &Json) -> (r: Option<ResponseBody>)
    ensures
        match r {
            Some(b) => body_of(j@) == Some(b@),
            None => body_of(j@) is None,
        },
{
    if let Some(success) = j.get("success") {
        match success.as_bool() {
            Some(true) => match text_member(j, "txid") {
                Some(txid) => Some(ResponseBody::BroadcastAccepted { txid }),
                None => None,
            },
            Some(false) => match text_member(j, "error") {
                Some(error) => Some(ResponseBody::BroadcastRejected { error }),
                None => None,
            },
            None => None,
        }
    } else if let Some(listed) = j.get("utxos") {
        match listed.as_array() {
            Some(items) => match utxos_from_json(items) {
                Some(utxos) => Some(ResponseBody::Utxos { utxos }),
                None => None,
            },
            None => None,
        }
    } else if j.get("fast").is_some() {
        match (u64_member(j, "fast"), u64_member(j, "medium"), u64_member(j, "slow")) {
            (Some(fast), Some(medium), Some(slow)) => Some(ResponseBody::Fees { fast, medium, slow }),
            _ => None,
        }
    } else if let Some(listed) = j.get("transactions") {
        let confirmed = i64_member(j, "confirmed_balance");
        let unconfirmed = i64_member(j, "unconfirmed_balance");
        match listed.as_array() {
            Some(items) => match transactions_from_json(items) {
                Some(transactions) => match (confirmed, unconfirmed) {
                    (Some(confirmed_balance), Some(unconfirmed_balance)) => Some(
                        ResponseBody::Lookup { confirmed_balance, unconfirmed_balance, transactions },
                    ),
                    _ => None,
                },
                None => None,
            },
            None => None,
        }
    } else {
        match text_member(j, "error") {
            Some(error) => Some(ResponseBody::LookupFailed { error }),
            None => None,
        }
    }
}

impl Response {
    /// Reads an answer from its payload. `None` where the payload lacks `req`, has the
    /// member of no kind of answer, or holds a field in another shape.
    pub fn from_json(j: &Json) -> (r: Option<Response>)
        ensures
            response_value(r) == response_of(j@),
    {
        match text_member(j, "req") {
            Some(req) => match body_from_json(j) {
                Some(body) => Some(Response { req, body }),
                None => None,
            },
            None => None,
        }
    }

    /// Reads an answer from JSON text.
    pub fn from_text(text: &str) -> (r: Option<Response>)
        ensures
            response_value(r) == match json_of_text(text@) {
                Some(j) => response_of(j),
                None => None,
            },
    {
        match Json::parse(text) {
            Some(j) => Response::from_json(&j),
            None => None,
        }
    }

    /// Whether the answer reports a failure.
    pub fn is_error(&self) -> (r: bool)
        ensures
            r == self@.is_error(),
    {
        match &self.body {
            ResponseBody::LookupFailed { .. } => true,
            ResponseBody::BroadcastRejected { .. } => true,
            _ => false,
        }
    }

    /// The payload of the answer as a JSON document.
    pub fn to_json(&self) -> (j: Json)
        ensures
            j@ == response_json(self@),
    {
        let req = named("req", Json::Str(self.req.clone()));
        let fields = match &self.body {
            ResponseBody::Lookup { confirmed_balance, unconfirmed_balance, transactions } => {
                let entries = array_of(transactions_to_json(transactions));
                vec![
                    req,
                    named("confirmedBalance", Json::Int(*confirmed_balance)),
                    named("unconfirmedBalance", Json::Int(*unconfirmed_balance)),
                    named("confirmations", Json::Uint(transactions.len() as u64)),
                    named("amount", Json::Int(clamped_sum(*confirmed_balance, *unconfirmed_balance))),
                    named("confirmed_balance", Json::Int(*confirmed_balance)),
                    named("unconfirmed_balance", Json::Int(*unconfirmed_balance)),
                    named("transactions", entries),
                ]
            },
            ResponseBody::LookupFailed { error } => vec![
                req,
                named("error", Json::Str(error.clone())),
            ],
            ResponseBody::BroadcastAccepted { txid } => vec![
                req,
                named("success", Json::Bool(true)),
                named("txid", Json::Str(txid.clone())),
            ],
            ResponseBody::BroadcastRejected { error } => vec![
                req,
                named("success", Json::Bool(false)),
                named("error", Json::Str(error.clone())),
            ],
            ResponseBody::Fees { fast, medium, slow } => vec![
                req,
                named("fast", Json::Uint(*fast)),
                named("medium", Json::Uint(*medium)),
                named("slow", Json::Uint(*slow)),
            ],
            ResponseBody::Utxos { utxos } => {
                let entries = array_of(utxos_to_json(utxos));
                vec![req, named("utxos", entries)]
            },
        };
        proof {
            lemma_object_value(fields);
            assert(members_of(fields@) =~= response_json(self@)->Object_0);
        }
        Json::Object(fields)
    }

    /// The payload of the answer as JSON text.
    pub fn to_text(&self) -> (r: String)
        ensures
            r@ == text_of_json(response_json(self@)),
    {
        proof {
            lemma_payload_is_printable(self@);
        }
        print_text(&self.to_json())
    }
}

} // verus!
