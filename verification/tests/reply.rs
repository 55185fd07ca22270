use nomad_server::json::{Json, Member};
use nomad_server::protocol::{TransactionInfo, UtxoInfo};
use nomad_server::reply::{
    i64_member, text_member, u32_member, u64_member, Response, ResponseBody,
};

fn tx(txid: &str, timestamp: i64, amount: i64, confirmations: u32) -> TransactionInfo {
    TransactionInfo { txid: txid.to_string(), timestamp, amount, confirmations }
}

fn utxo(txid: &str, vout: u32, value: u64, address: &str, confirmations: u32) -> UtxoInfo {
    UtxoInfo { txid: txid.to_string(), vout, value, address: address.to_string(), confirmations }
}

fn samples() -> Vec<Response> {
    vec![
        Response {
            req: "r1".to_string(),
            body: ResponseBody::Lookup { confirmed_balance: 5000, unconfirmed_balance: 0, transactions: vec![] },
        },
        Response {
            req: "r-2 \"quoted\"".to_string(),
            body: ResponseBody::Lookup {
                confirmed_balance: i64::MAX,
                unconfirmed_balance: i64::MIN,
                transactions: vec![tx("aa", 1_700_000_000, -42, 1), tx("bb", 0, i64::MAX, u32::MAX)],
            },
        },
        Response { req: "r3".to_string(), body: ResponseBody::LookupFailed { error: "Invalid query".to_string() } },
        Response { req: "r4".to_string(), body: ResponseBody::BroadcastAccepted { txid: "ab".repeat(32) } },
        Response { req: "r5".to_string(), body: ResponseBody::BroadcastRejected { error: "Timeout".to_string() } },
        Response { req: "r6".to_string(), body: ResponseBody::Fees { fast: 10, medium: 5, slow: 1 } },
        Response { req: "".to_string(), body: ResponseBody::Fees { fast: u64::MAX, medium: 0, slow: 0 } },
        Response { req: "r7".to_string(), body: ResponseBody::Utxos { utxos: vec![] } },
        Response {
            req: "r8".to_string(),
            body: ResponseBody::Utxos {
                utxos: vec![utxo("aa", 0, 546, "bc1qa", 1), utxo("bb", u32::MAX, u64::MAX, "3J98", 0)],
            },
        },
    ]
}

#[test]
fn payload_round_trip_for_every_kind_of_answer() {
    for r in samples() {
        assert_eq!(Response::from_json(&r.to_json()), Some(r.clone()));
    }
}

#[test]
fn text_round_trip_for_every_kind_of_answer() {
    for r in samples() {
        let text = r.to_text();
        assert_eq!(Response::from_text(&text), Some(r.clone()), "{}", text);
    }
}

#[test]
fn lookup_payload_carries_current_and_first_names() {
    let r = Response {
        req: "r1".to_string(),
        body: ResponseBody::Lookup { confirmed_balance: 5000, unconfirmed_balance: 0, transactions: vec![] },
    };
    assert_eq!(
        r.to_text(),
        r#"{"req":"r1","confirmedBalance":5000,"unconfirmedBalance":0,"confirmations":0,"amount":5000,"confirmed_balance":5000,"unconfirmed_balance":0,"transactions":[]}"#
    );
}

#[test]
fn lookup_payload_with_transactions() {
    let r = Response {
        req: "q".to_string(),
        body: ResponseBody::Lookup {
            confirmed_balance: 7,
            unconfirmed_balance: -2,
            transactions: vec![tx("t1", 1700000000, 7, 1), tx("t2", 0, -2, 0)],
        },
    };
    assert_eq!(
        r.to_text(),
        [
            r#"{"req":"q","confirmedBalance":7,"unconfirmedBalance":-2,"confirmations":2,"amount":5,"#,
            r#""confirmed_balance":7,"unconfirmed_balance":-2,"transactions":["#,
            r#"{"txid":"t1","timestamp":1700000000,"amount":7,"confirmations":1},"#,
            r#"{"txid":"t2","timestamp":0,"amount":-2,"confirmations":0}]}"#,
        ]
        .join("")
    );
}

#[test]
fn payload_amount_is_held_to_the_i64_range() {
    let over = Response {
        req: "q".to_string(),
        body: ResponseBody::Lookup { confirmed_balance: i64::MAX, unconfirmed_balance: 1, transactions: vec![] },
    };
    assert_eq!(i64_member(&over.to_json(), "amount"), Some(i64::MAX));
    let under = Response {
        req: "q".to_string(),
        body: ResponseBody::Lookup { confirmed_balance: i64::MIN, unconfirmed_balance: -1, transactions: vec![] },
    };
    assert_eq!(i64_member(&under.to_json(), "amount"), Some(i64::MIN));
}

#[test]
fn broadcast_payloads() {
    let ok = Response { req: "b1".to_string(), body: ResponseBody::BroadcastAccepted { txid: "cafe".to_string() } };
    assert_eq!(ok.to_text(), r#"{"req":"b1","success":true,"txid":"cafe"}"#);
    assert!(!ok.is_error());
    let no = Response { req: "b2".to_string(), body: ResponseBody::BroadcastRejected { error: "Timeout".to_string() } };
    assert_eq!(no.to_text(), r#"{"req":"b2","success":false,"error":"Timeout"}"#);
    assert!(no.is_error());
}

#[test]
fn fees_and_utxos_payloads() {
    let fees = Response { req: "f".to_string(), body: ResponseBody::Fees { fast: 10, medium: 5, slow: 1 } };
    assert_eq!(fees.to_text(), r#"{"req":"f","fast":10,"medium":5,"slow":1}"#);
    let utxos = Response {
        req: "u".to_string(),
        body: ResponseBody::Utxos { utxos: vec![utxo("aa", 1, 1000, "bc1qa", 1)] },
    };
    assert_eq!(
        utxos.to_text(),
        r#"{"req":"u","utxos":[{"txid":"aa","vout":1,"value":1000,"address":"bc1qa","confirmations":1}]}"#
    );
    let failed = Response { req: "l".to_string(), body: ResponseBody::LookupFailed { error: "Invalid query".to_string() } };
    assert_eq!(failed.to_text(), r#"{"req":"l","error":"Invalid query"}"#);
    assert!(failed.is_error());
}

#[test]
fn reads_both_shapes_of_a_transaction_entry() {
    let short = Response::from_text(
        r#"{"req":"r","confirmed_balance":1,"unconfirmed_balance":2,"transactions":[{"txid":"aa"},{"txid":"bb","timestamp":9,"amount":-1,"confirmations":3}]}"#,
    );
    assert_eq!(
        short,
        Some(Response {
            req: "r".to_string(),
            body: ResponseBody::Lookup {
                confirmed_balance: 1,
                unconfirmed_balance: 2,
                transactions: vec![tx("aa", 0, 0, 0), tx("bb", 9, -1, 3)],
            },
        })
    );
}

#[test]
fn refuses_payloads_that_state_no_answer() {
    for text in [
        "not json",
        "[]",
        "{}",
        r#"{"req":"r"}"#,
        r#"{"success":true,"txid":"aa"}"#,
        r#"{"req":1,"success":true,"txid":"aa"}"#,
        r#"{"req":"r","success":true}"#,
        r#"{"req":"r","success":false,"txid":"aa"}"#,
        r#"{"req":"r","success":"yes","txid":"aa"}"#,
        r#"{"req":"r","fast":1,"medium":2}"#,
        r#"{"req":"r","fast":-1,"medium":2,"slow":3}"#,
        r#"{"req":"r","fast":1.5,"medium":2,"slow":3}"#,
        r#"{"req":"r","utxos":{}}"#,
        r#"{"req":"r","utxos":[{"txid":"aa","vout":0,"value":1,"address":"a"}]}"#,
        r#"{"req":"r","utxos":[{"txid":"aa","vout":4294967296,"value":1,"address":"a","confirmations":0}]}"#,
        r#"{"req":"r","transactions":[]}"#,
        r#"{"req":"r","confirmed_balance":1,"unconfirmed_balance":2,"transactions":[{"timestamp":1}]}"#,
        r#"{"req":"r","confirmed_balance":1,"unconfirmed_balance":2,"transactions":[{"txid":"a","amount":"x"}]}"#,
        r#"{"req":"r","confirmed_balance":9223372036854775808,"unconfirmed_balance":2,"transactions":[]}"#,
        r#"{"req":"r","error":5}"#,
    ] {
        assert_eq!(Response::from_text(text), None, "{}", text);
    }
}

#[test]
fn member_readers() {
    let j = Json::Object(vec![
        Member { name: "s".to_string(), value: Json::Str("v".to_string()) },
        Member { name: "n".to_string(), value: Json::Int(-7) },
        Member { name: "u".to_string(), value: Json::Uint(4294967296) },
        Member { name: "small".to_string(), value: Json::Int(4294967295) },
    ]);
    assert_eq!(text_member(&j, "s"), Some("v".to_string()));
    assert_eq!(text_member(&j, "n"), None);
    assert_eq!(text_member(&j, "none"), None);
    assert_eq!(i64_member(&j, "n"), Some(-7));
    assert_eq!(i64_member(&j, "s"), None);
    assert_eq!(u64_member(&j, "n"), None);
    assert_eq!(u64_member(&j, "u"), Some(4294967296));
    assert_eq!(u32_member(&j, "u"), None);
    assert_eq!(u32_member(&j, "small"), Some(u32::MAX));
}
