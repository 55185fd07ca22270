use nomad_server::electrs::{
    decode_amount, decode_balance, decode_listing, decode_utxos, failure_of, select_fee_rates,
    AddressTransaction, ElectrsClient, FeeEstimate, HttpOutcome, IndexerCall, IndexerError,
    ListedTransaction, FAST_TARGET, MEDIUM_TARGET, SLOW_TARGET,
};
use nomad_server::json::Json;
use nomad_server::protocol::UtxoInfo;

fn client() -> ElectrsClient {
    ElectrsClient::new(None)
}

fn ok(body: &str) -> HttpOutcome {
    HttpOutcome::Reply { status: 200, body: body.to_string() }
}

fn status(status: u16, body: &str) -> HttpOutcome {
    HttpOutcome::Reply { status, body: body.to_string() }
}

const ADDR: &str = "bc1qw508d6qejxtdg4y5r3zarvary0c5xw7kv8f3t4";

#[test]
fn base_url_is_the_override_or_the_usual_place() {
    assert_eq!(ElectrsClient::new(None).base_url, "http://electrs:3002");
    assert_eq!(ElectrsClient::new(Some("http://localhost:3002".to_string())).base_url, "http://localhost:3002");
}

#[test]
fn urls_of_the_calls() {
    let c = client();
    assert_eq!(c.balance_url(ADDR), format!("http://electrs:3002/address/{}/balance", ADDR));
    assert_eq!(c.transactions_url(ADDR), format!("http://electrs:3002/address/{}/txs", ADDR));
    assert_eq!(c.utxos_url(ADDR), format!("http://electrs:3002/address/{}/utxo", ADDR));
    assert_eq!(c.transaction_url("abcd"), "http://electrs:3002/tx/abcd");
    assert_eq!(c.broadcast_url(), "http://electrs:3002/tx");
    assert_eq!(c.fees_url(), "http://electrs:3002/fee-estimates");
    assert_eq!(c.url_for(&IndexerCall::Balance { address: "a".to_string() }), "http://electrs:3002/address/a/balance");
    assert_eq!(c.url_for(&IndexerCall::Transactions { address: "a".to_string() }), "http://electrs:3002/address/a/txs");
    assert_eq!(c.url_for(&IndexerCall::Utxos { address: "a".to_string() }), "http://electrs:3002/address/a/utxo");
    assert_eq!(c.url_for(&IndexerCall::TransactionDetail { txid: "t".to_string() }), "http://electrs:3002/tx/t");
    assert_eq!(c.url_for(&IndexerCall::Broadcast { tx_hex: "00".to_string() }), "http://electrs:3002/tx");
    assert_eq!(c.url_for(&IndexerCall::Fees), "http://electrs:3002/fee-estimates");
}

#[test]
fn timeouts_of_the_calls() {
    assert_eq!(IndexerCall::Balance { address: "a".to_string() }.timeout_secs(), 30);
    assert_eq!(IndexerCall::Transactions { address: "a".to_string() }.timeout_secs(), 20);
    assert_eq!(IndexerCall::TransactionDetail { txid: "t".to_string() }.timeout_secs(), 30);
    assert_eq!(IndexerCall::Broadcast { tx_hex: "00".to_string() }.timeout_secs(), 30);
    assert_eq!(IndexerCall::Fees.timeout_secs(), 30);
    assert_eq!(IndexerCall::Utxos { address: "a".to_string() }.timeout_secs(), 45);
}

#[test]
fn error_messages() {
    assert_eq!(IndexerError::Unreachable.message(), "Failed to connect to Electrs");
    assert_eq!(IndexerError::Timeout.message(), "Timeout");
    assert_eq!(IndexerError::Malformed.message(), "Failed to parse Electrs response");
    assert_eq!(
        IndexerError::Status { status: 404, body: "Not Found".to_string() }.message(),
        "Electrs returned error 404: Not Found"
    );
    assert_eq!(IndexerError::BroadcastRejected { reason: "bad-txns".to_string() }.message(), "bad-txns");
}

#[test]
fn transport_failures() {
    assert_eq!(failure_of(&HttpOutcome::Unreachable), Some(IndexerError::Unreachable));
    assert_eq!(failure_of(&HttpOutcome::TimedOut), Some(IndexerError::Timeout));
    assert_eq!(failure_of(&ok("x")), None);
    assert_eq!(failure_of(&status(299, "x")), None);
    assert_eq!(failure_of(&status(199, "x")), Some(IndexerError::Status { status: 199, body: "x".to_string() }));
    assert_eq!(failure_of(&status(300, "x")), Some(IndexerError::Status { status: 300, body: "x".to_string() }));
    assert_eq!(failure_of(&status(500, "boom")), Some(IndexerError::Status { status: 500, body: "boom".to_string() }));
}

#[test]
fn balance_of_a_reply() {
    let c = client();
    assert_eq!(c.get_address_balance(&ok(r#"{"confirmed":5000,"unconfirmed":0}"#)), Ok((5000, 0)));
    assert_eq!(c.get_address_balance(&ok(r#"{"unconfirmed":-30,"confirmed":12,"more":true}"#)), Ok((12, -30)));
    assert_eq!(c.get_address_balance(&ok(r#"{"confirmed":5000}"#)), Err(IndexerError::Malformed));
    assert_eq!(c.get_address_balance(&ok(r#"{"confirmed":"5000","unconfirmed":0}"#)), Err(IndexerError::Malformed));
    assert_eq!(c.get_address_balance(&ok(r#"{"confirmed":1.5,"unconfirmed":0}"#)), Err(IndexerError::Malformed));
    assert_eq!(
        c.get_address_balance(&ok(r#"{"confirmed":9223372036854775808,"unconfirmed":0}"#)),
        Err(IndexerError::Malformed)
    );
    assert_eq!(c.get_address_balance(&ok("<html>")), Err(IndexerError::Malformed));
    assert_eq!(
        c.get_address_balance(&status(503, "busy")),
        Err(IndexerError::Status { status: 503, body: "busy".to_string() })
    );
    assert_eq!(c.get_address_balance(&HttpOutcome::Unreachable), Err(IndexerError::Unreachable));
    assert_eq!(c.get_address_balance(&HttpOutcome::TimedOut), Err(IndexerError::Timeout));
    assert_eq!(decode_balance(&Json::parse(r#"{"confirmed":1,"unconfirmed":2}"#).unwrap()), Some((1, 2)));
    assert_eq!(decode_balance(&Json::parse("[1,2]").unwrap()), None);
}

#[test]
fn broadcast_of_a_reply() {
    let c = client();
    assert_eq!(c.broadcast_transaction(&ok("f00d")), Ok("f00d".to_string()));
    assert_eq!(
        c.broadcast_transaction(&status(400, "sendrawtransaction RPC error")),
        Err(IndexerError::BroadcastRejected { reason: "sendrawtransaction RPC error".to_string() })
    );
    assert_eq!(c.broadcast_transaction(&HttpOutcome::TimedOut), Err(IndexerError::Timeout));
    assert_eq!(c.broadcast_transaction(&HttpOutcome::Unreachable), Err(IndexerError::Unreachable));
}

const LISTING: &str = r#"[
 {"txid":"aa","status":{"confirmed":true,"block_height":800000,"block_hash":"00ff","block_time":1700000000},"fee":141},
 {"txid":"bb","status":{"confirmed":false}},
 {"txid":"cc","status":{"confirmed":true,"block_height":null,"block_hash":null,"block_time":null},"fee":null}
]"#;

#[test]
fn listing_of_a_reply() {
    let listed = decode_listing(&Json::parse(LISTING).unwrap());
    assert_eq!(
        listed,
        Some(vec![
            ListedTransaction { txid: "aa".to_string(), confirmed: true, block_time: Some(1700000000) },
            ListedTransaction { txid: "bb".to_string(), confirmed: false, block_time: None },
            ListedTransaction { txid: "cc".to_string(), confirmed: true, block_time: None },
        ])
    );
    assert_eq!(decode_listing(&Json::parse("[]").unwrap()), Some(vec![]));
    for bad in [
        r#"{}"#,
        r#"[{"status":{"confirmed":true}}]"#,
        r#"[{"txid":"aa"}]"#,
        r#"[{"txid":"aa","status":{}}]"#,
        r#"[{"txid":"aa","status":{"confirmed":1}}]"#,
        r#"[{"txid":"aa","status":{"confirmed":true,"block_time":"now"}}]"#,
        r#"[{"txid":"aa","status":{"confirmed":true,"block_height":-1}}]"#,
        r#"[{"txid":"aa","status":{"confirmed":true,"block_height":4294967296}}]"#,
        r#"[{"txid":"aa","status":{"confirmed":true,"block_hash":7}}]"#,
        r#"[{"txid":"aa","status":{"confirmed":true},"fee":"1"}]"#,
        r#"[{"txid":"aa","status":{"confirmed":true}}, 5]"#,
    ] {
        assert_eq!(decode_listing(&Json::parse(bad).unwrap()), None, "{}", bad);
    }
}

const DETAIL: &str = r#"{"txid":"aa","vin":[{"prevout":{"scriptpubkey_address":"bc1qw508d6qejxtdg4y5r3zarvary0c5xw7kv8f3t4","value":99}}],
 "vout":[{"scriptpubkey_address":"bc1qw508d6qejxtdg4y5r3zarvary0c5xw7kv8f3t4","value":1500},
         {"scriptpubkey_address":"1BvBMSEYstWetqTFn5Au4m4GFg7xJaNVN2","value":700},
         {"scriptpubkey":"6a","value":0},
         {"scriptpubkey_address":"bc1qw508d6qejxtdg4y5r3zarvary0c5xw7kv8f3t4","value":25},
         {"scriptpubkey_address":"bc1qw508d6qejxtdg4y5r3zarvary0c5xw7kv8f3t4","value":"9"},
         {"scriptpubkey_address":"bc1qw508d6qejxtdg4y5r3zarvary0c5xw7kv8f3t4"}]}"#;

#[test]
fn amount_sums_the_outputs_to_the_address() {
    let doc = Json::parse(DETAIL).unwrap();
    assert_eq!(decode_amount(&doc, ADDR), 1525);
    assert_eq!(decode_amount(&doc, "1BvBMSEYstWetqTFn5Au4m4GFg7xJaNVN2"), 700);
    assert_eq!(decode_amount(&doc, "3J98t1WpEZ73CNmQviecrnyiWrnqRhWNLy"), 0);
    assert_eq!(decode_amount(&Json::parse(r#"{"vout":{}}"#).unwrap(), ADDR), 0);
    assert_eq!(decode_amount(&Json::parse(r#"{}"#).unwrap(), ADDR), 0);
    assert_eq!(decode_amount(&Json::parse(r#"[]"#).unwrap(), ADDR), 0);
}

#[test]
fn transaction_amount_is_held_to_the_i64_range() {
    let big = format!(
        r#"{{"vout":[{{"scriptpubkey_address":"a","value":{m}}},{{"scriptpubkey_address":"a","value":{m}}}]}}"#,
        m = i64::MAX
    );
    assert_eq!(decode_amount(&Json::parse(&big).unwrap(), "a"), i64::MAX);
    let mixed = format!(
        r#"{{"vout":[{{"scriptpubkey_address":"a","value":{m}}},{{"scriptpubkey_address":"a","value":{m}}},{{"scriptpubkey_address":"a","value":{n}}}]}}"#,
        m = i64::MAX,
        n = i64::MIN
    );
    assert_eq!(decode_amount(&Json::parse(&mixed).unwrap(), "a"), i64::MAX - 1);
    let low = format!(
        r#"{{"vout":[{{"scriptpubkey_address":"a","value":{n}}},{{"scriptpubkey_address":"a","value":-1}}]}}"#,
        n = i64::MIN
    );
    assert_eq!(decode_amount(&Json::parse(&low).unwrap(), "a"), i64::MIN);
}

#[test]
fn amount_of_a_detail_request() {
    let c = client();
    assert_eq!(c.get_transaction_amount(&ok(DETAIL), ADDR), Ok(1525));
    assert_eq!(c.get_transaction_amount(&status(404, "Transaction not found"), ADDR), Ok(0));
    assert_eq!(c.get_transaction_amount(&ok("oops"), ADDR), Err(IndexerError::Malformed));
    assert_eq!(c.get_transaction_amount(&HttpOutcome::Unreachable, ADDR), Err(IndexerError::Unreachable));
    assert_eq!(c.get_transaction_amount(&HttpOutcome::TimedOut, ADDR), Err(IndexerError::Timeout));
}

#[test]
fn transactions_of_an_address() {
    let c = client();
    let details = vec![ok(DETAIL), HttpOutcome::TimedOut];
    let got = c.get_address_transactions(ADDR, &ok(LISTING), &details);
    assert_eq!(
        got,
        Ok(vec![
            AddressTransaction { txid: "aa".to_string(), timestamp: 1700000000, amount: 1525, confirmations: 1 },
            AddressTransaction { txid: "bb".to_string(), timestamp: 0, amount: 0, confirmations: 0 },
            AddressTransaction { txid: "cc".to_string(), timestamp: 0, amount: 0, confirmations: 1 },
        ])
    );
    assert_eq!(c.get_address_transactions(ADDR, &ok("[]"), &vec![]), Ok(vec![]));
    assert_eq!(c.get_address_transactions(ADDR, &ok("{}"), &vec![]), Err(IndexerError::Malformed));
    assert_eq!(c.get_address_transactions(ADDR, &ok("nope"), &vec![]), Err(IndexerError::Malformed));
    assert_eq!(
        c.get_address_transactions(ADDR, &status(500, "x"), &details),
        Err(IndexerError::Status { status: 500, body: "x".to_string() })
    );
    assert_eq!(c.get_address_transactions(ADDR, &HttpOutcome::Unreachable, &details), Err(IndexerError::Unreachable));
    let record = AddressTransaction { txid: "aa".to_string(), timestamp: 5, amount: -6, confirmations: 7 };
    assert_eq!(record.copy(), record);
    let info = record.to_info();
    assert_eq!((info.txid.as_str(), info.timestamp, info.amount, info.confirmations), ("aa", 5, -6, 7));
}

const UTXOS_A: &str = r#"[{"txid":"aa","vout":0,"value":1000,"status":{"confirmed":true,"block_height":1}},
 {"txid":"bb","vout":3,"value":546,"status":{"confirmed":false}}]"#;

#[test]
fn utxos_of_a_reply() {
    assert_eq!(
        decode_utxos(&Json::parse(UTXOS_A).unwrap(), "addr-a"),
        Some(vec![
            UtxoInfo { txid: "aa".to_string(), vout: 0, value: 1000, address: "addr-a".to_string(), confirmations: 1 },
            UtxoInfo { txid: "bb".to_string(), vout: 3, value: 546, address: "addr-a".to_string(), confirmations: 0 },
        ])
    );
    for bad in [
        r#"{}"#,
        r#"[{"vout":0,"value":1,"status":{"confirmed":true}}]"#,
        r#"[{"txid":"aa","value":1,"status":{"confirmed":true}}]"#,
        r#"[{"txid":"aa","vout":0,"status":{"confirmed":true}}]"#,
        r#"[{"txid":"aa","vout":0,"value":1}]"#,
        r#"[{"txid":"aa","vout":0,"value":-1,"status":{"confirmed":true}}]"#,
        r#"[{"txid":"aa","vout":4294967296,"value":1,"status":{"confirmed":true}}]"#,
    ] {
        assert_eq!(decode_utxos(&Json::parse(bad).unwrap(), "a"), None, "{}", bad);
    }
}

#[test]
fn utxos_of_two_addresses_one_of_which_fails() {
    let c = client();
    let addresses = vec!["addr-a".to_string(), "addr-b".to_string()];
    let expected = vec![
        UtxoInfo { txid: "aa".to_string(), vout: 0, value: 1000, address: "addr-a".to_string(), confirmations: 1 },
        UtxoInfo { txid: "bb".to_string(), vout: 3, value: 546, address: "addr-a".to_string(), confirmations: 0 },
    ];
    for failure in [status(500, "boom"), HttpOutcome::Unreachable, HttpOutcome::TimedOut, ok("not json"), ok("{}")] {
        assert_eq!(c.get_utxos(&addresses, &vec![ok(UTXOS_A), failure.clone()]), expected);
    }
    let more = c.get_utxos(
        &addresses,
        &vec![ok(UTXOS_A), ok(r#"[{"txid":"cc","vout":1,"value":5,"status":{"confirmed":true}}]"#)],
    );
    assert_eq!(more.len(), 3);
    assert_eq!(more[2], UtxoInfo { txid: "cc".to_string(), vout: 1, value: 5, address: "addr-b".to_string(), confirmations: 1 });
    // an address without an outcome adds nothing
    assert_eq!(c.get_utxos(&addresses, &vec![ok(UTXOS_A)]), expected);
    assert_eq!(c.get_utxos(&addresses, &vec![]), vec![]);
    assert_eq!(c.get_utxos(&vec![], &vec![ok(UTXOS_A)]), vec![]);
}

#[test]
fn txids_of_a_listing_keep_its_order() {
    let c = client();
    assert_eq!(c.get_address_txs(&ok(LISTING)), Ok(vec!["aa".to_string(), "bb".to_string(), "cc".to_string()]));
    assert_eq!(c.get_address_txs(&ok("[]")), Ok(vec![]));
    assert_eq!(c.get_address_txs(&ok("{}")), Err(IndexerError::Malformed));
    assert_eq!(c.get_address_txs(&HttpOutcome::TimedOut), Err(IndexerError::Timeout));
    assert_eq!(c.get_address_txs(&status(404, "no")), Err(IndexerError::Status { status: 404, body: "no".to_string() }));
}

fn estimate(target: u32, rate: u64) -> FeeEstimate {
    FeeEstimate { target, rate }
}

#[test]
fn fee_rates_are_those_of_the_three_targets() {
    assert_eq!((FAST_TARGET, MEDIUM_TARGET, SLOW_TARGET), (1, 6, 144));
    let listed = vec![estimate(2, 80), estimate(144, 2), estimate(1, 88), estimate(6, 12), estimate(1008, 1)];
    assert_eq!(select_fee_rates(&listed), Some((88, 12, 2)));
    // the first estimate of a target counts
    let twice = vec![estimate(1, 5), estimate(1, 50), estimate(6, 4), estimate(144, 3)];
    assert_eq!(select_fee_rates(&twice), Some((5, 4, 3)));
}

#[test]
fn a_fee_rate_is_at_least_one() {
    let low = vec![estimate(1, 0), estimate(6, 0), estimate(144, 0)];
    assert_eq!(select_fee_rates(&low), Some((1, 1, 1)));
    let mixed = vec![estimate(1, u64::MAX), estimate(6, 1), estimate(144, 0)];
    assert_eq!(select_fee_rates(&mixed), Some((u64::MAX, 1, 1)));
}

#[test]
fn fee_rates_need_all_three_targets() {
    assert_eq!(select_fee_rates(&vec![]), None);
    assert_eq!(select_fee_rates(&vec![estimate(1, 5), estimate(6, 4)]), None);
    assert_eq!(select_fee_rates(&vec![estimate(1, 5), estimate(144, 4)]), None);
    assert_eq!(select_fee_rates(&vec![estimate(6, 5), estimate(144, 4), estimate(2, 9)]), None);
}

#[test]
fn fees_of_a_reply() {
    let c = client();
    let listed = vec![estimate(1, 30), estimate(6, 20), estimate(144, 10)];
    assert_eq!(c.estimate_fees(&ok("{}"), &listed), Ok((30, 20, 10)));
    assert_eq!(c.estimate_fees(&ok("{}"), &vec![]), Err(IndexerError::Malformed));
    assert_eq!(c.estimate_fees(&HttpOutcome::TimedOut, &listed), Err(IndexerError::Timeout));
    assert_eq!(c.estimate_fees(&HttpOutcome::Unreachable, &listed), Err(IndexerError::Unreachable));
    assert_eq!(
        c.estimate_fees(&status(503, "busy"), &listed),
        Err(IndexerError::Status { status: 503, body: "busy".to_string() })
    );
}
