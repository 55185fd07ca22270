use nomad_server::electrs::{
    AddressTransaction, ElectrsClient, FeeEstimate, HttpOutcome, IndexerCall, IndexerError,
};
use nomad_server::json::Json;
use nomad_server::lookup::AddressOutcome;
use nomad_server::nostr_handler::{
    broadcast_reply, extract_req_id, fees_reply, first_tag_value, lookup_calls, lookup_reply,
    planned_calls, response_event, utxos_reply, InboundEvent, InboundRequest, NostrHandler,
    OutboundEvent, Routed, NOMAD_SERVER_REQUEST_KIND, NOMAD_SERVER_RESPONSE_KIND,
};
use nomad_server::protocol::{MalformedRequest, Request, TransactionInfo, UtxoInfo};
use nomad_server::reply::{Response, ResponseBody};

const SERVER: &str = "79be667ef9dcbbac55a06295ce870b07029bfcdb2dce28d959f2815b16f81798";
const OTHER: &str = "c6047f9441ed7d6d3045406e95c07cd85c778e4b8cef3ca7abac09b95c709ee5";
const WALLET: &str = "f9308a019258c31049344f85f89d5229b531c845836f99b08601f113bce036f9";
const ADDR: &str = "bc1qw508d6qejxtdg4y5r3zarvary0c5xw7kv8f3t4";
const ZPUB: &str = "zpub6rFR7y4Q2AijBEqTUquhVz398htDFrtymD9xYYfG1m4wAcvPhXNfE3EfH1r1ADqtfSdVCToUG868RvUUkgDKf31mGDtKsAYz2oz2AGutZYs";

fn handler() -> NostrHandler {
    NostrHandler::new(SERVER.to_string(), ElectrsClient::new(None))
}

fn tag(entries: &[&str]) -> Vec<String> {
    entries.iter().map(|e| e.to_string()).collect()
}

fn event(kind: u16, tags: Vec<Vec<String>>, content: &str) -> InboundEvent {
    InboundEvent { kind, pubkey: WALLET.to_string(), tags, content: content.to_string() }
}

fn request(content: &str) -> InboundEvent {
    event(NOMAD_SERVER_REQUEST_KIND, vec![tag(&["p", SERVER]), tag(&["req", "r1"])], content)
}

fn tags_of(e: &OutboundEvent) -> Vec<Vec<&str>> {
    e.tags.iter().map(|t| t.iter().map(|s| s.as_str()).collect()).collect()
}

#[test]
fn the_event_kinds() {
    assert_eq!(NOMAD_SERVER_REQUEST_KIND, 30078);
    assert_eq!(NOMAD_SERVER_RESPONSE_KIND, 30079);
}

#[test]
fn the_handler_keeps_its_identity_and_client() {
    let h = NostrHandler::new(SERVER.to_string(), ElectrsClient::new(Some("http://x".to_string())));
    assert_eq!(h.server_pubkey, SERVER);
    assert_eq!(h.electrs_client.base_url, "http://x");
}

#[test]
fn req_id_is_the_value_of_the_first_req_tag() {
    let e = event(
        30078,
        vec![tag(&["req"]), tag(&["e", "x"]), tag(&["req", "first", "more"]), tag(&["req", "second"])],
        "",
    );
    assert_eq!(extract_req_id(&e), Some("first".to_string()));
    assert_eq!(extract_req_id(&event(30078, vec![tag(&["p", SERVER]), tag(&["req"]), tag(&[])], "")), None);
    assert_eq!(extract_req_id(&event(30078, vec![], "")), None);
    assert_eq!(extract_req_id(&event(30078, vec![tag(&["REQ", "x"])], "")), None);
    assert_eq!(first_tag_value(&vec![tag(&["p", "a"]), tag(&["p", "b"])], "p"), Some("a".to_string()));
    assert_eq!(first_tag_value(&vec![tag(&["p", ""])], "p"), Some(String::new()));
}

#[test]
fn an_event_of_another_kind_is_ignored() {
    let h = handler();
    let e = event(1, vec![tag(&["p", SERVER]), tag(&["req", "r1"])], r#"{"type":"get_fees"}"#);
    assert_eq!(h.dispatch(&e), Routed::Ignored);
    let answer = event(NOMAD_SERVER_RESPONSE_KIND, vec![tag(&["p", SERVER]), tag(&["req", "r1"])], r#"{"type":"get_fees"}"#);
    assert_eq!(h.dispatch(&answer), Routed::Ignored);
}

#[test]
fn an_event_without_correlation_tag_is_never_answered() {
    let h = handler();
    for content in [r#"{"type":"get_fees"}"#, r#"{"type":"bitcoin_lookup","query":"x"}"#, "garbage", ""] {
        for tags in [vec![tag(&["p", SERVER])], vec![], vec![tag(&["p", SERVER]), tag(&["req"])], vec![tag(&["p", SERVER]), tag(&["e", "r1"])]] {
            let e = event(NOMAD_SERVER_REQUEST_KIND, tags, content);
            assert_eq!(h.dispatch(&e), Routed::Discarded(MalformedRequest::MissingCorrelation));
            assert_eq!(h.turn_away(&e), Some(Routed::Discarded(MalformedRequest::MissingCorrelation)));
        }
    }
}

#[test]
fn an_event_for_another_recipient_is_never_answered() {
    let h = handler();
    for content in [r#"{"type":"get_fees"}"#, r#"{"type":"broadcast_tx","txHex":"00"}"#, "garbage"] {
        let other = event(NOMAD_SERVER_REQUEST_KIND, vec![tag(&["p", OTHER]), tag(&["req", "r1"])], content);
        assert_eq!(h.dispatch(&other), Routed::Discarded(MalformedRequest::WrongRecipient));
        let first_counts = event(
            NOMAD_SERVER_REQUEST_KIND,
            vec![tag(&["p", OTHER]), tag(&["p", SERVER]), tag(&["req", "r1"])],
            content,
        );
        assert_eq!(h.dispatch(&first_counts), Routed::Discarded(MalformedRequest::WrongRecipient));
        let upper = event(
            NOMAD_SERVER_REQUEST_KIND,
            vec![tag(&["p", &SERVER.to_uppercase()]), tag(&["req", "r1"])],
            content,
        );
        assert_eq!(h.dispatch(&upper), Routed::Discarded(MalformedRequest::WrongRecipient));
        let none = event(NOMAD_SERVER_REQUEST_KIND, vec![tag(&["req", "r1"])], content);
        assert_eq!(h.dispatch(&none), Routed::Discarded(MalformedRequest::MissingRecipient));
    }
}

#[test]
fn a_body_that_is_not_json_is_discarded() {
    let h = handler();
    assert_eq!(h.dispatch(&request("not json")), Routed::Discarded(MalformedRequest::UnparsableBody));
    assert_eq!(h.dispatch(&request("")), Routed::Discarded(MalformedRequest::UnparsableBody));
    assert_eq!(h.route(&request("whatever"), None), Routed::Discarded(MalformedRequest::UnparsableBody));
}

#[test]
fn an_unknown_type_or_a_bad_payload_is_discarded() {
    let h = handler();
    assert_eq!(h.dispatch(&request(r#"{"type":"ping"}"#)), Routed::Discarded(MalformedRequest::UnknownType));
    assert_eq!(h.dispatch(&request(r#"{}"#)), Routed::Discarded(MalformedRequest::UnknownType));
    assert_eq!(h.dispatch(&request(r#"[1]"#)), Routed::Discarded(MalformedRequest::UnknownType));
    assert_eq!(
        h.dispatch(&request(r#"{"type":"bitcoin_lookup"}"#)),
        Routed::Discarded(MalformedRequest::InvalidPayload)
    );
}

#[test]
fn a_request_is_accepted_with_its_correlation_id_and_author() {
    let h = handler();
    let accepted = |request: Request| {
        Routed::Accepted(InboundRequest {
            correlation_id: "r1".to_string(),
            requester_identity: WALLET.to_string(),
            request,
        })
    };
    assert_eq!(
        h.dispatch(&request(&format!(r#"{{"type":"bitcoin_lookup","query":"{}"}}"#, ADDR))),
        accepted(Request::Lookup { query: ADDR.to_string() })
    );
    assert_eq!(
        h.dispatch(&request(r#"{"type":"broadcast_tx","txHex":"0100"}"#)),
        accepted(Request::Broadcast { tx_hex: "0100".to_string() })
    );
    assert_eq!(h.dispatch(&request(r#"{"type":"get_fees"}"#)), accepted(Request::Fees));
    assert_eq!(
        h.dispatch(&request(r#"{"type":"get_utxos","addresses":["a"]}"#)),
        accepted(Request::Utxos { addresses: vec!["a".to_string()] })
    );
    // route with a body parsed elsewhere gives the same
    let body = Json::parse(r#"{"type":"get_fees"}"#).unwrap();
    assert_eq!(h.route(&request("ignored when a body is handed in"), Some(&body)), accepted(Request::Fees));
    assert_eq!(h.turn_away(&request("anything")), None);
}

#[test]
fn a_single_address_is_asked_once_for_balance_and_once_for_transactions() {
    let calls = planned_calls(&Request::Lookup { query: ADDR.to_string() }, 20);
    assert_eq!(
        calls,
        vec![
            IndexerCall::Balance { address: ADDR.to_string() },
            IndexerCall::Transactions { address: ADDR.to_string() },
        ]
    );
}

#[test]
fn an_extended_key_is_asked_twice_for_each_derived_address() {
    let calls = planned_calls(&Request::Lookup { query: ZPUB.to_string() }, 20);
    assert_eq!(calls.len(), 40);
    assert_eq!(calls[0], IndexerCall::Balance { address: "bc1qcr8te4kr609gcawutmrza0j4xv80jy8z306fyu".to_string() });
    assert_eq!(calls[1], IndexerCall::Transactions { address: "bc1qcr8te4kr609gcawutmrza0j4xv80jy8z306fyu".to_string() });
    assert_eq!(calls[2], IndexerCall::Balance { address: "bc1qnjg0jd8228aq7egyzacy8cys3knf9xvrerkf9g".to_string() });
    assert_eq!(planned_calls(&Request::Lookup { query: ZPUB.to_string() }, 3).len(), 6);
    assert_eq!(planned_calls(&Request::Lookup { query: ZPUB.to_string() }, 0), vec![]);
}

#[test]
fn calls_of_the_other_requests() {
    assert_eq!(planned_calls(&Request::Lookup { query: "nothing".to_string() }, 20), vec![]);
    assert_eq!(planned_calls(&Request::Lookup { query: "xpubbroken".to_string() }, 20), vec![]);
    assert_eq!(
        planned_calls(&Request::Broadcast { tx_hex: "0100".to_string() }, 20),
        vec![IndexerCall::Broadcast { tx_hex: "0100".to_string() }]
    );
    assert_eq!(planned_calls(&Request::Fees, 20), vec![IndexerCall::Fees]);
    assert_eq!(
        planned_calls(&Request::Utxos { addresses: vec!["a".to_string(), "b".to_string()] }, 20),
        vec![IndexerCall::Utxos { address: "a".to_string() }, IndexerCall::Utxos { address: "b".to_string() }]
    );
    assert_eq!(planned_calls(&Request::Utxos { addresses: vec![] }, 20), vec![]);
    assert_eq!(lookup_calls(&vec![]), vec![]);
}

#[test]
fn lookup_of_a_native_segwit_address() {
    let h = handler();
    let outcomes = vec![AddressOutcome { balance: Ok((5000, 0)), transactions: Ok(vec![]) }];
    let e = h.lookup_and_publish(WALLET, "r1", ADDR, 20, &outcomes);
    assert_eq!(e.kind, 30079);
    assert_eq!(tags_of(&e), vec![vec!["p", WALLET], vec!["req", "r1"]]);
    assert_eq!(
        e.content,
        r#"{"req":"r1","confirmedBalance":5000,"unconfirmedBalance":0,"confirmations":0,"amount":5000,"confirmed_balance":5000,"unconfirmed_balance":0,"transactions":[]}"#
    );
    assert_eq!(
        Response::from_text(&e.content),
        Some(Response {
            req: "r1".to_string(),
            body: ResponseBody::Lookup { confirmed_balance: 5000, unconfirmed_balance: 0, transactions: vec![] },
        })
    );
}

#[test]
fn lookup_of_an_extended_key_with_nothing_on_it() {
    let h = handler();
    let outcomes: Vec<AddressOutcome> =
        (0..20).map(|_| AddressOutcome { balance: Ok((0, 0)), transactions: Ok(vec![]) }).collect();
    let e = h.lookup_and_publish(WALLET, "r2", ZPUB, 20, &outcomes);
    assert_eq!(
        Response::from_text(&e.content),
        Some(Response {
            req: "r2".to_string(),
            body: ResponseBody::Lookup { confirmed_balance: 0, unconfirmed_balance: 0, transactions: vec![] },
        })
    );
}

#[test]
fn lookup_answers_carry_the_merged_transactions() {
    let tx = |id: &str, amount: i64| AddressTransaction { txid: id.to_string(), timestamp: 9, amount, confirmations: 1 };
    let mut outcomes: Vec<AddressOutcome> =
        (0..20).map(|_| AddressOutcome { balance: Ok((1, 2)), transactions: Ok(vec![]) }).collect();
    outcomes[0] = AddressOutcome { balance: Ok((10, 0)), transactions: Ok(vec![tx("bb", 5), tx("aa", 6)]) };
    outcomes[1] = AddressOutcome { balance: Err(IndexerError::Timeout), transactions: Ok(vec![tx("aa", 7), tx("cc", 8)]) };
    let r = lookup_reply("r3", ZPUB, 20, &outcomes);
    let info = |id: &str, amount: i64| TransactionInfo { txid: id.to_string(), timestamp: 9, amount, confirmations: 1 };
    assert_eq!(
        r,
        Response {
            req: "r3".to_string(),
            body: ResponseBody::Lookup {
                confirmed_balance: 10 + 18,
                unconfirmed_balance: 36,
                transactions: vec![info("aa", 6), info("bb", 5), info("cc", 8)],
            },
        }
    );
}

#[test]
fn lookup_of_an_invalid_query_is_answered_with_an_error() {
    let r = lookup_reply("r4", "nonsense", 20, &vec![]);
    assert_eq!(r, Response { req: "r4".to_string(), body: ResponseBody::LookupFailed { error: "Invalid query".to_string() } });
    let d = lookup_reply("r5", "zpubnonsense", 20, &vec![]);
    assert_eq!(
        d,
        Response { req: "r5".to_string(), body: ResponseBody::LookupFailed { error: "Invalid extended public key".to_string() } }
    );
    assert_eq!(handler().lookup_and_publish(WALLET, "r4", "nonsense", 20, &vec![]).content, r#"{"req":"r4","error":"Invalid query"}"#);
}

#[test]
fn a_broadcast_that_times_out_says_timeout() {
    let h = handler();
    let e = h.broadcast_and_publish(WALLET, "b1", &HttpOutcome::TimedOut);
    assert_eq!(e.content, r#"{"req":"b1","success":false,"error":"Timeout"}"#);
    assert_eq!(tags_of(&e), vec![vec!["p", WALLET], vec!["req", "b1"]]);
    assert_eq!(
        broadcast_reply("b1", &Err(IndexerError::Timeout)),
        Response { req: "b1".to_string(), body: ResponseBody::BroadcastRejected { error: "Timeout".to_string() } }
    );
}

#[test]
fn a_broadcast_is_answered_with_the_txid_or_the_reason() {
    let h = handler();
    let ok = h.broadcast_and_publish(WALLET, "b2", &HttpOutcome::Reply { status: 200, body: "feed".to_string() });
    assert_eq!(ok.content, r#"{"req":"b2","success":true,"txid":"feed"}"#);
    let no = h.broadcast_and_publish(WALLET, "b3", &HttpOutcome::Reply { status: 400, body: "bad-txns-inputs-missingorspent".to_string() });
    assert_eq!(no.content, r#"{"req":"b3","success":false,"error":"bad-txns-inputs-missingorspent"}"#);
    let down = h.broadcast_and_publish(WALLET, "b4", &HttpOutcome::Unreachable);
    assert_eq!(down.content, r#"{"req":"b4","success":false,"error":"Failed to connect to Electrs"}"#);
    assert_eq!(
        broadcast_reply("b5", &Ok("aa".to_string())),
        Response { req: "b5".to_string(), body: ResponseBody::BroadcastAccepted { txid: "aa".to_string() } }
    );
}

#[test]
fn a_failing_indexer_gives_the_default_fees() {
    let h = handler();
    for failure in [
        IndexerError::Timeout,
        IndexerError::Unreachable,
        IndexerError::Malformed,
        IndexerError::Status { status: 500, body: "x".to_string() },
    ] {
        let e = h.fees_and_publish(WALLET, "f1", &Err(failure.clone()));
        assert_eq!(e.content, r#"{"req":"f1","fast":10,"medium":5,"slow":1}"#);
        assert!(!fees_reply("f1", &Err(failure)).is_error());
    }
    let e = h.fees_and_publish(WALLET, "f2", &Ok((42, 17, 3)));
    assert_eq!(e.content, r#"{"req":"f2","fast":42,"medium":17,"slow":3}"#);
}

#[test]
fn utxos_of_two_addresses_when_the_second_fails() {
    let h = handler();
    let addresses = vec!["addr-a".to_string(), "addr-b".to_string()];
    let outcomes = vec![
        HttpOutcome::Reply {
            status: 200,
            body: r#"[{"txid":"aa","vout":0,"value":1000,"status":{"confirmed":true}},{"txid":"bb","vout":1,"value":2000,"status":{"confirmed":false}}]"#.to_string(),
        },
        HttpOutcome::Reply { status: 500, body: "boom".to_string() },
    ];
    let e = h.utxos_and_publish(WALLET, "u1", &addresses, &outcomes);
    assert_eq!(
        e.content,
        r#"{"req":"u1","utxos":[{"txid":"aa","vout":0,"value":1000,"address":"addr-a","confirmations":1},{"txid":"bb","vout":1,"value":2000,"address":"addr-a","confirmations":0}]}"#
    );
    let doc = Json::parse(&e.content).unwrap();
    assert_eq!(doc.get("error"), None);
    assert_eq!(doc.get("success"), None);
    assert_eq!(
        utxos_reply("u2", vec![]),
        Response { req: "u2".to_string(), body: ResponseBody::Utxos { utxos: vec![] } }
    );
    let one = UtxoInfo { txid: "t".to_string(), vout: 0, value: 1, address: "a".to_string(), confirmations: 0 };
    assert_eq!(
        utxos_reply("u3", vec![one.clone()]),
        Response { req: "u3".to_string(), body: ResponseBody::Utxos { utxos: vec![one] } }
    );
}

#[test]
fn an_answer_is_bound_to_its_request() {
    let r = Response { req: "corr-77".to_string(), body: ResponseBody::Fees { fast: 1, medium: 1, slow: 1 } };
    let e = response_event(WALLET, &r);
    assert_eq!(e.kind, NOMAD_SERVER_RESPONSE_KIND);
    assert_eq!(tags_of(&e), vec![vec!["p", WALLET], vec!["req", "corr-77"]]);
    assert_eq!(Response::from_text(&e.content), Some(r));
    // an answer is no request: it is ignored when it comes back in, even addressed here
    let back = InboundEvent { kind: e.kind, pubkey: SERVER.to_string(), tags: vec![tag(&["p", SERVER]), tag(&["req", "corr-77"])], content: e.content.clone() };
    assert_eq!(handler().dispatch(&back), Routed::Ignored);
}

#[test]
fn the_same_request_delivered_twice_is_answered_twice_alike() {
    let h = handler();
    let e = request(r#"{"type":"get_fees"}"#);
    assert_eq!(h.dispatch(&e), h.dispatch(&e));
    assert_eq!(h.fees_and_publish(WALLET, "r1", &Ok((3, 2, 1))), h.fees_and_publish(WALLET, "r1", &Ok((3, 2, 1))));
}

fn accepted(content: &str) -> InboundRequest {
    match handler().dispatch(&request(content)) {
        Routed::Accepted(r) => r,
        other => panic!("not accepted: {:?}", other),
    }
}

fn reply_200(body: &str) -> HttpOutcome {
    HttpOutcome::Reply { status: 200, body: body.to_string() }
}

fn no_estimates() -> Vec<FeeEstimate> {
    Vec::new()
}

#[test]
fn a_lookup_from_event_to_answer() {
    let h = handler();
    let r = accepted(&format!(r#"{{"type":"bitcoin_lookup","query":"{}"}}"#, ADDR));
    let calls = planned_calls(&r.request, 20);
    assert_eq!(calls.len(), 2);
    let outcomes = vec![reply_200(r#"{"confirmed":5000,"unconfirmed":0}"#), reply_200("[]")];
    assert_eq!(h.detail_calls(&r.request, &outcomes), vec![]);
    let e = h.answer(&r, 20, &outcomes, &vec![], &no_estimates());
    assert_eq!(e.kind, NOMAD_SERVER_RESPONSE_KIND);
    assert_eq!(tags_of(&e), vec![vec!["p", WALLET], vec!["req", "r1"]]);
    assert_eq!(
        Response::from_text(&e.content),
        Some(Response {
            req: "r1".to_string(),
            body: ResponseBody::Lookup { confirmed_balance: 5000, unconfirmed_balance: 0, transactions: vec![] },
        })
    );
}

#[test]
fn a_single_address_is_enriched_by_its_detail_calls() {
    let h = handler();
    let r = accepted(&format!(r#"{{"type":"bitcoin_lookup","query":"{}"}}"#, ADDR));
    let outcomes = vec![
        reply_200(r#"{"confirmed":7,"unconfirmed":1}"#),
        reply_200(r#"[{"txid":"bb","status":{"confirmed":true,"block_time":50}},{"txid":"aa","status":{"confirmed":false}}]"#),
    ];
    assert_eq!(
        h.detail_calls(&r.request, &outcomes),
        vec![
            IndexerCall::TransactionDetail { txid: "bb".to_string() },
            IndexerCall::TransactionDetail { txid: "aa".to_string() },
        ]
    );
    let details = vec![
        reply_200(&format!(r#"{{"vout":[{{"scriptpubkey_address":"{}","value":900}}]}}"#, ADDR)),
        HttpOutcome::TimedOut,
    ];
    let e = h.answer(&r, 20, &outcomes, &details, &no_estimates());
    let info = |id: &str, timestamp: i64, amount: i64, confirmations: u32| TransactionInfo {
        txid: id.to_string(),
        timestamp,
        amount,
        confirmations,
    };
    assert_eq!(
        Response::from_text(&e.content),
        Some(Response {
            req: "r1".to_string(),
            body: ResponseBody::Lookup {
                confirmed_balance: 7,
                unconfirmed_balance: 1,
                transactions: vec![info("aa", 0, 0, 0), info("bb", 50, 900, 1)],
            },
        })
    );
    // without the detail outcomes the amounts are zero and nothing else changes
    let bare = h.answer(&r, 20, &outcomes, &vec![], &no_estimates());
    assert_eq!(
        Response::from_text(&bare.content),
        Some(Response {
            req: "r1".to_string(),
            body: ResponseBody::Lookup {
                confirmed_balance: 7,
                unconfirmed_balance: 1,
                transactions: vec![info("aa", 0, 0, 0), info("bb", 50, 0, 1)],
            },
        })
    );
}

#[test]
fn a_failed_balance_call_degrades_to_zero_and_is_still_answered() {
    let h = handler();
    let r = accepted(&format!(r#"{{"type":"bitcoin_lookup","query":"{}"}}"#, ADDR));
    for balance in [HttpOutcome::TimedOut, HttpOutcome::Unreachable, reply_200("nope"), HttpOutcome::Reply { status: 500, body: String::new() }] {
        let outcomes = vec![balance, reply_200(r#"[{"txid":"aa","status":{"confirmed":true}}]"#)];
        let e = h.answer(&r, 20, &outcomes, &vec![], &no_estimates());
        assert_eq!(
            Response::from_text(&e.content),
            Some(Response {
                req: "r1".to_string(),
                body: ResponseBody::Lookup {
                    confirmed_balance: 0,
                    unconfirmed_balance: 0,
                    transactions: vec![TransactionInfo { txid: "aa".to_string(), timestamp: 0, amount: 0, confirmations: 1 }],
                },
            })
        );
    }
    // no outcomes at all
    let e = h.answer(&r, 20, &vec![], &vec![], &no_estimates());
    assert_eq!(
        Response::from_text(&e.content),
        Some(Response {
            req: "r1".to_string(),
            body: ResponseBody::Lookup { confirmed_balance: 0, unconfirmed_balance: 0, transactions: vec![] },
        })
    );
}

#[test]
fn an_extended_key_from_event_to_answer() {
    let h = handler();
    let r = accepted(&format!(r#"{{"type":"bitcoin_lookup","query":"{}"}}"#, ZPUB));
    let calls = planned_calls(&r.request, 20);
    assert_eq!(calls.len(), 40);
    let mut outcomes = Vec::new();
    for i in 0..20 {
        outcomes.push(reply_200(&format!(r#"{{"confirmed":{},"unconfirmed":1}}"#, 100 * i)));
        outcomes.push(reply_200(&format!(r#"[{{"txid":"tx{}","status":{{"confirmed":true}}}},{{"txid":"shared","status":{{"confirmed":true}}}}]"#, i % 3)));
    }
    outcomes[10] = HttpOutcome::TimedOut;
    outcomes[11] = HttpOutcome::Reply { status: 502, body: "bad gateway".to_string() };
    assert_eq!(h.detail_calls(&r.request, &outcomes), vec![]);
    let e = h.answer(&r, 20, &outcomes, &vec![reply_200("ignored")], &no_estimates());
    let expected: i64 = (0..20).filter(|i| *i != 5).map(|i| 100 * i).sum();
    match Response::from_text(&e.content) {
        Some(Response { req, body: ResponseBody::Lookup { confirmed_balance, unconfirmed_balance, transactions } }) => {
            assert_eq!(req, "r1");
            assert_eq!(confirmed_balance, expected);
            assert_eq!(unconfirmed_balance, 19);
            let ids: Vec<&str> = transactions.iter().map(|t| t.txid.as_str()).collect();
            assert_eq!(ids, vec!["shared", "tx0", "tx1", "tx2"]);
        }
        other => panic!("not a lookup answer: {:?}", other),
    }
}

#[test]
fn the_other_requests_from_event_to_answer() {
    let h = handler();
    let b = accepted(r#"{"type":"broadcast_tx","txHex":"0100"}"#);
    assert_eq!(h.detail_calls(&b.request, &vec![reply_200("ff")]), vec![]);
    assert_eq!(h.answer(&b, 20, &vec![reply_200("ff")], &vec![], &no_estimates()).content, r#"{"req":"r1","success":true,"txid":"ff"}"#);
    assert_eq!(h.answer(&b, 20, &vec![HttpOutcome::TimedOut], &vec![], &no_estimates()).content, r#"{"req":"r1","success":false,"error":"Timeout"}"#);
    assert_eq!(h.answer(&b, 20, &vec![], &vec![], &no_estimates()).content, r#"{"req":"r1","success":false,"error":"Failed to connect to Electrs"}"#);
    let f = accepted(r#"{"type":"get_fees"}"#);
    let estimates = vec![
        FeeEstimate { target: 144, rate: 7 },
        FeeEstimate { target: 1, rate: 9 },
        FeeEstimate { target: 2, rate: 100 },
        FeeEstimate { target: 6, rate: 8 },
    ];
    let listed = vec![reply_200("{}")];
    assert_eq!(h.answer(&f, 20, &listed, &vec![], &estimates).content, r#"{"req":"r1","fast":9,"medium":8,"slow":7}"#);
    // a failing indexer gives the defaults, whatever is handed in with it
    for failure in [HttpOutcome::TimedOut, HttpOutcome::Unreachable, HttpOutcome::Reply { status: 500, body: String::new() }] {
        assert_eq!(h.answer(&f, 20, &vec![failure], &vec![], &estimates).content, r#"{"req":"r1","fast":10,"medium":5,"slow":1}"#);
    }
    assert_eq!(h.answer(&f, 20, &vec![], &vec![], &estimates).content, r#"{"req":"r1","fast":10,"medium":5,"slow":1}"#);
    assert_eq!(h.answer(&f, 20, &listed, &vec![], &no_estimates()).content, r#"{"req":"r1","fast":10,"medium":5,"slow":1}"#);
    let u = accepted(r#"{"type":"get_utxos","addresses":["a","b"]}"#);
    let outcomes = vec![
        reply_200(r#"[{"txid":"aa","vout":0,"value":1,"status":{"confirmed":true}},{"txid":"bb","vout":1,"value":2,"status":{"confirmed":true}}]"#),
        HttpOutcome::Unreachable,
    ];
    assert_eq!(
        h.answer(&u, 20, &outcomes, &vec![], &no_estimates()).content,
        r#"{"req":"r1","utxos":[{"txid":"aa","vout":0,"value":1,"address":"a","confirmations":1},{"txid":"bb","vout":1,"value":2,"address":"a","confirmations":1}]}"#
    );
}

#[test]
fn lookup_outcomes_pair_the_calls_with_the_addresses() {
    let h = handler();
    let addresses = vec!["a".to_string(), "b".to_string(), "c".to_string()];
    let outcomes = vec![
        reply_200(r#"{"confirmed":1,"unconfirmed":2}"#),
        HttpOutcome::TimedOut,
        HttpOutcome::Unreachable,
        reply_200(r#"[{"txid":"t","status":{"confirmed":false}}]"#),
        reply_200(r#"{"confirmed":3,"unconfirmed":4}"#),
    ];
    let seen = h.lookup_outcomes(&addresses, &outcomes, &vec![]);
    assert_eq!(seen.len(), 3);
    assert_eq!(seen[0].balance, Ok((1, 2)));
    assert_eq!(seen[0].transactions, Err(IndexerError::Timeout));
    assert_eq!(seen[1].balance, Err(IndexerError::Unreachable));
    assert_eq!(
        seen[1].transactions,
        Ok(vec![AddressTransaction { txid: "t".to_string(), timestamp: 0, amount: 0, confirmations: 0 }])
    );
    assert_eq!(seen[2].balance, Ok((3, 4)));
    assert_eq!(seen[2].transactions, Err(IndexerError::Unreachable));
}
