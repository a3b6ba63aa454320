use balance_withdrawal::request::{CHAIN, CURRENCY, FEE, URL_BALANCE, URL_BASE, URL_WITHDRAWAL};
use balance_withdrawal::response::{balance_from_document, withdrawal_from_document};
use balance_withdrawal::{
    parse_json, sign, Amount, BalanceQuote, Destination, HttpMethod, Json, Member, OkCoinClient,
    OkCoinClientError, Reply, SignedRequest, WithdrawalRequest,
};

const ADDRESS: &str = "SP2J6ZY48GV1EZ5V2V5RB9MP66SW86PYKKNRV9EJ7";
const NOW: u64 = 1518568087133;
const STAMP: &str = "2018-02-14T00:28:07.133Z";

fn client() -> OkCoinClient {
    OkCoinClient::new("the-key".to_string(), "the-phrase".to_string(), "secret".to_string())
}

fn headers(request: &SignedRequest) -> Vec<(String, String)> {
    request.headers.iter().map(|h| (h.name.clone(), h.value.clone())).collect()
}

fn pair(name: &str, value: &str) -> (String, String) {
    (name.to_string(), value.to_string())
}

fn response(status: u16, body: &str) -> Reply {
    Reply::Response { status, body: body.to_string() }
}

fn read_balance(status: u16, body: &str) -> Result<BalanceQuote, OkCoinClientError> {
    OkCoinClient::read_balance(&response(status, body))
}

fn read_withdrawal(status: u16, body: &str) -> Result<(), OkCoinClientError> {
    OkCoinClient::read_withdrawal(&response(status, body))
}

fn quoted(text: &str) -> String {
    match read_balance(200, text) {
        Ok(BalanceQuote::Equity(equity)) => equity,
        other => panic!("no equity: {:?}", other),
    }
}

fn balance(status: u16, body: &str) -> Result<f64, OkCoinClientError> {
    let quote = read_balance(status, body)?;
    let number = match &quote {
        BalanceQuote::Equity(text) => {
            text.parse::<f64>().ok().map(|x| Amount::from_bits(x.to_bits()))
        },
        BalanceQuote::Missing => None,
    };
    OkCoinClient::balance_of(&quote, number).map(|a| f64::from_bits(a.to_bits()))
}

const BTC_AND_STX: &str = r#"{"code":"0","msg":"","data":[{"totalEq":"41624.32","details":[
    {"ccy":"BTC","eq":"1.5","cashBal":"1.5","uTime":"1617279471503","disEq":"50559.01",
     "availBal":"1.5","frozenBal":"0","ordFrozen":"0","eqUsd":"45078.38","stgyEq":"0"},
    {"ccy":"STX","eq":"12.5","cashBal":"12.5","uTime":"1617279471503","disEq":"10.1",
     "availBal":"12.5","frozenBal":"0","ordFrozen":"0","eqUsd":"11.2","stgyEq":"0"}]}]}"#;

const BTC_ONLY: &str = r#"{"code":"0","msg":"","data":[{"totalEq":"41624.32","details":[
    {"ccy":"BTC","eq":"1.5","cashBal":"1.5","uTime":"1617279471503","disEq":"50559.01",
     "availBal":"1.5","frozenBal":"0","ordFrozen":"0","eqUsd":"45078.38","stgyEq":"0"}]}]}"#;

#[test]
fn constants_of_the_exchange() {
    assert_eq!(URL_BASE, "https://www.okcoin.com");
    assert_eq!(URL_BALANCE, "/api/v5/account/balance?ccy=STX");
    assert_eq!(URL_WITHDRAWAL, "/api/v5/asset/withdrawal");
    assert_eq!(CURRENCY, "STX");
    assert_eq!(CHAIN, "STX-Bitcoin");
    assert_eq!(FEE, "0.0005");
    assert_eq!(Destination::Internal.code(), "3");
    assert_eq!(Destination::OnChain.code(), "4");
}

#[test]
fn balance_request_is_a_signed_get_without_body() {
    let request = client().balance_request(NOW);
    assert_eq!(request.method, HttpMethod::Get);
    assert_eq!(request.url, "https://www.okcoin.com/api/v5/account/balance?ccy=STX");
    assert_eq!(request.body, "");
    assert_eq!(
        headers(&request),
        vec![
            pair("OK-ACCESS-KEY", "the-key"),
            pair("OK-ACCESS-PASSPHRASE", "the-phrase"),
            pair("OK-ACCESS-TIMESTAMP", STAMP),
            pair("Content-Type", "application/json"),
            pair("OK-ACCESS-SIGN", "k3qqWkI6OMsULlsbcQCzZx6Uk8+BWH4YbqPln4LLy/k="),
        ]
    );
}

#[test]
fn timestamp_header_is_the_timestamp_that_was_signed() {
    let request = client().balance_request(NOW + 1);
    let all = headers(&request);
    let stamp = &all[2].1;
    assert_eq!(stamp, "2018-02-14T00:28:07.134Z");
    assert_eq!(all[4].1, sign("secret", stamp, HttpMethod::Get, URL_BALANCE, ""));
    assert_eq!(all[4].1, "n5qA9pz1PPYP3o5d9j0oBXtL0CF2jqUixhBXKWExsag=");
}

#[test]
fn withdrawal_request_is_a_signed_post_with_the_fixed_fields() {
    let request = client().withdrawal_request(NOW, "150.0", ADDRESS).expect("a request");
    let body = "{\"amt\":150.0,\"ccy\":\"STX\",\"chain\":\"STX-Bitcoin\",\"dest\":\"3\",\
                \"fee\":\"0.0005\",\"toAddr\":\"SP2J6ZY48GV1EZ5V2V5RB9MP66SW86PYKKNRV9EJ7\"}";
    assert_eq!(request.method, HttpMethod::Post);
    assert_eq!(request.url, "https://www.okcoin.com/api/v5/asset/withdrawal");
    assert_eq!(request.body, body);
    assert_eq!(
        headers(&request),
        vec![
            pair("OK-ACCESS-KEY", "the-key"),
            pair("OK-ACCESS-PASSPHRASE", "the-phrase"),
            pair("OK-ACCESS-TIMESTAMP", STAMP),
            pair("Content-Type", "application/json"),
            pair("OK-ACCESS-SIGN", "6g2S9DZH0IFFLq63TxZvlcRJ64kwj8UYxValYhDlThQ="),
        ]
    );
}

#[test]
fn withdrawal_signature_covers_the_body_that_is_sent() {
    for (amount, address) in [("150.0", ADDRESS), ("0.1", "a"), ("7", ""), ("1e3", "x y")] {
        let request = client().withdrawal_request(NOW, amount, address).expect("a request");
        assert_eq!(
            headers(&request)[4].1,
            sign("secret", STAMP, HttpMethod::Post, URL_WITHDRAWAL, &request.body)
        );
        assert_eq!(headers(&request)[2].1, STAMP);
    }
}

#[test]
fn withdrawal_body_escapes_what_json_must_escape() {
    let request = client().withdrawal_request(NOW, "1", "a\"b\\c\n").expect("a request");
    assert_eq!(
        request.body,
        "{\"amt\":1,\"ccy\":\"STX\",\"chain\":\"STX-Bitcoin\",\"dest\":\"3\",\
         \"fee\":\"0.0005\",\"toAddr\":\"a\\\"b\\\\c\\n\"}"
    );
    assert_eq!(
        headers(&request)[4].1,
        sign("secret", STAMP, HttpMethod::Post, URL_WITHDRAWAL, &request.body)
    );
}

#[test]
fn withdrawal_body_has_a_number_and_five_strings() {
    let request = WithdrawalRequest::new("0.1", "addr");
    assert_eq!(request.amount, "0.1");
    assert_eq!(request.fee, "0.0005");
    assert_eq!(request.destination, Destination::Internal);
    assert_eq!(request.currency, "STX");
    assert_eq!(request.chain, "STX-Bitcoin");
    assert_eq!(request.to_address, "addr");
    let body = request.body().expect("a body");
    assert_eq!(
        body,
        "{\"amt\":0.1,\"ccy\":\"STX\",\"chain\":\"STX-Bitcoin\",\"dest\":\"3\",\
         \"fee\":\"0.0005\",\"toAddr\":\"addr\"}"
    );
    let doc = parse_json(&body).expect("a document");
    assert!(matches!(&doc, Json::Object(members) if members.len() == 6));
    assert!(matches!(doc.member("amt"), Some(Json::Number(n)) if n == "0.1"));
    for (name, text) in [
        ("fee", "0.0005"),
        ("dest", "3"),
        ("ccy", "STX"),
        ("chain", "STX-Bitcoin"),
        ("toAddr", "addr"),
    ] {
        assert_eq!(doc.member(name).and_then(|v| v.as_text()).map(|t| t.as_str()), Some(text));
    }
}

#[test]
fn withdrawal_amount_is_written_as_the_number_that_it_reads_as() {
    for (numeral, written) in [
        ("150.0", "150.0"),
        ("150", "150"),
        ("0.0005", "0.0005"),
        ("12.5", "12.5"),
        ("-3", "-3"),
        ("1e3", "1000.0"),
        (" 7 ", "7"),
        ("18446744073709551615", "18446744073709551615"),
    ] {
        let body = WithdrawalRequest::new(numeral, "a").body().expect("a body");
        let expected = format!(
            "{{\"amt\":{},\"ccy\":\"STX\",\"chain\":\"STX-Bitcoin\",\"dest\":\"3\",\
             \"fee\":\"0.0005\",\"toAddr\":\"a\"}}",
            written
        );
        assert_eq!(body, expected, "{:?}", numeral);
    }
}

#[test]
fn withdrawal_amount_agrees_with_the_number_written_by_the_json_writer() {
    for amount in [150.0f64, 0.1, 12.5, 100.00000000000001, 1e21, 5e-324, 200.0] {
        let numeral = serde_json::to_string(&amount).expect("a numeral");
        let body = WithdrawalRequest::new(&numeral, "a").body().expect("a body");
        let value: serde_json::Value = serde_json::from_str(&body).expect("a document");
        assert_eq!(value["amt"].as_f64(), Some(amount));
        assert!(body.starts_with(&format!("{{\"amt\":{},", numeral)), "{:?}", body);
    }
}

#[test]
fn withdrawal_of_an_amount_that_is_no_number_fails() {
    for numeral in [
        "", "abc", "\"150\"", "null", "true", "[1]", "{}", "1,5", "1.", ".5", "+1", "0x10", "inf",
        "NaN", "1 2", "1e400",
    ] {
        assert!(
            matches!(
                WithdrawalRequest::new(numeral, "a").body(),
                Err(OkCoinClientError::Serialization)
            ),
            "{:?}",
            numeral
        );
        assert!(
            matches!(
                client().withdrawal_request(NOW, numeral, ADDRESS),
                Err(OkCoinClientError::Serialization)
            ),
            "{:?}",
            numeral
        );
    }
}

#[test]
fn withdrawal_over_the_chain_has_its_own_code() {
    let mut request = WithdrawalRequest::new("2", "addr");
    request.destination = Destination::OnChain;
    request.fee = "0.001".to_string();
    assert_eq!(
        request.body().expect("a body"),
        "{\"amt\":2,\"ccy\":\"STX\",\"chain\":\"STX-Bitcoin\",\"dest\":\"4\",\
         \"fee\":\"0.001\",\"toAddr\":\"addr\"}"
    );
}

#[test]
fn transport_failure_is_a_network_error() {
    assert!(matches!(
        OkCoinClient::read_balance(&Reply::TransportFailure),
        Err(OkCoinClientError::Network)
    ));
    assert!(matches!(
        OkCoinClient::read_withdrawal(&Reply::TransportFailure),
        Err(OkCoinClientError::Network)
    ));
}

#[test]
fn request_signs_what_it_is_given() {
    let request = client().request("t", HttpMethod::Post, "/p", "b");
    assert_eq!(request.url, "https://www.okcoin.com/p");
    assert_eq!(request.body, "b");
    assert_eq!(headers(&request)[2], pair("OK-ACCESS-TIMESTAMP", "t"));
    assert_eq!(headers(&request)[4].1, sign("secret", "t", HttpMethod::Post, "/p", "b"));
    assert_eq!(request.headers.len(), 5);
}

#[test]
fn balance_of_the_listed_currency() {
    assert_eq!(quoted(BTC_AND_STX), "12.5");
    assert_eq!(balance(200, BTC_AND_STX).expect("a balance"), 12.5);
}

#[test]
fn balance_of_a_currency_that_is_not_listed_is_zero() {
    assert!(matches!(read_balance(200, BTC_ONLY), Ok(BalanceQuote::Missing)));
    assert_eq!(balance(200, BTC_ONLY).expect("a balance"), 0.0);
    let none = r#"{"code":"0","msg":"","data":[{"details":[]}]}"#;
    assert_eq!(balance(200, none).expect("a balance"), 0.0);
    assert_eq!(balance(299, none).expect("a balance").to_bits(), 0);
}

#[test]
fn balance_is_the_first_entry_of_the_first_payload() {
    let twice = r#"{"code":"0","msg":"","data":[
        {"details":[{"ccy":"STX","eq":"1"},{"ccy":"STX","eq":"2"}]},
        {"details":[{"ccy":"STX","eq":"3"}]}]}"#;
    assert_eq!(quoted(twice), "1");
}

#[test]
fn balance_with_an_equity_that_is_no_number_fails() {
    let odd = r#"{"code":"0","msg":"","data":[{"details":[{"ccy":"STX","eq":"twelve"}]}]}"#;
    assert_eq!(quoted(odd), "twelve");
    assert!(matches!(balance(200, odd), Err(OkCoinClientError::Serialization)));
}

#[test]
fn balance_of_ignores_the_number_where_the_currency_is_missing() {
    let number = Some(Amount::from_bits(7.0f64.to_bits()));
    let balance = OkCoinClient::balance_of(&BalanceQuote::Missing, number).expect("a balance");
    assert_eq!(balance.to_bits(), 0);
    let quote = BalanceQuote::Equity("7".to_string());
    let balance = OkCoinClient::balance_of(&quote, number).expect("a balance");
    assert_eq!(balance.to_bits(), 7.0f64.to_bits());
    let unread = OkCoinClient::balance_of(&quote, None);
    assert!(matches!(unread, Err(OkCoinClientError::Serialization)));
}

#[test]
fn exchange_error_under_http_success_is_surfaced() {
    let body = r#"{"code":"1","msg":"insufficient permissions","data":[]}"#;
    match read_balance(200, body) {
        Err(OkCoinClientError::ApiRequest(1, msg)) => assert_eq!(msg, "insufficient permissions"),
        other => panic!("{:?}", other),
    }
    match read_withdrawal(200, body) {
        Err(OkCoinClientError::ApiRequest(1, msg)) => assert_eq!(msg, "insufficient permissions"),
        other => panic!("{:?}", other),
    }
}

#[test]
fn exchange_error_comes_before_the_payload() {
    let body = r#"{"code":"58350","msg":"Insufficient balance","data":[{"details":[]}]}"#;
    match read_withdrawal(200, body) {
        Err(OkCoinClientError::ApiRequest(58350, msg)) => assert_eq!(msg, "Insufficient balance"),
        other => panic!("{:?}", other),
    }
    let without = r#"{"code":"+0051","msg":"m"}"#;
    assert!(matches!(
        read_balance(204, without),
        Err(OkCoinClientError::ApiRequest(51, _))
    ));
}

#[test]
fn success_without_payload_is_an_empty_response() {
    for body in [
        r#"{"code":"0","msg":""}"#,
        r#"{"code":"0","msg":"","data":null}"#,
        r#"{"code":"0","msg":"","data":[]}"#,
        r#"{"msg":"","code":"000"}"#,
    ] {
        assert!(matches!(read_balance(200, body), Err(OkCoinClientError::EmptyResponse)));
        assert!(matches!(read_withdrawal(200, body), Err(OkCoinClientError::EmptyResponse)));
    }
}

#[test]
fn success_that_cannot_be_read_is_a_serialization_error() {
    for body in [
        "",
        "not json",
        "{",
        "[]",
        "null",
        "\"0\"",
        r#"{"msg":""}"#,
        r#"{"code":"0"}"#,
        r#"{"code":0,"msg":""}"#,
        r#"{"code":"0","msg":null}"#,
        r#"{"code":"zero","msg":""}"#,
        r#"{"code":"65536","msg":""}"#,
        r#"{"code":"-1","msg":""}"#,
        r#"{"code":"","msg":""}"#,
        r#"{"code":"0","msg":"","data":{}}"#,
        r#"{"code":"0","msg":"","data":"x"}"#,
        r#"{"code":"1","msg":"","data":7}"#,
    ] {
        assert!(
            matches!(read_balance(200, body), Err(OkCoinClientError::Serialization)),
            "{:?}",
            body
        );
        assert!(
            matches!(read_withdrawal(200, body), Err(OkCoinClientError::Serialization)),
            "{:?}",
            body
        );
    }
}

#[test]
fn balance_payload_that_cannot_be_read_is_a_serialization_error() {
    for payload in [
        "7",
        "null",
        "[]",
        "{}",
        r#"{"details":null}"#,
        r#"{"details":{}}"#,
        r#"{"details":[7]}"#,
        r#"{"details":[{}]}"#,
        r#"{"details":[{"ccy":"STX"}]}"#,
        r#"{"details":[{"eq":"1"}]}"#,
        r#"{"details":[{"ccy":"STX","eq":1}]}"#,
        r#"{"details":[{"ccy":7,"eq":"1"}]}"#,
        r#"{"details":[{"ccy":"STX","eq":"1"},{"ccy":"BTC"}]}"#,
    ] {
        let body = format!("{{\"code\":\"0\",\"msg\":\"\",\"data\":[{}]}}", payload);
        assert!(
            matches!(read_balance(200, &body), Err(OkCoinClientError::Serialization)),
            "{:?}",
            body
        );
        assert!(matches!(read_withdrawal(200, &body), Ok(())), "{:?}", body);
    }
}

#[test]
fn withdrawal_succeeds_on_code_zero_with_a_payload() {
    let body = r#"{"code":"0","msg":"","data":[{"amt":"150.0","wdId":"67485","ccy":"STX",
        "clientId":"","chain":"STX-Bitcoin"}]}"#;
    assert!(matches!(read_withdrawal(200, body), Ok(())));
    assert!(matches!(read_withdrawal(201, body), Ok(())));
    assert!(matches!(read_withdrawal(299, body), Ok(())));
}

#[test]
fn http_failure_with_an_envelope_carries_code_and_message() {
    let body = r#"{"code":"50111","msg":"Invalid OK-ACCESS-KEY"}"#;
    for status in [401u16, 199, 300, 404, 500, 0, 65535] {
        match read_balance(status, body) {
            Err(OkCoinClientError::RequestFailed(s, Some(50111), Some(msg))) => {
                assert_eq!(s, status);
                assert_eq!(msg, "Invalid OK-ACCESS-KEY");
            },
            other => panic!("{:?}", other),
        }
        match read_withdrawal(status, body) {
            Err(OkCoinClientError::RequestFailed(s, Some(50111), Some(msg))) => {
                assert_eq!(s, status);
                assert_eq!(msg, "Invalid OK-ACCESS-KEY");
            },
            other => panic!("{:?}", other),
        }
    }
}

#[test]
fn http_failure_with_code_zero_is_still_a_failure() {
    let body = r#"{"code":"0","msg":"","data":[{"details":[{"ccy":"STX","eq":"9"}]}]}"#;
    assert!(matches!(
        read_balance(503, body),
        Err(OkCoinClientError::RequestFailed(503, Some(0), Some(_)))
    ));
}

#[test]
fn http_failure_without_an_envelope_carries_the_status_only() {
    for body in [
        "",
        "<html>Bad Gateway</html>",
        "{}",
        r#"{"code":"x","msg":"m"}"#,
        r#"{"code":"1"}"#,
    ] {
        assert!(
            matches!(
                read_balance(502, body),
                Err(OkCoinClientError::RequestFailed(502, None, None))
            ),
            "{:?}",
            body
        );
        assert!(
            matches!(
                read_withdrawal(502, body),
                Err(OkCoinClientError::RequestFailed(502, None, None))
            ),
            "{:?}",
            body
        );
    }
}

#[test]
fn a_parsed_document_is_judged_like_its_text() {
    let entry = Json::Object(vec![
        Member { name: "ccy".to_string(), value: Json::Text("STX".to_string()) },
        Member { name: "eq".to_string(), value: Json::Text("12.5".to_string()) },
    ]);
    let payload = Json::Object(vec![Member {
        name: "details".to_string(),
        value: Json::Array(vec![entry]),
    }]);
    let doc = Json::Object(vec![
        Member { name: "code".to_string(), value: Json::Text("0".to_string()) },
        Member { name: "data".to_string(), value: Json::Array(vec![payload]) },
        Member { name: "msg".to_string(), value: Json::Text(String::new()) },
    ]);
    match balance_from_document(200, Some(&doc)) {
        Ok(BalanceQuote::Equity(equity)) => assert_eq!(equity, "12.5"),
        other => panic!("{:?}", other),
    }
    assert!(matches!(withdrawal_from_document(200, Some(&doc)), Ok(())));
    assert!(matches!(
        balance_from_document(200, None),
        Err(OkCoinClientError::Serialization)
    ));
    assert!(matches!(
        withdrawal_from_document(400, None),
        Err(OkCoinClientError::RequestFailed(400, None, None))
    ));
}

#[test]
fn json_text_is_read_into_a_document() {
    let doc = parse_json(r#"{"b":[null,true,1.5,"x",{}],"a":"y","b2":-7}"#).expect("a document");
    match &doc {
        Json::Object(members) => {
            let names: Vec<&str> = members.iter().map(|m| m.name.as_str()).collect();
            assert_eq!(names, vec!["a", "b", "b2"]);
        },
        other => panic!("{:?}", other),
    }
    assert!(matches!(doc.member("a"), Some(Json::Text(t)) if t == "y"));
    assert!(matches!(doc.member("b2"), Some(Json::Number(n)) if n == "-7"));
    match doc.member("b").and_then(|b| b.as_array()) {
        Some(items) => {
            assert_eq!(items.len(), 5);
            assert!(matches!(&items[0], Json::Null));
            assert!(matches!(&items[1], Json::Bool(true)));
            assert!(matches!(&items[2], Json::Number(n) if n == "1.5"));
            assert!(matches!(&items[3], Json::Text(t) if t == "x"));
            assert!(matches!(&items[4], Json::Object(m) if m.is_empty()));
        },
        None => panic!("no array"),
    }
}

#[test]
fn text_that_is_no_json_is_refused() {
    for text in ["", "{", "{\"a\":}", "nul", "[1,]", "{\"a\":1}x", "'a'"] {
        assert!(matches!(parse_json(text), Err(OkCoinClientError::Serialization)), "{:?}", text);
    }
}

#[test]
fn json_lookups() {
    let doc = Json::Object(vec![
        Member { name: "a".to_string(), value: Json::Text("x".to_string()) },
        Member { name: "b".to_string(), value: Json::Array(vec![Json::Null, Json::Bool(true)]) },
        Member { name: "a".to_string(), value: Json::Number("1".to_string()) },
    ]);
    assert!(matches!(doc.member("a"), Some(Json::Text(t)) if t == "x"));
    assert!(matches!(doc.member("b"), Some(Json::Array(items)) if items.len() == 2));
    assert!(doc.member("c").is_none());
    assert!(doc.member("").is_none());
    assert!(doc.as_text().is_none());
    assert!(doc.as_array().is_none());
    assert!(Json::Null.member("a").is_none());
    assert_eq!(Json::Text("t".to_string()).as_text().map(|t| t.as_str()), Some("t"));
    assert_eq!(Json::Array(vec![Json::Null]).as_array().map(|a| a.len()), Some(1));
}

#[test]
fn error_descriptions() {
    assert_eq!(
        OkCoinClientError::Serialization.description(),
        "(de)serializing from/to json failed"
    );
    assert_eq!(
        OkCoinClientError::Network.description(),
        "the request to the exchange failed in transport"
    );
    assert_eq!(
        OkCoinClientError::RequestFailed(401, Some(50111), Some("Invalid key".to_string()))
            .description(),
        "HTTP error: HTTP status code: 401, exchange code: 50111; message: Invalid key"
    );
    assert_eq!(
        OkCoinClientError::RequestFailed(502, None, None).description(),
        "HTTP status code 502"
    );
    assert_eq!(
        OkCoinClientError::RequestFailed(502, Some(1), None).description(),
        "HTTP status code 502"
    );
    assert_eq!(
        OkCoinClientError::ApiRequest(1, "insufficient permissions".to_string()).description(),
        "OkCoin API request finished with error: code 1, message: \"insufficient permissions\""
    );
    assert_eq!(
        OkCoinClientError::EmptyResponse.description(),
        "API request succeed but response is empty"
    );
}
