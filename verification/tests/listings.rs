use eodhd::error::{DecodeCause, EODHDError, RequestCause};
use eodhd::exchanges::{
    get_exchanges, get_tickers, EODHDExchange, EODHDExchangeTicker, EODHDTickerType,
};
use eodhd::http::{Body, HttpReply};
use eodhd::json::JsonValue;
use eodhd::record::{Field, FieldFault, RecordFault};

fn text(value: &str) -> JsonValue {
    JsonValue::Text(value.to_string())
}

fn object(members: Vec<(&str, JsonValue)>) -> JsonValue {
    JsonValue::Object(members.into_iter().map(|(key, value)| (key.to_string(), value)).collect())
}

fn answered(status: u16, body: JsonValue) -> HttpReply {
    HttpReply::Answered { status, body: Body::Json(body) }
}

fn toronto() -> JsonValue {
    object(vec![
        ("Name", text("Toronto Exchange")),
        ("Code", text("TO")),
        ("Currency", text("CAD")),
        ("Country", text("Canada")),
        ("CountryISO2", text("CA")),
        ("CountryISO3", text("CAN")),
    ])
}

fn exchange(name: &str, code: &str) -> JsonValue {
    object(vec![
        ("Name", text(name)),
        ("Code", text(code)),
        ("Currency", text("USD")),
        ("Country", text("USA")),
        ("CountryISO2", text("US")),
        ("CountryISO3", text("USA")),
    ])
}

fn cba(kind: JsonValue) -> JsonValue {
    object(vec![
        ("Code", text("CBA")),
        ("Name", text("Commonwealth Bank Of Australia")),
        ("Country", text("Australia")),
        ("Exchange", text("AU")),
        ("Currency", text("AUD")),
        ("Type", kind),
        ("Isin", JsonValue::Null),
    ])
}

fn cba_record(kind: Option<EODHDTickerType>) -> EODHDExchangeTicker {
    EODHDExchangeTicker {
        code: "CBA".to_string(),
        name: "Commonwealth Bank Of Australia".to_string(),
        country: "Australia".to_string(),
        exchange: "AU".to_string(),
        currency: "AUD".to_string(),
        ticker_type: kind,
        isin: None,
    }
}

fn request_failed(cause: RequestCause) -> EODHDError {
    EODHDError::RequestFailed { description: "request failed".to_string(), cause }
}

fn exchanges_failed(cause: DecodeCause) -> EODHDError {
    EODHDError::DecodeFailed { description: "parsing exchanges failed".to_string(), cause }
}

fn tickers_failed(cause: DecodeCause) -> EODHDError {
    EODHDError::DecodeFailed { description: "parsing tickers failed".to_string(), cause }
}

fn bad_field(index: usize, field: Field, fault: FieldFault) -> DecodeCause {
    DecodeCause::Record { index, fault: RecordFault::Field { field, fault } }
}

#[test]
fn one_exchange_is_listed_with_its_literal_fields() {
    let reply = answered(200, JsonValue::Array(vec![toronto()]));
    let listed = get_exchanges(&reply).unwrap();
    assert_eq!(
        listed,
        vec![EODHDExchange {
            name: "Toronto Exchange".to_string(),
            code: "TO".to_string(),
            currency: "CAD".to_string(),
            country: "Canada".to_string(),
            country_iso2: "CA".to_string(),
            country_iso3: "CAN".to_string(),
        }]
    );
}

#[test]
fn a_common_stock_is_listed_without_isin() {
    let reply = answered(200, JsonValue::Array(vec![cba(text("Common Stock"))]));
    let listed = get_tickers(&reply).unwrap();
    assert_eq!(listed.len(), 1);
    assert_eq!(listed[0].ticker_type, Some(EODHDTickerType::CommonStock));
    assert_eq!(listed[0].isin, None);
    assert_eq!(listed, vec![cba_record(Some(EODHDTickerType::CommonStock))]);
}

#[test]
fn an_unknown_type_leaves_the_ticker_without_kind() {
    let reply = answered(200, JsonValue::Array(vec![cba(text("Unknown Thing"))]));
    assert_eq!(get_tickers(&reply), Ok(vec![cba_record(None)]));
}

#[test]
fn status_500_is_a_request_failure_for_both_listings() {
    let reply = HttpReply::Answered {
        status: 500,
        body: Body::Unreadable { detail: "expected value at line 1 column 1".to_string() },
    };
    let expected = request_failed(RequestCause::Status { code: 500 });
    assert_eq!(get_exchanges(&reply), Err(request_failed(RequestCause::Status { code: 500 })));
    assert_eq!(get_tickers(&reply), Err(expected));
}

#[test]
fn a_refused_status_wins_over_a_well_formed_body() {
    let reply = answered(404, JsonValue::Array(vec![toronto()]));
    assert_eq!(get_exchanges(&reply), Err(request_failed(RequestCause::Status { code: 404 })));
    let reply = answered(503, JsonValue::Array(vec![cba(text("ETF"))]));
    assert_eq!(get_tickers(&reply), Err(request_failed(RequestCause::Status { code: 503 })));
}

#[test]
fn only_statuses_from_200_to_299_are_accepted() {
    for status in [0u16, 100, 199, 300, 301, 304, 400, 999, u16::MAX] {
        let reply = answered(status, JsonValue::Array(vec![]));
        assert_eq!(
            get_exchanges(&reply),
            Err(request_failed(RequestCause::Status { code: status }))
        );
    }
    for status in [200u16, 201, 204, 250, 299] {
        let reply = answered(status, JsonValue::Array(vec![]));
        assert_eq!(get_exchanges(&reply), Ok(vec![]));
        let reply = answered(status, JsonValue::Array(vec![]));
        assert_eq!(get_tickers(&reply), Ok(vec![]));
    }
}

#[test]
fn a_failed_transport_is_a_request_failure_with_its_message() {
    let reply = HttpReply::Unreachable { detail: "connection refused".to_string() };
    let expected = request_failed(RequestCause::Transport {
        detail: "connection refused".to_string(),
    });
    assert_eq!(get_exchanges(&reply), Err(expected));
    let error = get_tickers(&reply).unwrap_err();
    assert_eq!(error.description(), "request failed");
    assert!(matches!(error, EODHDError::RequestFailed { .. }));
}

#[test]
fn an_object_in_place_of_the_array_is_a_decode_failure() {
    let reply = answered(200, toronto());
    assert_eq!(get_exchanges(&reply), Err(exchanges_failed(DecodeCause::NotAnArray)));
    let reply = answered(200, cba(text("Fund")));
    assert_eq!(get_tickers(&reply), Err(tickers_failed(DecodeCause::NotAnArray)));
}

#[test]
fn a_body_of_another_kind_is_a_decode_failure() {
    for body in [JsonValue::Null, JsonValue::Bool(true), JsonValue::Number, text("[]")] {
        let reply = answered(200, body);
        assert_eq!(get_exchanges(&reply), Err(exchanges_failed(DecodeCause::NotAnArray)));
    }
}

#[test]
fn a_missing_required_field_is_a_decode_failure() {
    let item = object(vec![
        ("Name", text("Toronto Exchange")),
        ("Code", text("TO")),
        ("Currency", text("CAD")),
        ("CountryISO2", text("CA")),
        ("CountryISO3", text("CAN")),
    ]);
    let reply = answered(200, JsonValue::Array(vec![item]));
    assert_eq!(
        get_exchanges(&reply),
        Err(exchanges_failed(bad_field(0, Field::Country, FieldFault::Missing)))
    );
}

#[test]
fn an_unreadable_body_is_a_decode_failure_with_the_readers_message() {
    let reply = HttpReply::Answered {
        status: 200,
        body: Body::Unreadable { detail: "EOF while parsing a list".to_string() },
    };
    let cause = DecodeCause::Syntax { detail: "EOF while parsing a list".to_string() };
    assert_eq!(get_exchanges(&reply), Err(exchanges_failed(cause)));
    let error = get_tickers(&reply).unwrap_err();
    assert_eq!(error.description(), "parsing tickers failed");
    assert_eq!(
        error,
        tickers_failed(DecodeCause::Syntax { detail: "EOF while parsing a list".to_string() })
    );
}

#[test]
fn a_listing_keeps_the_length_and_order_of_the_body() {
    let body = JsonValue::Array(vec![
        exchange("New York", "NYSE"),
        exchange("Nasdaq", "NASDAQ"),
        exchange("New York", "NYSE"),
        toronto(),
    ]);
    let listed = get_exchanges(&answered(200, body)).unwrap();
    let codes: Vec<&str> = listed.iter().map(|record| record.code.as_str()).collect();
    assert_eq!(codes, vec!["NYSE", "NASDAQ", "NYSE", "TO"]);
    assert_eq!(listed[3].country_iso3, "CAN");
}

#[test]
fn an_empty_array_lists_nothing() {
    assert_eq!(get_exchanges(&answered(200, JsonValue::Array(vec![]))), Ok(vec![]));
    assert_eq!(get_tickers(&answered(200, JsonValue::Array(vec![]))), Ok(vec![]));
}

#[test]
fn the_first_item_that_is_no_record_is_reported() {
    let body = JsonValue::Array(vec![
        toronto(),
        JsonValue::Number,
        object(vec![]),
    ]);
    assert_eq!(
        get_exchanges(&answered(200, body)),
        Err(exchanges_failed(DecodeCause::Record { index: 1, fault: RecordFault::NotAnObject }))
    );
    let body = JsonValue::Array(vec![cba(text("stock")), cba(text("etf")), text("CBA")]);
    assert_eq!(
        get_tickers(&answered(200, body)),
        Err(tickers_failed(DecodeCause::Record { index: 2, fault: RecordFault::NotAnObject }))
    );
}
