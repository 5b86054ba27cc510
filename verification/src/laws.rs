//! What holds of every listing, proved from the definitions of the other modules.

use vstd::prelude::*;
use crate::decode::{
    exchange_of, exchanges_of, first_bad_exchange, first_bad_ticker, ticker_of, tickers_of,
};
use crate::error::{ErrorView, RequestCauseView};
use crate::exchanges::{
    exchanges_outcome, ticker_type_of, tickers_outcome, EODHDTickerType, ExchangeView, TickerView,
};
use crate::http::{is_success, BodyView, ReplyView};
use crate::json::{member, Json, Member};
use crate::record::RecordFault;
use crate::url::{tickers_url_of, BASE_URL};

verus! {

/// Whether exactly one member is written under `key` and its value is a string.
pub open spec fn holds_text(members: Seq<(Seq<char>, Json)>, key: Seq<char>) -> bool {
    member(members, key) matches Member::Unique(Json::Text(_))
}

/// Whether `item` is a well-formed exchange: an object in which each of the
/// six keys is written once, with a string under it.
pub open spec fn is_exchange(item: Json) -> bool {
    &&& item matches Json::Object(members)
    &&& holds_text(members, "Name"@)
    &&& holds_text(members, "Code"@)
    &&& holds_text(members, "Currency"@)
    &&& holds_text(members, "Country"@)
    &&& holds_text(members, "CountryISO2"@)
    &&& holds_text(members, "CountryISO3"@)
}

/// Whether `body` is a well-formed list of exchanges.
pub open spec fn is_exchange_list(body: Json) -> bool {
    &&& body matches Json::Array(items)
    &&& forall|i: int| 0 <= i < items.len() ==> is_exchange(#[trigger] items[i])
}

/// Whether `item` is a well-formed ticker: an object in which each of the five
/// required keys is written once, with a string under it; `Type` is written at
/// most once, with any value; and `Isin` is left out, or written once with a
/// string or `null` under it.
pub open spec fn is_ticker(item: Json) -> bool {
    &&& item matches Json::Object(members)
    &&& holds_text(members, "Code"@)
    &&& holds_text(members, "Name"@)
    &&& holds_text(members, "Country"@)
    &&& holds_text(members, "Exchange"@)
    &&& holds_text(members, "Currency"@)
    &&& member(members, "Type"@) !is Repeated
    &&& match member(members, "Isin"@) {
        Member::Missing => true,
        Member::Unique(Json::Null) => true,
        Member::Unique(Json::Text(_)) => true,
        _ => false,
    }
}

/// Whether `body` is a well-formed list of tickers.
pub open spec fn is_ticker_list(body: Json) -> bool {
    &&& body matches Json::Array(items)
    &&& forall|i: int| 0 <= i < items.len() ==> is_ticker(#[trigger] items[i])
}

/// An item is read as an exchange exactly when it is a well-formed one, and
/// each field of the record is then the string under the key of that field.
pub proof fn exchange_fields_map_one_to_one(item: Json)
    ensures
        exchange_of(item) is Ok <==> is_exchange(item),
        exchange_of(item) matches Ok(exchange) ==> ({
            &&& item matches Json::Object(members)
            &&& member(members, "Name"@) == Member::Unique(Json::Text(exchange.name))
            &&& member(members, "Code"@) == Member::Unique(Json::Text(exchange.code))
            &&& member(members, "Currency"@) == Member::Unique(Json::Text(exchange.currency))
            &&& member(members, "Country"@) == Member::Unique(Json::Text(exchange.country))
            &&& member(members, "CountryISO2"@) == Member::Unique(
                Json::Text(exchange.country_iso2),
            )
            &&& member(members, "CountryISO3"@) == Member::Unique(
                Json::Text(exchange.country_iso3),
            )
        }),
{
}

/// An item is read as a ticker exactly when it is a well-formed one. Each text
/// field of the record is then the string under the key of that field; the
/// ISIN is absent where `Isin` is left out or `null`; and the kind is the one
/// that the string under `Type` spells, or none where `Type` is left out, is no
/// string, or spells no kind.
pub proof fn ticker_fields_map_one_to_one(item: Json)
    ensures
        ticker_of(item) is Ok <==> is_ticker(item),
        ticker_of(item) matches Ok(ticker) ==> ({
            &&& item matches Json::Object(members)
            &&& member(members, "Code"@) == Member::Unique(Json::Text(ticker.code))
            &&& member(members, "Name"@) == Member::Unique(Json::Text(ticker.name))
            &&& member(members, "Country"@) == Member::Unique(Json::Text(ticker.country))
            &&& member(members, "Exchange"@) == Member::Unique(Json::Text(ticker.exchange))
            &&& member(members, "Currency"@) == Member::Unique(Json::Text(ticker.currency))
            &&& ticker.ticker_type == match member(members, "Type"@) {
                Member::Unique(Json::Text(text)) => ticker_type_of(text),
                _ => None,
            }
            &&& ticker.isin == match member(members, "Isin"@) {
                Member::Unique(Json::Text(text)) => Some(text),
                _ => None,
            }
        }),
{
}

/// Where some item of a list is no exchange, one of them is the first.
proof fn some_exchange_is_first_bad(items: Seq<Json>, i: int)
    requires
        0 <= i < items.len(),
        exchange_of(items[i]) is Err,
    ensures
        exists|k: int| first_bad_exchange(items, k),
    decreases i,
{
    if forall|j: int| 0 <= j < i ==> exchange_of(#[trigger] items[j]) is Ok {
        assert(first_bad_exchange(items, i));
    } else {
        let j = choose|j: int| 0 <= j < i && !(exchange_of(#[trigger] items[j]) is Ok);
        some_exchange_is_first_bad(items, j);
    }
}

/// Where some item of a list is no ticker, one of them is the first.
proof fn some_ticker_is_first_bad(items: Seq<Json>, i: int)
    requires
        0 <= i < items.len(),
        ticker_of(items[i]) is Err,
    ensures
        exists|k: int| first_bad_ticker(items, k),
    decreases i,
{
    if forall|j: int| 0 <= j < i ==> ticker_of(#[trigger] items[j]) is Ok {
        assert(first_bad_ticker(items, i));
    } else {
        let j = choose|j: int| 0 <= j < i && !(ticker_of(#[trigger] items[j]) is Ok);
        some_ticker_is_first_bad(items, j);
    }
}

/// A well-formed list of exchanges decodes to as many records as it has
/// items, the record at each position being the one that the item there
/// stands for; any other document does not decode.
pub proof fn exchange_list_decodes_item_by_item(body: Json)
    ensures
        exchanges_of(body) is Ok <==> is_exchange_list(body),
        exchanges_of(body) matches Ok(exchanges) ==> ({
            &&& body matches Json::Array(items)
            &&& exchanges.len() == items.len()
            &&& forall|i: int|
                0 <= i < items.len() ==> exchange_of(items[i]) == Ok::<ExchangeView, RecordFault>(
                    #[trigger] exchanges[i],
                )
        }),
{
    if let Json::Array(items) = body {
        if exists|i: int| first_bad_exchange(items, i) {
            let k = choose|i: int| first_bad_exchange(items, i);
            exchange_fields_map_one_to_one(items[k]);
        } else {
            assert forall|i: int| 0 <= i < items.len() implies is_exchange(
                #[trigger] items[i],
            ) by {
                exchange_fields_map_one_to_one(items[i]);
                if exchange_of(items[i]) is Err {
                    some_exchange_is_first_bad(items, i);
                }
            }
        }
    }
}

/// A well-formed list of tickers decodes to as many records as it has items,
/// the record at each position being the one that the item there stands for;
/// any other document does not decode.
pub proof fn ticker_list_decodes_item_by_item(body: Json)
    ensures
        tickers_of(body) is Ok <==> is_ticker_list(body),
        tickers_of(body) matches Ok(tickers) ==> ({
            &&& body matches Json::Array(items)
            &&& tickers.len() == items.len()
            &&& forall|i: int|
                0 <= i < items.len() ==> ticker_of(items[i]) == Ok::<TickerView, RecordFault>(
                    #[trigger] tickers[i],
                )
        }),
{
    if let Json::Array(items) = body {
        if exists|i: int| first_bad_ticker(items, i) {
            let k = choose|i: int| first_bad_ticker(items, i);
            ticker_fields_map_one_to_one(items[k]);
        } else {
            assert forall|i: int| 0 <= i < items.len() implies is_ticker(#[trigger] items[i]) by {
                ticker_fields_map_one_to_one(items[i]);
                if ticker_of(items[i]) is Err {
                    some_ticker_is_first_bad(items, i);
                }
            }
        }
    }
}

/// The ten spellings of the five kinds, letter for letter, and no other text,
/// spell a kind.
pub proof fn spelling_decides_kind(text: Seq<char>)
    ensures
        ticker_type_of(text) == Some(EODHDTickerType::CommonStock) <==> (text == "Common Stock"@
            || text == "common_stock"@),
        ticker_type_of(text) == Some(EODHDTickerType::PreferredStock) <==> (text
            == "Preferred Stock"@ || text == "preferred_stock"@),
        ticker_type_of(text) == Some(EODHDTickerType::Stock) <==> (text == "Stock"@ || text
            == "stock"@),
        ticker_type_of(text) == Some(EODHDTickerType::ETF) <==> (text == "ETF"@ || text == "etf"@),
        ticker_type_of(text) == Some(EODHDTickerType::Fund) <==> (text == "Fund"@ || text
            == "fund"@),
{
    reveal_strlit("Common Stock");
    reveal_strlit("common_stock");
    reveal_strlit("Preferred Stock");
    reveal_strlit("preferred_stock");
    reveal_strlit("Stock");
    reveal_strlit("stock");
    reveal_strlit("ETF");
    reveal_strlit("etf");
    reveal_strlit("Fund");
    reveal_strlit("fund");
    // The spellings of two different kinds differ in length.
    assert("Common Stock"@.len() == 12 && "common_stock"@.len() == 12);
    assert("Preferred Stock"@.len() == 15 && "preferred_stock"@.len() == 15);
    assert("Stock"@.len() == 5 && "stock"@.len() == 5);
    assert("ETF"@.len() == 3 && "etf"@.len() == 3);
    assert("Fund"@.len() == 4 && "fund"@.len() == 4);
}

/// Whether `part` stands somewhere in `text`.
pub open spec fn occurs_in(part: Seq<char>, text: Seq<char>) -> bool {
    exists|at: int|
        0 <= at && at + part.len() <= text.len() && #[trigger] text.subrange(
            at,
            at + part.len(),
        ) == part
}

/// A filter by kind adds `&type=` and the canonical spelling of the kind to
/// the end of the address that is built without a filter, and changes nothing
/// else; the address then holds `type=` followed by that spelling. The
/// canonical spelling of a kind spells that kind.
pub proof fn type_filter_round_trip(token: Seq<char>, exchange: Seq<char>, kind: EODHDTickerType)
    ensures
        tickers_url_of(token, exchange, Some(kind)) == tickers_url_of(token, exchange, None)
            + "&type="@ + kind.canonical(),
        occurs_in("type="@ + kind.canonical(), tickers_url_of(token, exchange, Some(kind))),
        ticker_type_of(kind.canonical()) == Some(kind),
{
    spelling_decides_kind(kind.canonical());
    reveal_strlit("&type=");
    reveal_strlit("type=");
    let plain = tickers_url_of(token, exchange, None);
    let url = tickers_url_of(token, exchange, Some(kind));
    let part = "type="@ + kind.canonical();
    let at: int = plain.len() as int + 1;
    assert(url.subrange(at, at + part.len()) =~= part);
}

/// Without a filter the address holds `type=` nowhere, unless the token or
/// the exchange code, which go in as they are, hold it themselves.
pub proof fn no_filter_leaves_type_out(token: Seq<char>, exchange: Seq<char>)
    ensures
        occurs_in("type="@, tickers_url_of(token, exchange, None)) <==> (occurs_in("type="@, token)
            || occurs_in("type="@, exchange)),
{
    let part = "type="@;
    let base = BASE_URL@;
    let path = "/exchange-symbol-list/"@;
    let query = "/?api_token="@;
    let format = "&fmt=json"@;
    let url = tickers_url_of(token, exchange, None);
    reveal_strlit("type=");
    reveal_strlit("https://eodhistoricaldata.com/api/");
    reveal_strlit("/exchange-symbol-list/");
    reveal_strlit("/?api_token=");
    reveal_strlit("&fmt=json");
    assert(part.len() == 5);
    assert(base.len() == 34 && path.len() == 22 && query.len() == 12 && format.len() == 9);
    // Where each part of the address begins.
    let exchange_at: int = 56;
    let query_at: int = exchange_at + exchange.len();
    let token_at: int = query_at + 12;
    let format_at: int = token_at + token.len();
    assert(url.len() == format_at + 9);
    if occurs_in(part, exchange) {
        let at = choose|at: int|
            0 <= at && at + part.len() <= exchange.len() && #[trigger] exchange.subrange(
                at,
                at + part.len(),
            ) == part;
        assert(url.subrange(exchange_at + at, exchange_at + at + part.len()) =~= part);
    }
    if occurs_in(part, token) {
        let at = choose|at: int|
            0 <= at && at + part.len() <= token.len() && #[trigger] token.subrange(
                at,
                at + part.len(),
            ) == part;
        assert(url.subrange(token_at + at, token_at + at + part.len()) =~= part);
    }
    if occurs_in(part, url) {
        let at = choose|at: int|
            0 <= at && at + part.len() <= url.len() && #[trigger] url.subrange(
                at,
                at + part.len(),
            ) == part;
        let window = url.subrange(at, at + 5);
        assert(window[0] == 't' && window[1] == 'y' && window[2] == 'p' && window[3] == 'e'
            && window[4] == '=');
        // The `=` of the occurrence lies in one of the six parts of the address.
        let sign = at + 4;
        assert(url[sign] == '=' && url[sign - 1] == 'e');
        if sign < 34 {
            // The base address holds no `=`.
            assert(url[sign] == base[sign]);
            assert(false);
        } else if sign < exchange_at {
            // Nor does the path.
            assert(url[sign] == path[sign - 34]);
            assert(false);
        } else if sign < query_at {
            // In the exchange code: the occurrence cannot begin before it,
            // where a `/` stands.
            if at < exchange_at {
                assert(url[exchange_at - 1] == path[21]);
                assert(url[exchange_at - 1] == window[exchange_at - 1 - at]);
                assert(false);
            }
            assert(exchange.subrange(at - exchange_at, at - exchange_at + 5) =~= part);
        } else if sign < token_at {
            // The only `=` between exchange code and token follows an `n`.
            assert(url[sign] == query[sign - query_at]);
            assert(sign - query_at == 11);
            assert(url[sign - 1] == query[10]);
            assert(false);
        } else if sign < format_at {
            // In the token: the occurrence cannot begin before it, where a
            // `=` stands.
            if at < token_at {
                assert(url[token_at - 1] == query[11]);
                assert(url[token_at - 1] == window[token_at - 1 - at]);
                assert(false);
            }
            assert(token.subrange(at - token_at, at - token_at + 5) =~= part);
        } else {
            // The only `=` after the token follows a `t`.
            assert(url[sign] == format[sign - format_at]);
            assert(sign - format_at == 4);
            assert(url[sign - 1] == format[3]);
            assert(false);
        }
    }
}

/// An answer with a status outside 200..=299 is a request failure for both
/// listings, whatever its body holds.
pub proof fn refused_status_is_request_failure(status: u16, body: BodyView)
    requires
        !is_success(status),
    ensures
        exchanges_outcome(ReplyView::Answered { status, body }) == Err::<
            Seq<ExchangeView>,
            ErrorView,
        >(
            ErrorView::RequestFailed {
                description: "request failed"@,
                cause: RequestCauseView::Status { code: status },
            },
        ),
        tickers_outcome(ReplyView::Answered { status, body }) == Err::<Seq<TickerView>, ErrorView>(
            ErrorView::RequestFailed {
                description: "request failed"@,
                cause: RequestCauseView::Status { code: status },
            },
        ),
{
}

/// A transport that gave up is a request failure for both listings, and its
/// message is kept.
pub proof fn failed_transport_is_request_failure(detail: Seq<char>)
    ensures
        exchanges_outcome(ReplyView::Unreachable { detail }) == Err::<Seq<ExchangeView>, ErrorView>(
            ErrorView::RequestFailed {
                description: "request failed"@,
                cause: RequestCauseView::Transport { detail },
            },
        ),
        tickers_outcome(ReplyView::Unreachable { detail }) == Err::<Seq<TickerView>, ErrorView>(
            ErrorView::RequestFailed {
                description: "request failed"@,
                cause: RequestCauseView::Transport { detail },
            },
        ),
{
}

/// A successful answer lists its records exactly when its body is a
/// well-formed list, and is a decode failure otherwise.
pub proof fn malformed_body_is_decode_failure(status: u16, body: BodyView)
    requires
        is_success(status),
    ensures
        exchanges_outcome(ReplyView::Answered { status, body }) is Ok <==> (body matches BodyView::Json(
            json,
        ) && is_exchange_list(json)),
        exchanges_outcome(ReplyView::Answered { status, body }) matches Err(error)
            ==> error is DecodeFailed,
        tickers_outcome(ReplyView::Answered { status, body }) is Ok <==> (body matches BodyView::Json(
            json,
        ) && is_ticker_list(json)),
        tickers_outcome(ReplyView::Answered { status, body }) matches Err(error)
            ==> error is DecodeFailed,
{
    if let BodyView::Json(json) = body {
        exchange_list_decodes_item_by_item(json);
        ticker_list_decodes_item_by_item(json);
    }
}

} // verus!
