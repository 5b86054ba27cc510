//! From a JSON document to the records of a listing.
//!
//! A listing is a JSON array whose items are records. A record is a JSON
//! object; keys that the record does not know are passed over. The fields of a
//! record are read in the order of their declaration, and the first that cannot
//! be read is the one reported. Of a listing, the first item that is not a
//! record is the one reported.

use vstd::prelude::*;
use crate::error::{DecodeCause, DecodeCauseView};
use crate::exchanges::{
    exchange_views, ticker_type_of, ticker_views, EODHDExchange, EODHDExchangeTicker,
    EODHDTickerType, ExchangeView, TickerView,
};
use crate::json::{find_member, items_view, member, members_view, Json, JsonValue, Member};
use crate::record::{
    optional_text_member, read_optional_text, read_text, text_member, Field, FieldFault,
    RecordFault,
};

verus! {

/// The fault of a required text field, if it has one.
pub open spec fn text_fault(members: Seq<(Seq<char>, Json)>, field: Field) -> Option<RecordFault> {
    match text_member(members, field) {
        Ok(_) => None,
        Err(fault) => Some(RecordFault::Field { field, fault }),
    }
}

/// The kind of a ticker as its `Type` member gives it. A value that spells no
/// known kind, a value that is no string, and a missing member all stand for
/// an unknown kind; only a repeated key is a fault.
pub open spec fn kind_member(members: Seq<(Seq<char>, Json)>) -> Result<
    Option<EODHDTickerType>,
    FieldFault,
> {
    match member(members, Field::Type.key()) {
        Member::Missing => Ok(None),
        Member::Repeated => Err(FieldFault::Repeated),
        Member::Unique(Json::Text(text)) => Ok(ticker_type_of(text)),
        Member::Unique(_) => Ok(None),
    }
}

/// The first fault among the fields of an exchange.
pub open spec fn exchange_fault(members: Seq<(Seq<char>, Json)>) -> Option<RecordFault> {
    if text_fault(members, Field::Name) is Some {
        text_fault(members, Field::Name)
    } else if text_fault(members, Field::Code) is Some {
        text_fault(members, Field::Code)
    } else if text_fault(members, Field::Currency) is Some {
        text_fault(members, Field::Currency)
    } else if text_fault(members, Field::Country) is Some {
        text_fault(members, Field::Country)
    } else if text_fault(members, Field::CountryIso2) is Some {
        text_fault(members, Field::CountryIso2)
    } else {
        text_fault(members, Field::CountryIso3)
    }
}

/// The exchange that a JSON value stands for.
pub open spec fn exchange_of(item: Json) -> Result<ExchangeView, RecordFault> {
    match item {
        Json::Object(members) => match exchange_fault(members) {
            Some(fault) => Err(fault),
            None => Ok(
                ExchangeView {
                    name: text_member(members, Field::Name)->Ok_0,
                    code: text_member(members, Field::Code)->Ok_0,
                    currency: text_member(members, Field::Currency)->Ok_0,
                    country: text_member(members, Field::Country)->Ok_0,
                    country_iso2: text_member(members, Field::CountryIso2)->Ok_0,
                    country_iso3: text_member(members, Field::CountryIso3)->Ok_0,
                },
            ),
        },
        _ => Err(RecordFault::NotAnObject),
    }
}

/// The first fault among the fields of a ticker.
pub open spec fn ticker_fault(members: Seq<(Seq<char>, Json)>) -> Option<RecordFault> {
    if text_fault(members, Field::Code) is Some {
        text_fault(members, Field::Code)
    } else if text_fault(members, Field::Name) is Some {
        text_fault(members, Field::Name)
    } else if text_fault(members, Field::Country) is Some {
        text_fault(members, Field::Country)
    } else if text_fault(members, Field::Exchange) is Some {
        text_fault(members, Field::Exchange)
    } else if text_fault(members, Field::Currency) is Some {
        text_fault(members, Field::Currency)
    } else if let Err(fault) = kind_member(members) {
        Some(RecordFault::Field { field: Field::Type, fault })
    } else if let Err(fault) = optional_text_member(members, Field::Isin) {
        Some(RecordFault::Field { field: Field::Isin, fault })
    } else {
        None
    }
}

/// The ticker that a JSON value stands for.
pub open spec fn ticker_of(item: Json) -> Result<TickerView, RecordFault> {
    match item {
        Json::Object(members) => match ticker_fault(members) {
            Some(fault) => Err(fault),
            None => Ok(
                TickerView {
                    code: text_member(members, Field::Code)->Ok_0,
                    name: text_member(members, Field::Name)->Ok_0,
                    country: text_member(members, Field::Country)->Ok_0,
                    exchange: text_member(members, Field::Exchange)->Ok_0,
                    currency: text_member(members, Field::Currency)->Ok_0,
                    ticker_type: kind_member(members)->Ok_0,
                    isin: optional_text_member(members, Field::Isin)->Ok_0,
                },
            ),
        },
        _ => Err(RecordFault::NotAnObject),
    }
}

/// Whether `i` is the position of the first item that is no exchange.
pub open spec fn first_bad_exchange(items: Seq<Json>, i: int) -> bool {
    &&& 0 <= i < items.len()
    &&& exchange_of(items[i]) is Err
    &&& forall|j: int| 0 <= j < i ==> exchange_of(#[trigger] items[j]) is Ok
}

/// The exchanges that a JSON document lists, in its order.
pub open spec fn exchanges_of(body: Json) -> Result<Seq<ExchangeView>, DecodeCauseView> {
    match body {
        Json::Array(items) => if exists|i: int| first_bad_exchange(items, i) {
            let index = choose|i: int| first_bad_exchange(items, i);
            Err(DecodeCauseView::Record { index, fault: exchange_of(items[index])->Err_0 })
        } else {
            Ok(Seq::new(items.len(), |i: int| exchange_of(items[i])->Ok_0))
        },
        _ => Err(DecodeCauseView::NotAnArray),
    }
}

/// Whether `i` is the position of the first item that is no ticker.
pub open spec fn first_bad_ticker(items: Seq<Json>, i: int) -> bool {
    &&& 0 <= i < items.len()
    &&& ticker_of(items[i]) is Err
    &&& forall|j: int| 0 <= j < i ==> ticker_of(#[trigger] items[j]) is Ok
}

/// The tickers that a JSON document lists, in its order.
pub open spec fn tickers_of(body: Json) -> Result<Seq<TickerView>, DecodeCauseView> {
    match body {
        Json::Array(items) => if exists|i: int| first_bad_ticker(items, i) {
            let index = choose|i: int| first_bad_ticker(items, i);
            Err(DecodeCauseView::Record { index, fault: ticker_of(items[index])->Err_0 })
        } else {
            Ok(Seq::new(items.len(), |i: int| ticker_of(items[i])->Ok_0))
        },
        _ => Err(DecodeCauseView::NotAnArray),
    }
}

/// Reads a required text field of a record.
fn required_text(members: &Vec<(String, JsonValue)>, field: Field) -> (read: Result<
    String,
    RecordFault,
>)
    ensures
        (match text_member(members_view(members@), field) {
            Ok(text) => read matches Ok(s) && s@ == text,
            Err(fault) => read == Err::<String, RecordFault>(RecordFault::Field { field, fault }),
        }),
{
    match read_text(members, field) {
        Ok(text) => Ok(text),
        Err(fault) => Err(RecordFault::Field { field, fault }),
    }
}

/// Reads the kind of a ticker from the `Type` member of its record.
pub fn read_kind(members: &Vec<(String, JsonValue)>) -> (read: Result<
    Option<EODHDTickerType>,
    FieldFault,
>)
    ensures
        read == kind_member(members_view(members@)),
{
    match find_member(members, Field::Type.as_str()) {
        Member::Missing => Ok(None),
        Member::Repeated => Err(FieldFault::Repeated),
        Member::Unique(value) => match value {
            JsonValue::Text(text) => Ok(EODHDTickerType::from_text(text.as_str())),
            _ => Ok(None),
        },
    }
}

/// Reads one exchange.
pub fn decode_exchange(item: &JsonValue) -> (decoded: Result<EODHDExchange, RecordFault>)
    ensures
        (match exchange_of(item@) {
            Ok(exchange) => decoded matches Ok(record) && record@ == exchange,
            Err(fault) => decoded == Err::<EODHDExchange, RecordFault>(fault),
        }),
{
    match item {
        JsonValue::Object(members) => {
            let name = required_text(members, Field::Name)?;
            let code = required_text(members, Field::Code)?;
            let currency = required_text(members, Field::Currency)?;
            let country = required_text(members, Field::Country)?;
            let country_iso2 = required_text(members, Field::CountryIso2)?;
            let country_iso3 = required_text(members, Field::CountryIso3)?;
            Ok(EODHDExchange { name, code, currency, country, country_iso2, country_iso3 })
        },
        _ => Err(RecordFault::NotAnObject),
    }
}

/// Reads one ticker.
pub fn decode_ticker(item: &JsonValue) -> (decoded: Result<EODHDExchangeTicker, RecordFault>)
    ensures
        (match ticker_of(item@) {
            Ok(ticker) => decoded matches Ok(record) && record@ == ticker,
            Err(fault) => decoded == Err::<EODHDExchangeTicker, RecordFault>(fault),
        }),
{
    match item {
        JsonValue::Object(members) => {
            let code = required_text(members, Field::Code)?;
            let name = required_text(members, Field::Name)?;
            let country = required_text(members, Field::Country)?;
            let exchange = required_text(members, Field::Exchange)?;
            let currency = required_text(members, Field::Currency)?;
            let ticker_type = match read_kind(members) {
                Ok(kind) => kind,
                Err(fault) => {
                    return Err(RecordFault::Field { field: Field::Type, fault });
                },
            };
            let isin = match read_optional_text(members, Field::Isin) {
                Ok(isin) => isin,
                Err(fault) => {
                    return Err(RecordFault::Field { field: Field::Isin, fault });
                },
            };
            Ok(EODHDExchangeTicker { code, name, country, exchange, currency, ticker_type, isin })
        },
        _ => Err(RecordFault::NotAnObject),
    }
}

/// Reads a list of exchanges, keeping the order of the document.
pub fn decode_exchanges(body: &JsonValue) -> (decoded: Result<Vec<EODHDExchange>, DecodeCause>)
    ensures
        (match exchanges_of(body@) {
            Ok(exchanges) => decoded matches Ok(records) && exchange_views(records@) == exchanges,
            Err(cause) => decoded matches Err(c) && c@ == cause,
        }),
{
    match body {
        JsonValue::Array(items) => {
            let ghost model = items_view(items@);
            let mut records: Vec<EODHDExchange> = Vec::new();
            let mut i: usize = 0;
            while i < items.len()
                invariant
                    i <= items.len(),
                    model == items_view(items@),
                    body@ == Json::Array(model),
                    records@.len() == i,
                    forall|j: int|
                        0 <= j < i ==> exchange_of(#[trigger] model[j]) == Ok::<
                            ExchangeView,
                            RecordFault,
                        >(records@[j]@),
                decreases items.len() - i,
            {
                match decode_exchange(&items[i]) {
                    Ok(record) => {
                        records.push(record);
                    },
                    Err(fault) => {
                        assert(first_bad_exchange(model, i as int));
                        assert(forall|k: int| first_bad_exchange(model, k) ==> k == i);
                        return Err(DecodeCause::Record { index: i, fault });
                    },
                }
                i += 1;
            }
            assert(exchange_views(records@) =~= Seq::new(
                model.len(),
                |i: int| exchange_of(model[i])->Ok_0,
            ));
            Ok(records)
        },
        _ => Err(DecodeCause::NotAnArray),
    }
}

/// Reads a list of tickers, keeping the order of the document.
pub fn decode_tickers(body: &JsonValue) -> (decoded: Result<Vec<EODHDExchangeTicker>, DecodeCause>)
    ensures
        (match tickers_of(body@) {
            Ok(tickers) => decoded matches Ok(records) && ticker_views(records@) == tickers,
            Err(cause) => decoded matches Err(c) && c@ == cause,
        }),
{
    match body {
        JsonValue::Array(items) => {
            let ghost model = items_view(items@);
            let mut records: Vec<EODHDExchangeTicker> = Vec::new();
            let mut i: usize = 0;
            while i < items.len()
                invariant
                    i <= items.len(),
                    model == items_view(items@),
                    body@ == Json::Array(model),
                    records@.len() == i,
                    forall|j: int|
                        0 <= j < i ==> ticker_of(#[trigger] model[j]) == Ok::<
                            TickerView,
                            RecordFault,
                        >(records@[j]@),
                decreases items.len() - i,
            {
                match decode_ticker(&items[i]) {
                    Ok(record) => {
                        records.push(record);
                    },
                    Err(fault) => {
                        assert(first_bad_ticker(model, i as int));
                        assert(forall|k: int| first_bad_ticker(model, k) ==> k == i);
                        return Err(DecodeCause::Record { index: i, fault });
                    },
                }
                i += 1;
            }
            assert(ticker_views(records@) =~= Seq::new(
                model.len(),
                |i: int| ticker_of(model[i])->Ok_0,
            ));
            Ok(records)
        },
        _ => Err(DecodeCause::NotAnArray),
    }
}

} // verus!
