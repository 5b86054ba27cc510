//! The records of the two listings, and the kinds of ticker that the API tells apart.

use vstd::prelude::*;
use crate::decode::{decode_exchanges, decode_tickers, exchanges_of, tickers_of};
use crate::error::{DecodeCause, DecodeCauseView, EODHDError, ErrorView};
use crate::http::{accept, body_of, Body, BodyView, HttpReply, ReplyView};
use crate::text::text_eq;

verus! {

/// A stock exchange that the API covers.
#[derive(Debug, Clone, PartialEq, Eq)]
pub struct EODHDExchange {
    /// Name, e.g. Toronto Exchange.
    pub name: String,
    /// Code, e.g. TO.
    pub code: String,
    /// Currency, e.g. CAD.
    pub currency: String,
    /// Full country name, e.g. Canada.
    pub country: String,
    /// Two-letter country abbreviation, e.g. CA.
    pub country_iso2: String,
    /// Three-letter country abbreviation, e.g. CAN.
    pub country_iso3: String,
}

/// The mathematical value of an [`EODHDExchange`].
pub struct ExchangeView {
    pub name: Seq<char>,
    pub code: Seq<char>,
    pub currency: Seq<char>,
    pub country: Seq<char>,
    pub country_iso2: Seq<char>,
    pub country_iso3: Seq<char>,
}

impl View for EODHDExchange {
    type V = ExchangeView;

    open spec fn view(&self) -> ExchangeView {
        ExchangeView {
            name: self.name@,
            code: self.code@,
            currency: self.currency@,
            country: self.country@,
            country_iso2: self.country_iso2@,
            country_iso3: self.country_iso3@,
        }
    }
}

/// The kind of a ticker.
#[derive(Debug, Clone, Copy, PartialEq, Eq)]
pub enum EODHDTickerType {
    CommonStock,
    PreferredStock,
    /// Both common and preferred stock.
    Stock,
    ETF,
    Fund,
}

impl EODHDTickerType {
    /// The spelling that a request uses in its `type` parameter.
    pub open spec fn canonical(self) -> Seq<char> {
        match self {
            EODHDTickerType::CommonStock => "common_stock"@,
            EODHDTickerType::PreferredStock => "preferred_stock"@,
            EODHDTickerType::Stock => "stock"@,
            EODHDTickerType::ETF => "etf"@,
            EODHDTickerType::Fund => "fund"@,
        }
    }

    /// The spelling that the API uses in the `Type` field of a record.
    pub open spec fn label(self) -> Seq<char> {
        match self {
            EODHDTickerType::CommonStock => "Common Stock"@,
            EODHDTickerType::PreferredStock => "Preferred Stock"@,
            EODHDTickerType::Stock => "Stock"@,
            EODHDTickerType::ETF => "ETF"@,
            EODHDTickerType::Fund => "Fund"@,
        }
    }

    /// Whether `text` is one of the two spellings of this kind.
    pub open spec fn spelled(self, text: Seq<char>) -> bool {
        text == self.canonical() || text == self.label()
    }

    /// The spelling that a request uses in its `type` parameter.
    pub fn query_value(self) -> (text: &'static str)
        ensures
            text@ == self.canonical(),
    {
        match self {
            EODHDTickerType::CommonStock => "common_stock",
            EODHDTickerType::PreferredStock => "preferred_stock",
            EODHDTickerType::Stock => "stock",
            EODHDTickerType::ETF => "etf",
            EODHDTickerType::Fund => "fund",
        }
    }

    /// The kind that `text` spells; `None` where it spells none.
    pub fn from_text(text: &str) -> (kind: Option<EODHDTickerType>)
        ensures
            kind == ticker_type_of(text@),
    {
        if text_eq(text, "common_stock") || text_eq(text, "Common Stock") {
            Some(EODHDTickerType::CommonStock)
        } else if text_eq(text, "preferred_stock") || text_eq(text, "Preferred Stock") {
            Some(EODHDTickerType::PreferredStock)
        } else if text_eq(text, "stock") || text_eq(text, "Stock") {
            Some(EODHDTickerType::Stock)
        } else if text_eq(text, "etf") || text_eq(text, "ETF") {
            Some(EODHDTickerType::ETF)
        } else if text_eq(text, "fund") || text_eq(text, "Fund") {
            Some(EODHDTickerType::Fund)
        } else {
            None
        }
    }
}

/// The kind that `text` spells, in either spelling and letter for letter;
/// `None` where it spells none.
pub open spec fn ticker_type_of(text: Seq<char>) -> Option<EODHDTickerType> {
    if EODHDTickerType::CommonStock.spelled(text) {
        Some(EODHDTickerType::CommonStock)
    } else if EODHDTickerType::PreferredStock.spelled(text) {
        Some(EODHDTickerType::PreferredStock)
    } else if EODHDTickerType::Stock.spelled(text) {
        Some(EODHDTickerType::Stock)
    } else if EODHDTickerType::ETF.spelled(text) {
        Some(EODHDTickerType::ETF)
    } else if EODHDTickerType::Fund.spelled(text) {
        Some(EODHDTickerType::Fund)
    } else {
        None
    }
}

/// A ticker that is listed on an exchange.
#[derive(Debug, Clone, PartialEq, Eq)]
pub struct EODHDExchangeTicker {
    /// Ticker code, e.g. CBA.
    pub code: String,
    /// Ticker name, e.g. Commonwealth Bank Of Australia.
    pub name: String,
    /// Full country name.
    pub country: String,
    /// Exchange code.
    pub exchange: String,
    /// Exchange currency.
    pub currency: String,
    /// Ticker kind; `None` where the API names none that is known.
    pub ticker_type: Option<EODHDTickerType>,
    /// ISIN, which identifies the ticker across exchanges.
    pub isin: Option<String>,
}

/// The mathematical value of an [`EODHDExchangeTicker`].
pub struct TickerView {
    pub code: Seq<char>,
    pub name: Seq<char>,
    pub country: Seq<char>,
    pub exchange: Seq<char>,
    pub currency: Seq<char>,
    pub ticker_type: Option<EODHDTickerType>,
    pub isin: Option<Seq<char>>,
}

impl View for EODHDExchangeTicker {
    type V = TickerView;

    open spec fn view(&self) -> TickerView {
        TickerView {
            code: self.code@,
            name: self.name@,
            country: self.country@,
            exchange: self.exchange@,
            currency: self.currency@,
            ticker_type: self.ticker_type,
            isin: match self.isin {
                Some(isin) => Some(isin@),
                None => None,
            },
        }
    }
}

/// The values of a list of exchanges, in order.
pub open spec fn exchange_views(records: Seq<EODHDExchange>) -> Seq<ExchangeView> {
    records.map_values(|record: EODHDExchange| record@)
}

/// The values of a list of tickers, in order.
pub open spec fn ticker_views(records: Seq<EODHDExchangeTicker>) -> Seq<TickerView> {
    records.map_values(|record: EODHDExchangeTicker| record@)
}

/// What a reply to the request for the list of exchanges comes to.
pub open spec fn exchanges_outcome(reply: ReplyView) -> Result<Seq<ExchangeView>, ErrorView> {
    match body_of(reply) {
        Err(cause) => Err(ErrorView::RequestFailed { description: "request failed"@, cause }),
        Ok(BodyView::Unreadable { detail }) => Err(
            ErrorView::DecodeFailed {
                description: "parsing exchanges failed"@,
                cause: DecodeCauseView::Syntax { detail },
            },
        ),
        Ok(BodyView::Json(body)) => match exchanges_of(body) {
            Ok(exchanges) => Ok(exchanges),
            Err(cause) => Err(
                ErrorView::DecodeFailed { description: "parsing exchanges failed"@, cause },
            ),
        },
    }
}

/// What a reply to the request for a list of tickers comes to.
pub open spec fn tickers_outcome(reply: ReplyView) -> Result<Seq<TickerView>, ErrorView> {
    match body_of(reply) {
        Err(cause) => Err(ErrorView::RequestFailed { description: "request failed"@, cause }),
        Ok(BodyView::Unreadable { detail }) => Err(
            ErrorView::DecodeFailed {
                description: "parsing tickers failed"@,
                cause: DecodeCauseView::Syntax { detail },
            },
        ),
        Ok(BodyView::Json(body)) => match tickers_of(body) {
            Ok(tickers) => Ok(tickers),
            Err(cause) => Err(
                ErrorView::DecodeFailed { description: "parsing tickers failed"@, cause },
            ),
        },
    }
}

/// Lists the exchanges that `reply` carries. `reply` is what the GET of
/// [`exchanges_url`](crate::url::exchanges_url) came to.
///
/// A failed transport and a status outside 200..=299 are request failures,
/// whatever the body holds. A body that is no JSON array of exchanges is a
/// decode failure. Otherwise every exchange is returned, in the order of the
/// body.
pub fn get_exchanges(reply: &HttpReply) -> (listed: Result<Vec<EODHDExchange>, EODHDError>)
    ensures
        (match exchanges_outcome(reply@) {
            Ok(exchanges) => listed matches Ok(records) && exchange_views(records@) == exchanges,
            Err(error) => listed matches Err(e) && e@ == error,
        }),
{
    let body = match accept(reply) {
        Ok(body) => body,
        Err(cause) => {
            return Err(
                EODHDError::RequestFailed { description: "request failed".to_owned(), cause },
            );
        },
    };
    let decoded = match body {
        Body::Unreadable { detail } => Err(DecodeCause::Syntax { detail: detail.clone() }),
        Body::Json(value) => decode_exchanges(value),
    };
    match decoded {
        Ok(records) => Ok(records),
        Err(cause) => Err(
            EODHDError::DecodeFailed { description: "parsing exchanges failed".to_owned(), cause },
        ),
    }
}

/// Lists the tickers that `reply` carries. `reply` is what the GET of
/// [`tickers_url`](crate::url::tickers_url) came to.
///
/// A failed transport and a status outside 200..=299 are request failures,
/// whatever the body holds. A body that is no JSON array of tickers is a
/// decode failure. Otherwise every ticker is returned, in the order of the
/// body; one whose `Type` names no known kind has no kind.
pub fn get_tickers(reply: &HttpReply) -> (listed: Result<Vec<EODHDExchangeTicker>, EODHDError>)
    ensures
        (match tickers_outcome(reply@) {
            Ok(tickers) => listed matches Ok(records) && ticker_views(records@) == tickers,
            Err(error) => listed matches Err(e) && e@ == error,
        }),
{
    let body = match accept(reply) {
        Ok(body) => body,
        Err(cause) => {
            return Err(
                EODHDError::RequestFailed { description: "request failed".to_owned(), cause },
            );
        },
    };
    let decoded = match body {
        Body::Unreadable { detail } => Err(DecodeCause::Syntax { detail: detail.clone() }),
        Body::Json(value) => decode_tickers(value),
    };
    match decoded {
        Ok(records) => Ok(records),
        Err(cause) => Err(
            EODHDError::DecodeFailed { description: "parsing tickers failed".to_owned(), cause },
        ),
    }
}

} // verus!
