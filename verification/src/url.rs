//! The addresses of the two listings.

use vstd::prelude::*;
use crate::exchanges::EODHDTickerType;

verus! {

/// The address under which every endpoint of the API lies.
pub const BASE_URL: &'static str = "https://eodhistoricaldata.com/api/";

/// The address of the list of exchanges for the API token `token`.
pub open spec fn exchanges_url_of(token: Seq<char>) -> Seq<char> {
    BASE_URL@ + "/exchanges-list/?api_token="@ + token + "&fmt=json"@
}

/// The address of the list of tickers of `exchange` for the API token `token`.
/// With a `kind`, the list is narrowed to it by a `type` parameter, which
/// comes last; without one, the address has no such parameter.
pub open spec fn tickers_url_of(
    token: Seq<char>,
    exchange: Seq<char>,
    kind: Option<EODHDTickerType>,
) -> Seq<char> {
    let plain = BASE_URL@ + "/exchange-symbol-list/"@ + exchange + "/?api_token="@ + token
        + "&fmt=json"@;
    match kind {
        None => plain,
        Some(kind) => plain + "&type="@ + kind.canonical(),
    }
}

/// Builds the address of the list of exchanges. `token` goes in as it is.
pub fn exchanges_url(token: &str) -> (url: String)
    ensures
        url@ == exchanges_url_of(token@),
{
    let mut url = BASE_URL.to_owned();
    url.append("/exchanges-list/?api_token=");
    url.append(token);
    url.append("&fmt=json");
    url
}

/// Builds the address of the list of tickers of `exchange`, narrowed to
/// `ticker_type` where one is given. `exchange` and `token` go in as they are.
pub fn tickers_url(token: &str, exchange: &str, ticker_type: Option<EODHDTickerType>) -> (url:
    String)
    ensures
        url@ == tickers_url_of(token@, exchange@, ticker_type),
{
    let mut url = BASE_URL.to_owned();
    url.append("/exchange-symbol-list/");
    url.append(exchange);
    url.append("/?api_token=");
    url.append(token);
    url.append("&fmt=json");
    if let Some(kind) = ticker_type {
        url.append("&type=");
        url.append(kind.query_value());
    }
    url
}

} // verus!
