//! The listings of the EOD Historical Data API, without the transport.
//!
//! The API offers two listings: the exchanges it covers, and the tickers of one
//! exchange, which a request may narrow to one kind of ticker. This library
//! builds the address of each request and decides what a reply means. Sending
//! the request is left to the caller, who hands back what came of it as an
//! [`http::HttpReply`]: the status, and the body as a [`json::JsonValue`].
//!
//! - [`url`] builds the addresses.
//! - [`exchanges`] holds the records and the two listings.
//! - [`decode`] reads records out of a JSON document; [`record`] reads single
//!   fields; [`json`] is the document itself.
//! - [`http`] is the reply, and [`error`] the two ways in which a listing fails.
//! - [`laws`] proves what holds of every listing.

pub mod decode;
pub mod error;
pub mod exchanges;
pub mod http;
pub mod json;
pub mod laws;
pub mod record;
pub mod text;
pub mod url;
