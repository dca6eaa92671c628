//! A typed client library for the SEC EDGAR data service.
//!
//! The library holds the logic of the client: identifier formatting, the
//! endpoint catalog, the parameter encodings (taxonomy, unit, period), the
//! classification of responses, the request-rate governor's state machine,
//! the tabular ticker lists and the submission-history helpers. The network,
//! the file system and JSON decoding are left to the caller.

mod text;

pub mod archive;
pub mod cik;
pub mod config;
pub mod endpoints;
pub mod error;
pub mod select;
pub mod http;
pub mod json;
pub mod rate_limit;
pub mod submission;
pub mod tickers;
pub mod types;
