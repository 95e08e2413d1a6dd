//! Health checks for x402 payment-gated HTTP endpoints: the payment cycle
//! that a check drives (402 response, payment requirements, signing,
//! submission with retries, settlement), the results and their report, the
//! wallet's part in paying, and the parsing of durations.

pub mod amount;
pub mod checker;
pub mod config;
pub mod duration;
pub mod encoding;
pub mod error;
pub mod text;
pub mod wallet;
