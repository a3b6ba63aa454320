//! An agent's core for a custodial exchange account: it signs requests, reads
//! what the exchange answers, and decides when the balance is withdrawn and
//! to which of two addresses.

pub mod amount;
pub mod client;
pub mod decimal;
pub mod error;
pub mod json;
pub mod request;
pub mod response;
pub mod service;
pub mod signer;

pub use amount::Amount;
pub use client::OkCoinClient;
pub use error::OkCoinClientError;
pub use json::{parse_json, Json, Member};
pub use request::{Destination, Header, SignedRequest, WithdrawalRequest};
pub use response::{BalanceQuote, Reply};
pub use service::{default_timeout, Action, Event, Service};
pub use signer::{message_to_sign, sign, timestamp, HttpMethod};
