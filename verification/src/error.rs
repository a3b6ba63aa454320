//! What can go wrong in a call to the exchange.

use crate::decimal::{decimal_text, u16_text};
use vstd::prelude::*;
use vstd::string::StringExecFns;

verus! {

/// The failures of one call to the exchange. None of them is recovered from:
/// each is handed to the caller.
#[derive(Debug)]
pub enum OkCoinClientError {
    /// A request could not be written as JSON, or a response could not be
    /// read as the JSON that is expected.
    Serialization,
    /// The transport failed: no response came back.
    Network,
    /// The response's HTTP status is not a success. Holds the status and,
    /// where the body holds the exchange's envelope, its code and message.
    RequestFailed(u16, Option<u16>, Option<String>),
    /// The HTTP status is a success, but the exchange reports a code other
    /// than zero. Holds the code and the message.
    ApiRequest(u16, String),
    /// The exchange reports success and sends no payload.
    EmptyResponse,
}

/// The mathematical value of an [`OkCoinClientError`].
pub enum ErrorView {
    Serialization,
    Network,
    RequestFailed(u16, Option<u16>, Option<Seq<char>>),
    ApiRequest(u16, Seq<char>),
    EmptyResponse,
}

impl View for OkCoinClientError {
    type V = ErrorView;

    open spec fn view(&self) -> ErrorView {
        match self {
            OkCoinClientError::Serialization => ErrorView::Serialization,
            OkCoinClientError::Network => ErrorView::Network,
            OkCoinClientError::RequestFailed(status, code, message) => ErrorView::RequestFailed(
                *status,
                *code,
                match message {
                    Some(m) => Some(m@),
                    None => None,
                },
            ),
            OkCoinClientError::ApiRequest(code, message) => ErrorView::ApiRequest(*code, message@),
            OkCoinClientError::EmptyResponse => ErrorView::EmptyResponse,
        }
    }
}

impl ErrorView {
    /// The sentence that describes the failure to a reader.
    pub open spec fn description(self) -> Seq<char> {
        match self {
            ErrorView::Serialization => "(de)serializing from/to json failed"@,
            ErrorView::Network => "the request to the exchange failed in transport"@,
            ErrorView::RequestFailed(status, Some(code), Some(message)) =>
                "HTTP error: HTTP status code: "@ + decimal_text(status as nat)
                    + ", exchange code: "@ + decimal_text(code as nat) + "; message: "@ + message,
            ErrorView::RequestFailed(status, _, _) => "HTTP status code "@ + decimal_text(
                status as nat,
            ),
            ErrorView::ApiRequest(code, message) =>
                "OkCoin API request finished with error: code "@ + decimal_text(code as nat)
                    + ", message: \""@ + message + "\""@,
            ErrorView::EmptyResponse => "API request succeed but response is empty"@,
        }
    }
}

impl OkCoinClientError {
    /// Describes the failure in one sentence.
    pub fn description(&self) -> (text: String)
        ensures
            text@ == self@.description(),
    {
        match self {
            OkCoinClientError::Serialization => String::from_str(
                "(de)serializing from/to json failed",
            ),
            OkCoinClientError::Network => String::from_str(
                "the request to the exchange failed in transport",
            ),
            OkCoinClientError::RequestFailed(status, Some(code), Some(message)) => {
                let mut text = String::from_str("HTTP error: HTTP status code: ");
                text.append(u16_text(*status).as_str());
                text.append(", exchange code: ");
                text.append(u16_text(*code).as_str());
                text.append("; message: ");
                text.append(message.as_str());
                text
            },
            OkCoinClientError::RequestFailed(status, _, _) => {
                let mut text = String::from_str("HTTP status code ");
                text.append(u16_text(*status).as_str());
                text
            },
            OkCoinClientError::ApiRequest(code, message) => {
                let mut text = String::from_str("OkCoin API request finished with error: code ");
                text.append(u16_text(*code).as_str());
                text.append(", message: \"");
                text.append(message.as_str());
                text.append("\"");
                text
            },
            OkCoinClientError::EmptyResponse => String::from_str(
                "API request succeed but response is empty",
            ),
        }
    }
}

} // verus!
