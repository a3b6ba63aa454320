//! The OkCoin client: the requests it sends and the reading of what comes
//! back. Sending is the caller's part; the client builds the request and
//! judges the reply.

use crate::amount::Amount;
use crate::error::{ErrorView, OkCoinClientError};
use crate::json::parse_json;
use crate::request::{
    authenticated_request, withdrawal_body_text, Header, SignedRequest, WithdrawalRequest,
    URL_BALANCE, URL_BASE, URL_WITHDRAWAL,
};
use crate::response::{
    balance_from_document, balance_of_quote, balance_reply, withdrawal_from_document,
    withdrawal_reply, BalanceQuote, QuoteView, Reply,
};
use crate::signer::{rfc3339_millis_text, sign, timestamp, HttpMethod, TIMESTAMP_LIMIT_MILLIS};
use vstd::prelude::*;
use vstd::string::StringExecFns;

verus! {

/// The credentials of one account on the exchange.
pub struct OkCoinClient {
    api_key: String,
    passphrase: String,
    secret: String,
}

impl OkCoinClient {
    /// The API key.
    pub closed spec fn api_key(&self) -> Seq<char> {
        self.api_key@
    }

    /// The passphrase.
    pub closed spec fn passphrase(&self) -> Seq<char> {
        self.passphrase@
    }

    /// The secret that requests are signed with.
    pub closed spec fn secret(&self) -> Seq<char> {
        self.secret@
    }

    /// A client that holds the given credentials.
    pub fn new(api_key: String, passphrase: String, secret: String) -> (client: OkCoinClient)
        ensures
            client.api_key() == api_key@,
            client.passphrase() == passphrase@,
            client.secret() == secret@,
    {
        OkCoinClient { api_key, passphrase, secret }
    }

    /// Builds and signs a request with the given timestamp.
    pub fn request(&self, timestamp: &str, method: HttpMethod, path: &str, body: &str) -> (request:
        SignedRequest)
        ensures
            request@ == authenticated_request(
                self.api_key(),
                self.passphrase(),
                self.secret(),
                timestamp@,
                method,
                path@,
                body@,
            ),
    {
        let signature = sign(self.secret.as_str(), timestamp, method, path, body);
        let mut url = String::from_str(URL_BASE);
        url.append(path);
        let mut headers: Vec<Header> = Vec::new();
        headers.push(
            Header { name: String::from_str("OK-ACCESS-KEY"), value: self.api_key.clone() },
        );
        headers.push(
            Header {
                name: String::from_str("OK-ACCESS-PASSPHRASE"),
                value: self.passphrase.clone(),
            },
        );
        headers.push(
            Header {
                name: String::from_str("OK-ACCESS-TIMESTAMP"),
                value: String::from_str(timestamp),
            },
        );
        headers.push(
            Header {
                name: String::from_str("Content-Type"),
                value: String::from_str("application/json"),
            },
        );
        headers.push(Header { name: String::from_str("OK-ACCESS-SIGN"), value: signature });
        let request = SignedRequest { method, url, headers, body: String::from_str(body) };
        assert(request@.headers =~= authenticated_request(
            self.api_key(),
            self.passphrase(),
            self.secret(),
            timestamp@,
            method,
            path@,
            body@,
        ).headers);
        request
    }

    /// The request that asks for the balance of the tracked currency at the
    /// given instant. It has no body.
    pub fn balance_request(&self, millis_since_epoch: u64) -> (request: SignedRequest)
        requires
            millis_since_epoch < TIMESTAMP_LIMIT_MILLIS,
        ensures
            request@ == authenticated_request(
                self.api_key(),
                self.passphrase(),
                self.secret(),
                rfc3339_millis_text(millis_since_epoch),
                HttpMethod::Get,
                URL_BALANCE@,
                Seq::empty(),
            ),
    {
        let stamp = timestamp(millis_since_epoch);
        let body = String::new();
        self.request(stamp.as_str(), HttpMethod::Get, URL_BALANCE, body.as_str())
    }

    /// The request that withdraws `amount` of the tracked currency to
    /// `address` at the given instant: a POST to the withdrawal endpoint whose
    /// body is the one that was signed. The amount is given by its numeral.
    /// The request is owed exactly where the numeral is a JSON number; any
    /// other amount is a `Serialization` failure.
    pub fn withdrawal_request(
        &self,
        millis_since_epoch: u64,
        amount: &str,
        address: &str,
    ) -> (request: Result<SignedRequest, OkCoinClientError>)
        requires
            millis_since_epoch < TIMESTAMP_LIMIT_MILLIS,
        ensures
            match request {
                Ok(signed) => withdrawal_body_text(amount@, address@) matches Some(body)
                    && signed@ == authenticated_request(
                    self.api_key(),
                    self.passphrase(),
                    self.secret(),
                    rfc3339_millis_text(millis_since_epoch),
                    HttpMethod::Post,
                    URL_WITHDRAWAL@,
                    body,
                ),
                Err(e) => withdrawal_body_text(amount@, address@) is None && e@
                    == ErrorView::Serialization,
            },
    {
        let body = match WithdrawalRequest::new(amount, address).body() {
            Ok(text) => text,
            Err(e) => {
                return Err(e);
            },
        };
        let stamp = timestamp(millis_since_epoch);
        Ok(self.request(stamp.as_str(), HttpMethod::Post, URL_WITHDRAWAL, body.as_str()))
    }

    /// Judges the reply to a balance request.
    pub fn read_balance(reply: &Reply) -> (quote: Result<BalanceQuote, OkCoinClientError>)
        ensures
            match quote {
                Ok(q) => balance_reply(reply@) == Ok::<QuoteView, ErrorView>(q@),
                Err(e) => balance_reply(reply@) == Err::<QuoteView, ErrorView>(e@),
            },
    {
        match reply {
            Reply::TransportFailure => Err(OkCoinClientError::Network),
            Reply::Response { status, body } => match parse_json(body.as_str()) {
                Ok(doc) => balance_from_document(*status, Some(&doc)),
                Err(_) => balance_from_document(*status, None),
            },
        }
    }

    /// Turns a quote into the balance: zero where the currency is missing,
    /// else the number that the quoted numeral was read as, and a failure
    /// where it was read as no number.
    pub fn balance_of(quote: &BalanceQuote, number: Option<Amount>) -> (balance: Result<
        Amount,
        OkCoinClientError,
    >)
        ensures
            match balance {
                Ok(amount) => balance_of_quote(quote@, number) == Ok::<Amount, ErrorView>(amount),
                Err(e) => balance_of_quote(quote@, number) == Err::<Amount, ErrorView>(e@),
            },
    {
        match quote {
            BalanceQuote::Missing => Ok(Amount::zero()),
            BalanceQuote::Equity(_) => match number {
                Some(amount) => Ok(amount),
                None => Err(OkCoinClientError::Serialization),
            },
        }
    }

    /// Judges the reply to a withdrawal request.
    pub fn read_withdrawal(reply: &Reply) -> (outcome: Result<(), OkCoinClientError>)
        ensures
            match outcome {
                Ok(_) => withdrawal_reply(reply@) == Ok::<(), ErrorView>(()),
                Err(e) => withdrawal_reply(reply@) == Err::<(), ErrorView>(e@),
            },
    {
        match reply {
            Reply::TransportFailure => Err(OkCoinClientError::Network),
            Reply::Response { status, body } => match parse_json(body.as_str()) {
                Ok(doc) => withdrawal_from_document(*status, Some(&doc)),
                Err(_) => withdrawal_from_document(*status, None),
            },
        }
    }
}

} // verus!
