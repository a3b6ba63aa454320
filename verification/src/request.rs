//! The requests that the exchange takes: where they go, what they carry and
//! how they are authenticated.

use crate::error::{ErrorView, OkCoinClientError};
use crate::json::{
    json_document, json_object_text, member_trees, parse_value, render_object, text_value,
    value_is_number, value_tree, JsonTree,
};
use crate::signer::{signature_of, signed_message, HttpMethod};
use vstd::prelude::*;
use vstd::string::StringExecFns;

verus! {

/// Where the exchange listens.
pub const URL_BASE: &'static str = "https://www.okcoin.com";

/// Path and query of the balance endpoint for the tracked currency.
pub const URL_BALANCE: &'static str = "/api/v5/account/balance?ccy=STX";

/// Path of the withdrawal endpoint.
pub const URL_WITHDRAWAL: &'static str = "/api/v5/asset/withdrawal";

/// The currency whose balance is tracked and withdrawn.
pub const CURRENCY: &'static str = "STX";

/// The chain that withdrawals are sent over.
pub const CHAIN: &'static str = "STX-Bitcoin";

/// The fee that is offered with every withdrawal.
pub const FEE: &'static str = "0.0005";

/// How a withdrawal reaches its destination.
#[derive(Clone, Copy, Debug, PartialEq, Eq, Structural)]
pub enum Destination {
    /// A transfer inside the exchange.
    Internal,
    /// A transfer over the chain.
    OnChain,
}

impl Destination {
    /// The code that the exchange knows the kind of destination by.
    pub open spec fn code_text(self) -> Seq<char> {
        match self {
            Destination::Internal => "3"@,
            Destination::OnChain => "4"@,
        }
    }

    /// The code that the exchange knows the kind of destination by.
    pub fn code(&self) -> (code: &'static str)
        ensures
            code@ == self.code_text(),
    {
        match self {
            Destination::Internal => "3",
            Destination::OnChain => "4",
        }
    }
}

/// One header of a request.
#[derive(Debug)]
pub struct Header {
    pub name: String,
    pub value: String,
}

/// A request that is ready to be sent: every header is in place and the
/// signature covers the timestamp, the method, the path and the body.
#[derive(Debug)]
pub struct SignedRequest {
    pub method: HttpMethod,
    pub url: String,
    pub headers: Vec<Header>,
    pub body: String,
}

/// The mathematical value of a [`SignedRequest`].
pub struct RequestView {
    pub method: HttpMethod,
    pub url: Seq<char>,
    pub headers: Seq<(Seq<char>, Seq<char>)>,
    pub body: Seq<char>,
}

impl View for SignedRequest {
    type V = RequestView;

    open spec fn view(&self) -> RequestView {
        RequestView {
            method: self.method,
            url: self.url@,
            headers: Seq::new(
                self.headers@.len(),
                |i: int| (self.headers@[i].name@, self.headers@[i].value@),
            ),
            body: self.body@,
        }
    }
}

/// The request that the exchange accepts from the holder of the given
/// credentials: the URL is the base followed by the path, and the five
/// headers carry the key, the passphrase, the timestamp that was signed, the
/// content type and the signature, in this order.
pub open spec fn authenticated_request(
    api_key: Seq<char>,
    passphrase: Seq<char>,
    secret: Seq<char>,
    timestamp: Seq<char>,
    method: HttpMethod,
    path: Seq<char>,
    body: Seq<char>,
) -> RequestView {
    RequestView {
        method,
        url: URL_BASE@ + path,
        headers: seq![
            ("OK-ACCESS-KEY"@, api_key),
            ("OK-ACCESS-PASSPHRASE"@, passphrase),
            ("OK-ACCESS-TIMESTAMP"@, timestamp),
            ("Content-Type"@, "application/json"@),
            (
                "OK-ACCESS-SIGN"@,
                signature_of(secret, signed_message(timestamp, method, path, body)),
            ),
        ],
        body,
    }
}

/// The number that a numeral stands for in a JSON text, or `None` where the
/// numeral is no JSON number.
pub open spec fn amount_number(numeral: Seq<char>) -> Option<JsonTree> {
    match json_document(numeral) {
        Some(tree) => if tree is Number {
            Some(tree)
        } else {
            None
        },
        None => None,
    }
}

/// The members of a withdrawal's body, in the order in which they are handed
/// to the JSON writer: the amount is a number, everything else a string.
pub open spec fn withdrawal_members(
    amount: JsonTree,
    fee: Seq<char>,
    destination: Destination,
    currency: Seq<char>,
    chain: Seq<char>,
    to_address: Seq<char>,
) -> Seq<(Seq<char>, JsonTree)> {
    seq![
        ("amt"@, amount),
        ("fee"@, JsonTree::Text(fee)),
        ("dest"@, JsonTree::Text(destination.code_text())),
        ("ccy"@, JsonTree::Text(currency)),
        ("chain"@, JsonTree::Text(chain)),
        ("toAddr"@, JsonTree::Text(to_address)),
    ]
}

/// The body of the withdrawal that the client issues for an amount and an
/// address: the fee, the kind of destination, the currency and the chain are
/// fixed. `None` where the amount's numeral is no JSON number.
pub open spec fn withdrawal_body_text(numeral: Seq<char>, address: Seq<char>) -> Option<
    Seq<char>,
> {
    match amount_number(numeral) {
        Some(amount) => Some(
            json_object_text(
                withdrawal_members(
                    amount,
                    FEE@,
                    Destination::Internal,
                    CURRENCY@,
                    CHAIN@,
                    address,
                ),
            ),
        ),
        None => None,
    }
}

/// A withdrawal as the exchange takes it.
#[derive(Debug)]
pub struct WithdrawalRequest {
    /// The amount, as the numeral of a JSON number. It travels as a number.
    pub amount: String,
    /// The fee that is offered, as a decimal numeral. It travels as a
    /// string, as every field but the amount does.
    pub fee: String,
    pub destination: Destination,
    pub currency: String,
    pub chain: String,
    pub to_address: String,
}

impl WithdrawalRequest {
    /// The text of the request's body, or `None` where the amount's numeral
    /// is no JSON number.
    pub open spec fn body_text(&self) -> Option<Seq<char>> {
        match amount_number(self.amount@) {
            Some(amount) => Some(
                json_object_text(
                    withdrawal_members(
                        amount,
                        self.fee@,
                        self.destination,
                        self.currency@,
                        self.chain@,
                        self.to_address@,
                    ),
                ),
            ),
            None => None,
        }
    }

    /// The withdrawal of `amount` to `to_address`. The fee, the kind of
    /// destination, the currency and the chain are fixed.
    pub fn new(amount: &str, to_address: &str) -> (request: WithdrawalRequest)
        ensures
            request.amount@ == amount@,
            request.fee@ == FEE@,
            request.destination == Destination::Internal,
            request.currency@ == CURRENCY@,
            request.chain@ == CHAIN@,
            request.to_address@ == to_address@,
            request.body_text() == withdrawal_body_text(amount@, to_address@),
    {
        WithdrawalRequest {
            amount: String::from_str(amount),
            fee: String::from_str(FEE),
            destination: Destination::Internal,
            currency: String::from_str(CURRENCY),
            chain: String::from_str(CHAIN),
            to_address: String::from_str(to_address),
        }
    }

    /// The request's body: a JSON object of six members. It is owed exactly
    /// where the amount's numeral is a JSON number; any other amount is a
    /// `Serialization` failure.
    pub fn body(&self) -> (body: Result<String, OkCoinClientError>)
        ensures
            match body {
                Ok(text) => self.body_text() == Some(text@),
                Err(e) => self.body_text() is None && e@ == ErrorView::Serialization,
            },
    {
        let amount = match parse_value(self.amount.as_str()) {
            Ok(value) => value,
            Err(_) => {
                return Err(OkCoinClientError::Serialization);
            },
        };
        if !value_is_number(&amount) {
            return Err(OkCoinClientError::Serialization);
        }
        let ghost number = value_tree(amount);
        let mut members: Vec<(String, serde_json::Value)> = Vec::new();
        members.push((String::from_str("amt"), amount));
        members.push((String::from_str("fee"), text_value(self.fee.clone())));
        members.push(
            (String::from_str("dest"), text_value(String::from_str(self.destination.code()))),
        );
        members.push((String::from_str("ccy"), text_value(self.currency.clone())));
        members.push((String::from_str("chain"), text_value(self.chain.clone())));
        members.push((String::from_str("toAddr"), text_value(self.to_address.clone())));
        assert(member_trees(members@) =~= withdrawal_members(
            number,
            self.fee@,
            self.destination,
            self.currency@,
            self.chain@,
            self.to_address@,
        ));
        match render_object(members) {
            Ok(text) => Ok(text),
            Err(_) => Err(OkCoinClientError::Serialization),
        }
    }
}

} // verus!
