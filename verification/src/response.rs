//! What comes back from the exchange, and how it is judged.

use crate::amount::Amount;
use crate::decimal::{decimal_u16, parse_u16};
use crate::error::{ErrorView, OkCoinClientError};
use crate::json::{json_document, trees, Json, JsonTree};
use crate::request::CURRENCY;
use vstd::prelude::*;
use vstd::string::StringExecFns;

verus! {

/// What sending a request has led to.
#[derive(Debug)]
pub enum Reply {
    /// A response has come back, with this HTTP status and this body.
    Response { status: u16, body: String },
    /// The transport has failed: there is no response.
    TransportFailure,
}

/// The mathematical value of a [`Reply`].
pub enum ReplyView {
    Response { status: u16, body: Seq<char> },
    TransportFailure,
}

impl View for Reply {
    type V = ReplyView;

    open spec fn view(&self) -> ReplyView {
        match self {
            Reply::Response { status, body } => ReplyView::Response {
                status: *status,
                body: body@,
            },
            Reply::TransportFailure => ReplyView::TransportFailure,
        }
    }
}

/// Whether an HTTP status reports success: 200 to 299.
pub open spec fn is_success(status: u16) -> bool {
    200 <= status <= 299
}

/// The code and the message of the exchange's envelope: the members `code`,
/// a string that holds a 16-bit decimal numeral, and `msg`, a string. `None`
/// where the document is not such an object.
pub open spec fn envelope_head(doc: JsonTree) -> Option<(u16, Seq<char>)> {
    match (doc.member("code"@), doc.member("msg"@)) {
        (Some(JsonTree::Text(code)), Some(JsonTree::Text(msg))) => match decimal_u16(code) {
            Some(number) => Some((number, msg)),
            None => None,
        },
        _ => None,
    }
}

/// What an envelope says of its payloads.
pub enum EnvelopeData {
    /// The member `data` is neither missing, nor `null`, nor an array.
    Malformed,
    /// The member `data` is missing or `null`.
    Absent,
    /// The member `data` is this array.
    Items(Seq<JsonTree>),
}

/// The payloads of the exchange's envelope.
pub open spec fn envelope_data(doc: JsonTree) -> EnvelopeData {
    match doc.member("data"@) {
        None => EnvelopeData::Absent,
        Some(JsonTree::Null) => EnvelopeData::Absent,
        Some(JsonTree::Array(items)) => EnvelopeData::Items(items),
        Some(_) => EnvelopeData::Malformed,
    }
}

/// How a response is judged, given its HTTP status and the document that
/// its body holds (`None` where the body is no JSON).
///
/// A status that is no success is a `RequestFailed`, with the envelope's code
/// and message where the body holds them. Under a success the envelope must
/// be readable, else `Serialization`; its code must be zero, else
/// `ApiRequest`; and it must hold at least one payload, else `EmptyResponse`.
/// The first payload is the result.
pub open spec fn payload_of(status: u16, doc: Option<JsonTree>) -> Result<JsonTree, ErrorView> {
    if !is_success(status) {
        match doc {
            Some(d) => match envelope_head(d) {
                Some((code, msg)) => Err(ErrorView::RequestFailed(status, Some(code), Some(msg))),
                None => Err(ErrorView::RequestFailed(status, None, None)),
            },
            None => Err(ErrorView::RequestFailed(status, None, None)),
        }
    } else {
        match doc {
            None => Err(ErrorView::Serialization),
            Some(d) => match (envelope_head(d), envelope_data(d)) {
                (None, _) => Err(ErrorView::Serialization),
                (_, EnvelopeData::Malformed) => Err(ErrorView::Serialization),
                (Some((code, msg)), data) => if code != 0 {
                    Err(ErrorView::ApiRequest(code, msg))
                } else {
                    match data {
                        EnvelopeData::Items(items) => if items.len() > 0 {
                            Ok(items[0])
                        } else {
                            Err(ErrorView::EmptyResponse)
                        },
                        _ => Err(ErrorView::EmptyResponse),
                    }
                },
            },
        }
    }
}

/// The value of a document that may be missing.
pub open spec fn tree_of_option(doc: Option<&Json>) -> Option<JsonTree> {
    match doc {
        Some(d) => Some(d@),
        None => None,
    }
}

/// Reads the code and the message of an envelope.
fn read_envelope_head(doc: &Json) -> (head: Option<(u16, &String)>)
    ensures
        match head {
            Some((code, msg)) => envelope_head(doc@) == Some((code, msg@)),
            None => envelope_head(doc@) is None,
        },
{
    let code = match doc.member("code") {
        Some(value) => match value.as_text() {
            Some(text) => match parse_u16(text.as_str()) {
                Some(number) => number,
                None => {
                    return None;
                },
            },
            None => {
                return None;
            },
        },
        None => {
            return None;
        },
    };
    match doc.member("msg") {
        Some(value) => match value.as_text() {
            Some(text) => Some((code, text)),
            None => None,
        },
        None => None,
    }
}

/// Judges a response and hands out its first payload.
fn first_payload<'a>(status: u16, doc: Option<&'a Json>) -> (payload: Result<
    &'a Json,
    OkCoinClientError,
>)
    ensures
        match payload {
            Ok(p) => payload_of(status, tree_of_option(doc)) == Ok::<JsonTree, ErrorView>(p@),
            Err(e) => payload_of(status, tree_of_option(doc)) == Err::<JsonTree, ErrorView>(e@),
        },
{
    if status < 200 || status > 299 {
        let head = match doc {
            Some(d) => read_envelope_head(d),
            None => None,
        };
        return match head {
            Some((code, msg)) => Err(
                OkCoinClientError::RequestFailed(status, Some(code), Some(msg.clone())),
            ),
            None => Err(OkCoinClientError::RequestFailed(status, None, None)),
        };
    }
    let d = match doc {
        Some(d) => d,
        None => {
            return Err(OkCoinClientError::Serialization);
        },
    };
    let (code, msg) = match read_envelope_head(d) {
        Some(head) => head,
        None => {
            return Err(OkCoinClientError::Serialization);
        },
    };
    let items: Option<&Vec<Json>> = match d.member("data") {
        None => None,
        Some(Json::Null) => None,
        Some(value) => match value.as_array() {
            Some(items) => Some(items),
            None => {
                return Err(OkCoinClientError::Serialization);
            },
        },
    };
    if code != 0 {
        return Err(OkCoinClientError::ApiRequest(code, msg.clone()));
    }
    match items {
        Some(items) => if items.len() > 0 {
            Ok(&items[0])
        } else {
            Err(OkCoinClientError::EmptyResponse)
        },
        None => Err(OkCoinClientError::EmptyResponse),
    }
}

/// What a balance response says of the tracked currency.
#[derive(Debug)]
pub enum BalanceQuote {
    /// The response lists no entry for the currency.
    Missing,
    /// The equity of the currency, as the numeral that the exchange sent.
    Equity(String),
}

/// The mathematical value of a [`BalanceQuote`].
pub enum QuoteView {
    Missing,
    Equity(Seq<char>),
}

impl View for BalanceQuote {
    type V = QuoteView;

    open spec fn view(&self) -> QuoteView {
        match self {
            BalanceQuote::Missing => QuoteView::Missing,
            BalanceQuote::Equity(text) => QuoteView::Equity(text@),
        }
    }
}

/// The currency and the equity of one entry of a balance's details: the
/// members `ccy` and `eq`, both strings. `None` where the entry is not such
/// an object.
pub open spec fn detail_of(entry: JsonTree) -> Option<(Seq<char>, Seq<char>)> {
    match (entry.member("ccy"@), entry.member("eq"@)) {
        (Some(JsonTree::Text(currency)), Some(JsonTree::Text(equity))) => Some((currency, equity)),
        _ => None,
    }
}

/// The entries of a balance payload: its member `details`, an array.
pub open spec fn details_of(payload: JsonTree) -> Option<Seq<JsonTree>> {
    match payload.member("details"@) {
        Some(JsonTree::Array(entries)) => Some(entries),
        _ => None,
    }
}

/// Whether every entry can be read.
pub open spec fn all_details_readable(entries: Seq<JsonTree>) -> bool {
    forall|i: int| 0 <= i < entries.len() ==> detail_of(#[trigger] entries[i]) is Some
}

/// The equity of the first entry for `currency`, or `Missing` where there is
/// no such entry.
pub open spec fn quote_in(entries: Seq<JsonTree>, currency: Seq<char>) -> QuoteView
    decreases entries.len(),
{
    if entries.len() == 0 {
        QuoteView::Missing
    } else {
        match detail_of(entries[0]) {
            Some((c, equity)) if c == currency => QuoteView::Equity(equity),
            _ => quote_in(entries.drop_first(), currency),
        }
    }
}

/// How a balance response is judged. A response that yields a payload must
/// list readable entries, else `Serialization`; the result is the equity of
/// the tracked currency's first entry, or `Missing`.
pub open spec fn balance_quote(status: u16, doc: Option<JsonTree>) -> Result<QuoteView, ErrorView> {
    match payload_of(status, doc) {
        Err(e) => Err(e),
        Ok(payload) => match details_of(payload) {
            Some(entries) if all_details_readable(entries) => Ok(quote_in(entries, CURRENCY@)),
            _ => Err(ErrorView::Serialization),
        },
    }
}

/// How a withdrawal response is judged: it succeeds where it yields a
/// payload, whatever the payload holds.
pub open spec fn withdrawal_outcome(status: u16, doc: Option<JsonTree>) -> Result<(), ErrorView> {
    match payload_of(status, doc) {
        Err(e) => Err(e),
        Ok(_) => Ok(()),
    }
}

/// The balance that a quote amounts to, given what the numeral of a quoted
/// equity was read as (`None` where it is no number): zero for a missing
/// entry, the number for a quoted one, `Serialization` for a numeral that is
/// no number.
pub open spec fn balance_of_quote(quote: QuoteView, number: Option<Amount>) -> Result<
    Amount,
    ErrorView,
> {
    match quote {
        QuoteView::Missing => Ok(Amount { bits: 0 }),
        QuoteView::Equity(_) => match number {
            Some(amount) => Ok(amount),
            None => Err(ErrorView::Serialization),
        },
    }
}

/// Skipping entries that are not for the currency does not change the quote.
proof fn lemma_quote_in_skip(entries: Seq<JsonTree>, currency: Seq<char>, k: int)
    requires
        0 <= k <= entries.len(),
        forall|j: int|
            0 <= j < k ==> !(detail_of(#[trigger] entries[j]) matches Some((c, _)) && c
                == currency),
    ensures
        quote_in(entries, currency) == quote_in(entries.skip(k), currency),
    decreases k,
{
    if k == 0 {
        assert(entries.skip(0) =~= entries);
    } else {
        lemma_quote_in_skip(entries, currency, k - 1);
        let rest = entries.skip(k - 1);
        assert(rest[0] == entries[k - 1]);
        assert(rest.drop_first() =~= entries.skip(k));
    }
}

/// Reads the currency and the equity of one entry.
fn read_detail(entry: &Json) -> (detail: Option<(&String, &String)>)
    ensures
        match detail {
            Some((currency, equity)) => detail_of(entry@) == Some((currency@, equity@)),
            None => detail_of(entry@) is None,
        },
{
    let currency = match entry.member("ccy") {
        Some(value) => match value.as_text() {
            Some(text) => text,
            None => {
                return None;
            },
        },
        None => {
            return None;
        },
    };
    match entry.member("eq") {
        Some(value) => match value.as_text() {
            Some(text) => Some((currency, text)),
            None => None,
        },
        None => None,
    }
}

/// How the reply to a balance request is judged: a transport failure is
/// `Network`, and a response is judged by its status and by the document in
/// its body.
pub open spec fn balance_reply(reply: ReplyView) -> Result<QuoteView, ErrorView> {
    match reply {
        ReplyView::TransportFailure => Err(ErrorView::Network),
        ReplyView::Response { status, body } => balance_quote(status, json_document(body)),
    }
}

/// How the reply to a withdrawal request is judged: a transport failure is
/// `Network`, and a response is judged by its status and by the document in
/// its body.
pub open spec fn withdrawal_reply(reply: ReplyView) -> Result<(), ErrorView> {
    match reply {
        ReplyView::TransportFailure => Err(ErrorView::Network),
        ReplyView::Response { status, body } => withdrawal_outcome(status, json_document(body)),
    }
}

/// Judges a balance response whose body has been parsed (`None` where
/// the body is no JSON).
pub fn balance_from_document(status: u16, doc: Option<&Json>) -> (quote: Result<
    BalanceQuote,
    OkCoinClientError,
>)
    ensures
        match quote {
            Ok(q) => balance_quote(status, tree_of_option(doc)) == Ok::<QuoteView, ErrorView>(
                q@,
            ),
            Err(e) => balance_quote(status, tree_of_option(doc)) == Err::<
                QuoteView,
                ErrorView,
            >(e@),
        },
{
    let payload = match first_payload(status, doc) {
        Ok(payload) => payload,
        Err(e) => {
            return Err(e);
        },
    };
    let entries = match payload.member("details") {
        Some(value) => match value.as_array() {
            Some(entries) => entries,
            None => {
                return Err(OkCoinClientError::Serialization);
            },
        },
        None => {
            return Err(OkCoinClientError::Serialization);
        },
    };
    let ghost all = trees(entries@);
    let wanted = String::from_str(CURRENCY);
    let mut found: Option<&String> = None;
    let mut i: usize = 0;
    while i < entries.len()
        invariant
            i <= entries.len(),
            all == trees(entries@),
            wanted@ == CURRENCY@,
            payload_of(status, tree_of_option(doc)) == Ok::<JsonTree, ErrorView>(payload@),
            details_of(payload@) == Some(all),
            forall|j: int| 0 <= j < i ==> detail_of(#[trigger] all[j]) is Some,
            match found {
                Some(equity) => quote_in(all, CURRENCY@) == QuoteView::Equity(equity@),
                None => forall|j: int|
                    0 <= j < i ==> !(detail_of(#[trigger] all[j]) matches Some((c, _)) && c
                        == CURRENCY@),
            },
        decreases entries.len() - i,
    {
        assert(all[i as int] == entries@[i as int]@);
        match read_detail(&entries[i]) {
            Some((currency, equity)) => {
                if found.is_none() && *currency == wanted {
                    proof {
                        lemma_quote_in_skip(all, CURRENCY@, i as int);
                        assert(all.skip(i as int)[0] == all[i as int]);
                    }
                    found = Some(equity);
                }
            },
            None => {
                assert(detail_of(all[i as int]) is None);
                return Err(OkCoinClientError::Serialization);
            },
        }
        i += 1;
    }
    assert(all_details_readable(all));
    match found {
        Some(equity) => Ok(BalanceQuote::Equity(equity.clone())),
        None => {
            proof {
                lemma_quote_in_skip(all, CURRENCY@, all.len() as int);
            }
            Ok(BalanceQuote::Missing)
        },
    }
}


/// Judges a withdrawal response whose body has been parsed (`None`
/// where the body is no JSON).
pub fn withdrawal_from_document(status: u16, doc: Option<&Json>) -> (outcome: Result<
    (),
    OkCoinClientError,
>)
    ensures
        match outcome {
            Ok(_) => withdrawal_outcome(status, tree_of_option(doc)) == Ok::<(), ErrorView>(()),
            Err(e) => withdrawal_outcome(status, tree_of_option(doc)) == Err::<(), ErrorView>(
                e@,
            ),
        },
{
    match first_payload(status, doc) {
        Ok(_) => Ok(()),
        Err(e) => Err(e),
    }
}


/// A response counts as a success only under an HTTP success status and an
/// envelope whose code is zero.
pub proof fn lemma_success_needs_code_zero(status: u16, doc: Option<JsonTree>)
    ensures
        payload_of(status, doc) is Ok ==> is_success(status) && doc is Some && (envelope_head(
            doc->Some_0,
        ) matches Some((code, _)) && code == 0),
        balance_quote(status, doc) is Ok ==> payload_of(status, doc) is Ok,
        withdrawal_outcome(status, doc) is Ok <==> payload_of(status, doc) is Ok,
{
}

/// An envelope that arrives under an HTTP success status and holds a code
/// other than zero is surfaced as `ApiRequest` with that code and the
/// envelope's message, by a balance and by a withdrawal alike.
pub proof fn lemma_exchange_error_is_surfaced(
    status: u16,
    doc: JsonTree,
    code: u16,
    msg: Seq<char>,
)
    requires
        is_success(status),
        envelope_head(doc) == Some((code, msg)),
        code != 0,
        !(envelope_data(doc) is Malformed),
    ensures
        balance_quote(status, Some(doc)) == Err::<QuoteView, ErrorView>(
            ErrorView::ApiRequest(code, msg),
        ),
        withdrawal_outcome(status, Some(doc)) == Err::<(), ErrorView>(
            ErrorView::ApiRequest(code, msg),
        ),
{
}

/// Where the entries list the currency, the quote is the equity of the first
/// entry that does.
pub proof fn lemma_listed_currency_is_quoted(entries: Seq<JsonTree>, currency: Seq<char>, i: int)
    requires
        0 <= i < entries.len(),
        detail_of(entries[i]) matches Some((c, _)) && c == currency,
        forall|j: int|
            0 <= j < i ==> !(detail_of(#[trigger] entries[j]) matches Some((c, _)) && c
                == currency),
    ensures
        quote_in(entries, currency) == QuoteView::Equity(detail_of(entries[i])->Some_0.1),
{
    lemma_quote_in_skip(entries, currency, i);
    assert(entries.skip(i)[0] == entries[i]);
}

/// Where no entry lists the currency, the quote is `Missing` and the balance
/// is zero: that is a result, not a failure.
pub proof fn lemma_unlisted_currency_has_zero_balance(
    entries: Seq<JsonTree>,
    currency: Seq<char>,
    number: Option<Amount>,
)
    requires
        forall|j: int|
            0 <= j < entries.len() ==> !(detail_of(#[trigger] entries[j]) matches Some((c, _))
                && c == currency),
    ensures
        quote_in(entries, currency) == QuoteView::Missing,
        balance_of_quote(quote_in(entries, currency), number) == Ok::<Amount, ErrorView>(
            Amount { bits: 0 },
        ),
        (Amount { bits: 0 }).rank() == 0,
{
    lemma_quote_in_skip(entries, currency, entries.len() as int);
}

} // verus!
