//! Request signing: the timestamp, the signed message and its signature.

use base64::engine::Engine;
use vstd::prelude::*;
use vstd::string::StringExecFns;

verus! {

/// The HTTP methods that the exchange's endpoints take.
#[derive(Clone, Copy, Debug, PartialEq, Eq, Structural)]
pub enum HttpMethod {
    Get,
    Post,
}

impl HttpMethod {
    /// The upper-case token that stands for the method in a signed message.
    pub open spec fn token_text(self) -> Seq<char> {
        match self {
            HttpMethod::Get => "GET"@,
            HttpMethod::Post => "POST"@,
        }
    }

    /// The upper-case token of the method.
    pub fn token(&self) -> (token: &'static str)
        ensures
            token@ == self.token_text(),
    {
        match self {
            HttpMethod::Get => "GET",
            HttpMethod::Post => "POST",
        }
    }
}

/// First instant that no timestamp stands for: the start of the year 10000,
/// in milliseconds since the Unix epoch.
pub const TIMESTAMP_LIMIT_MILLIS: u64 = 253_402_300_800_000;

/// The text that `humantime::format_rfc3339_millis` prints for the instant
/// that lies the given number of milliseconds after the Unix epoch.
pub uninterp spec fn rfc3339_millis_text(millis_since_epoch: u64) -> Seq<char>;

/// The tag that `hmac_sha256::HMAC::mac` computes over the UTF-8 bytes of a
/// message under the UTF-8 bytes of a key.
pub uninterp spec fn hmac_sha256_tag(message: Seq<char>, key: Seq<char>) -> Seq<u8>;

/// The text that the `base64` crate's `STANDARD` engine encodes bytes to.
pub uninterp spec fn base64_standard_text(bytes: Seq<u8>) -> Seq<char>;

/// `humantime::format_rfc3339_millis`, printed: the text depends on the
/// instant alone. Instants from the year 10000 on are left out, because the
/// formatter refuses them.
#[verifier::external_body]
fn rfc3339_millis(millis_since_epoch: u64) -> (text: String)
    requires
        millis_since_epoch < TIMESTAMP_LIMIT_MILLIS,
    ensures
        text@ == rfc3339_millis_text(millis_since_epoch),
{
    let instant = std::time::UNIX_EPOCH + core::time::Duration::from_millis(millis_since_epoch);
    humantime::format_rfc3339_millis(instant).to_string()
}

/// `hmac_sha256::HMAC::mac`: the HMAC-SHA256 tag of the message under the
/// key, which depends on the two alone and has 32 bytes.
#[verifier::external_body]
fn hmac_tag(message: &str, key: &str) -> (tag: Vec<u8>)
    ensures
        tag@ == hmac_sha256_tag(message@, key@),
        tag@.len() == 32,
{
    hmac_sha256::HMAC::mac(message, key).to_vec()
}

/// `Engine::encode` of `base64::engine::general_purpose::STANDARD`: the
/// padded base64 text of the bytes, which depends on the bytes alone. It has
/// four characters for every three bytes or part of three, and ends in the
/// padding character where the bytes are no whole number of threes.
#[verifier::external_body]
fn base64_standard(bytes: &[u8]) -> (text: String)
    ensures
        text@ == base64_standard_text(bytes@),
        text@.len() == base64_length(bytes@.len()),
        bytes@.len() % 3 != 0 ==> text@.last() == '=',
{
    base64::engine::general_purpose::STANDARD.encode(bytes)
}

/// The length of the padded base64 text of so many bytes.
pub open spec fn base64_length(bytes: nat) -> nat {
    4 * ((bytes + 2) / 3)
}

/// The length of every signature: the padded base64 text of 32 bytes.
pub const SIGNATURE_LENGTH: usize = 44;

/// The message that is signed: timestamp, method token, path with its query
/// string, and body, one after the other with nothing between them.
pub open spec fn signed_message(
    timestamp: Seq<char>,
    method: HttpMethod,
    path: Seq<char>,
    body: Seq<char>,
) -> Seq<char> {
    timestamp + method.token_text() + path + body
}

/// The signature of a message under a secret: the base64 text of the
/// message's HMAC-SHA256 tag.
pub open spec fn signature_of(secret: Seq<char>, message: Seq<char>) -> Seq<char> {
    base64_standard_text(hmac_sha256_tag(message, secret))
}

/// Formats an instant as the exchange expects it: UTC, RFC 3339, with
/// milliseconds.
pub fn timestamp(millis_since_epoch: u64) -> (text: String)
    requires
        millis_since_epoch < TIMESTAMP_LIMIT_MILLIS,
    ensures
        text@ == rfc3339_millis_text(millis_since_epoch),
{
    rfc3339_millis(millis_since_epoch)
}

/// Puts the signed message together.
pub fn message_to_sign(timestamp: &str, method: HttpMethod, path: &str, body: &str) -> (message:
    String)
    ensures
        message@ == signed_message(timestamp@, method, path@, body@),
{
    let mut message = String::from_str(timestamp);
    message.append(method.token());
    message.append(path);
    message.append(body);
    message
}

/// Signs a request. The result is a function of the five inputs alone; it
/// has 44 characters, of which the last is the padding character.
pub fn sign(
    secret: &str,
    timestamp: &str,
    method: HttpMethod,
    path: &str,
    body: &str,
) -> (signature: String)
    ensures
        signature@ == signature_of(secret@, signed_message(timestamp@, method, path@, body@)),
        signature@.len() == SIGNATURE_LENGTH,
        signature@.last() == '=',
{
    let message = message_to_sign(timestamp, method, path, body);
    let tag = hmac_tag(message.as_str(), secret);
    base64_standard(tag.as_slice())
}

/// Two signed messages that differ in one input only, be it the timestamp,
/// the method, the path or the body, are different messages.
pub proof fn lemma_one_changed_input_changes_message(
    stamp: Seq<char>,
    method: HttpMethod,
    path: Seq<char>,
    body: Seq<char>,
    other_stamp: Seq<char>,
    other_method: HttpMethod,
    other_path: Seq<char>,
    other_body: Seq<char>,
)
    requires
        stamp != other_stamp || method != other_method || path != other_path || body
            != other_body,
        (stamp == other_stamp && method == other_method && path == other_path) || (stamp
            == other_stamp && method == other_method && body == other_body) || (stamp
            == other_stamp && path == other_path && body == other_body) || (method == other_method
            && path == other_path && body == other_body),
    ensures
        signed_message(stamp, method, path, body) != signed_message(
            other_stamp,
            other_method,
            other_path,
            other_body,
        ),
{
    let x = signed_message(stamp, method, path, body);
    let y = signed_message(other_stamp, other_method, other_path, other_body);
    reveal_strlit("GET");
    reveal_strlit("POST");
    let token = method.token_text();
    let other_token = other_method.token_text();
    if x == y {
        assert(x.len() == stamp.len() + token.len() + path.len() + body.len());
        assert(y.len() == other_stamp.len() + other_token.len() + other_path.len()
            + other_body.len());
        if stamp != other_stamp {
            assert(stamp.len() == other_stamp.len());
            assert forall|i: int| 0 <= i < stamp.len() implies stamp[i] == other_stamp[i] by {
                assert(x[i] == stamp[i]);
                assert(y[i] == other_stamp[i]);
            }
            assert(stamp =~= other_stamp);
        } else if method != other_method {
            assert(token.len() != other_token.len());
        } else if path != other_path {
            let off = stamp.len() + token.len();
            assert(path.len() == other_path.len());
            assert forall|i: int| 0 <= i < path.len() implies path[i] == other_path[i] by {
                assert(x[off + i] == path[i]);
                assert(y[off + i] == other_path[i]);
            }
            assert(path =~= other_path);
        } else {
            let off = stamp.len() + token.len() + path.len();
            assert(body.len() == other_body.len());
            assert forall|i: int| 0 <= i < body.len() implies body[i] == other_body[i] by {
                assert(x[off + i] == body[i]);
                assert(y[off + i] == other_body[i]);
            }
            assert(body =~= other_body);
        }
    }
}

} // verus!
