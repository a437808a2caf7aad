//! The calls into `reqwest` and, through it, `http`. Nothing in this file
//! is proved but `TransportLimits::standard`: each contract states what the
//! outside function does.

use reqwest::header::{HeaderMap, HeaderValue, AUTHORIZATION, USER_AGENT};
use std::sync::Arc;
use std::time::Duration;
use vstd::prelude::*;

verus! {

/// `reqwest::Client`, the pooled transport. The proofs see nothing inside
/// it.
#[verifier::external_type_specification]
#[verifier::external_body]
pub struct ExClient(reqwest::Client);

/// `http::HeaderValue`, as `reqwest::header` hands it on. The proofs see
/// nothing inside it.
#[verifier::external_type_specification]
#[verifier::external_body]
pub struct ExHeaderValue(HeaderValue);

/// Whether `c` may stand in the value of a header: every character but the
/// control characters, and of those the tab.
pub open spec fn is_header_char(c: char) -> bool {
    (c as u32 >= 32 && c as u32 != 127) || c == '\t'
}

/// Whether `text` may be the value of a header.
pub open spec fn is_header_text(text: Seq<char>) -> bool {
    forall|i: int| 0 <= i < text.len() ==> is_header_char(#[trigger] text[i])
}

/// Whether `c` is a visible ASCII character, the space, or the tab.
pub open spec fn is_visible_char(c: char) -> bool {
    (32 <= c as u32 && (c as u32) < 127) || c == '\t'
}

/// Whether `text` is made of visible ASCII characters, spaces and tabs.
pub open spec fn is_visible_text(text: Seq<char>) -> bool {
    forall|i: int| 0 <= i < text.len() ==> is_visible_char(#[trigger] text[i])
}

/// The text that a header value holds: the characters whose bytes it was
/// made of.
pub uninterp spec fn header_text(value: HeaderValue) -> Seq<char>;

/// The value of the `Authorization` header that a transport attaches to
/// every request that brings none of its own: `None` where it was built
/// without one.
pub uninterp spec fn default_authorization(transport: reqwest::Client) -> Option<Seq<char>>;

/// The canonical reason phrase of the HTTP status with this number: `None`
/// where no status has the number, or the status has no phrase.
pub uninterp spec fn canonical_reason(status: u16) -> Option<Seq<char>>;

/// The time and pool limits that a transport is built with.
#[derive(Debug, Clone, Copy, PartialEq, Eq, Structural)]
pub struct TransportLimits {
    /// Seconds that a whole request may take.
    pub request_timeout_secs: u64,
    /// Seconds that establishing a connection may take.
    pub connect_timeout_secs: u64,
    /// Seconds that an idle connection is kept.
    pub pool_idle_timeout_secs: u64,
    /// Idle connections that are kept for one host.
    pub pool_max_idle_per_host: usize,
}

impl TransportLimits {
    /// The limits that every client of this library has: 30 seconds for a
    /// request, 10 to connect, idle connections kept for 90 seconds, at most
    /// 10 of them for one host.
    pub fn standard() -> (limits: Self)
        ensures
            limits == (TransportLimits {
                request_timeout_secs: 30,
                connect_timeout_secs: 10,
                pool_idle_timeout_secs: 90,
                pool_max_idle_per_host: 10,
            }),
    {
        TransportLimits {
            request_timeout_secs: 30,
            connect_timeout_secs: 10,
            pool_idle_timeout_secs: 90,
            pool_max_idle_per_host: 10,
        }
    }
}

/// `HeaderValue::from_str`, its error written out. The contract claims that
/// the call succeeds exactly on a text without control characters other
/// than the tab (it tests each byte, and accepts every byte of a character
/// beyond ASCII), that the value then holds the text, and that the error
/// reads as `http` writes it.
#[verifier::external_body]
pub(crate) fn header_value(text: &str) -> (value: Result<HeaderValue, String>)
    ensures
        value is Ok <==> is_header_text(text@),
        value matches Ok(v) ==> header_text(v) == text@,
        value matches Err(why) ==> why@ == "failed to parse header value"@,
{
    HeaderValue::from_str(text).map_err(|e| e.to_string())
}

/// `HeaderValue::from_static`, which panics on a text that holds anything
/// but visible ASCII characters, spaces and tabs: `requires` leaves those
/// texts out. The contract claims that the value holds the text.
#[verifier::external_body]
pub(crate) fn static_header_value(text: &'static str) -> (value: HeaderValue)
    requires
        is_visible_text(text@),
    ensures
        header_text(value) == text@,
{
    HeaderValue::from_static(text)
}

/// `reqwest::Client::builder` and `ClientBuilder::build`, with the two
/// headers as default headers and the limits set between them; the error
/// written out. Whether the client can be built depends on the machine (its
/// TLS backend and proxy settings), so nothing is claimed of that. The
/// contract claims that a client that was built attaches `authorization`
/// to every request that brings no `Authorization` header of its own.
#[verifier::external_body]
pub(crate) fn build_transport(
    authorization: HeaderValue,
    user_agent: HeaderValue,
    limits: TransportLimits,
) -> (built: Result<reqwest::Client, String>)
    ensures
        built matches Ok(transport) ==> default_authorization(transport) == Some(
            header_text(authorization),
        ),
{
    let mut headers = HeaderMap::new();
    headers.insert(AUTHORIZATION, authorization);
    headers.insert(USER_AGENT, user_agent);
    reqwest::Client::builder()
        .default_headers(headers)
        .timeout(Duration::from_secs(limits.request_timeout_secs))
        .connect_timeout(Duration::from_secs(limits.connect_timeout_secs))
        .pool_idle_timeout(Duration::from_secs(limits.pool_idle_timeout_secs))
        .pool_max_idle_per_host(limits.pool_max_idle_per_host)
        .build()
        .map_err(|e| e.to_string())
}

/// `StatusCode::from_u16` and `StatusCode::canonical_reason`. The contract
/// claims that the phrase depends on the number alone, and gives it its
/// name.
#[verifier::external_body]
pub(crate) fn reason_phrase(status: u16) -> (phrase: Option<&'static str>)
    ensures
        match phrase {
            Some(p) => canonical_reason(status) == Some(p@),
            None => canonical_reason(status) is None,
        },
{
    reqwest::StatusCode::from_u16(status).ok().and_then(|code| code.canonical_reason())
}

/// `Clone::clone` of `reqwest::Client`: one more handle to the same
/// transport.
pub assume_specification[ <reqwest::Client as Clone>::clone ](transport: &reqwest::Client) -> (other:
    reqwest::Client)
    ensures
        other == *transport,
;

/// `Arc::clone`: one more handle to the same value.
#[verifier::external_body]
pub(crate) fn share<T>(value: &Arc<T>) -> (other: Arc<T>)
    ensures
        other == *value,
{
    Arc::clone(value)
}

} // verus!
