//! What a response of the API means: the value that it carries, or the
//! failure that it stands for.

use crate::error::{plain_error, status_error, CanvasError, ErrorKind, ErrorView};
use crate::json::{json_parse, json_text_member, parse_json};
use crate::text::{join, prefix, take_chars};
use crate::transport::{canonical_reason, reason_phrase};
use vstd::prelude::*;
use vstd::string::*;

verus! {

/// Whether `status` is in the 2xx class.
pub open spec fn is_success_status(status: u16) -> bool {
    200 <= status < 300
}

/// The characters of an optional text.
pub open spec fn chars_of_option(text: Option<&str>) -> Option<Seq<char>> {
    match text {
        Some(t) => Some(t@),
        None => None,
    }
}

/// What a document holds under `name`: `None` where it has no such member,
/// `Some(None)` where the member is no string, else the member's text.
pub open spec fn member(members: Map<Seq<char>, Option<Seq<char>>>, name: Seq<char>) -> Option<
    Option<Seq<char>>,
> {
    if members.dom().contains(name) {
        Some(members[name])
    } else {
        None
    }
}

/// The message of a failed response whose body is a JSON document, given
/// what the document holds under `message` and under `error`: the member
/// `message` decides where there is one, else the member `error`; a member
/// that is a string is the message, and in every other case the body is.
pub open spec fn chosen_message(
    message: Option<Option<Seq<char>>>,
    error: Option<Option<Seq<char>>>,
    body: Seq<char>,
) -> Seq<char> {
    match message {
        Some(Some(text)) => text,
        Some(None) => body,
        None => match error {
            Some(Some(text)) => text,
            _ => body,
        },
    }
}

/// The message of a failed response whose body could be read: the message
/// chosen from the document where the body is JSON, else the body itself.
pub open spec fn body_message(body: Seq<char>) -> Seq<char> {
    match json_parse(body) {
        Some(members) => chosen_message(
            member(members, "message"@),
            member(members, "error"@),
            body,
        ),
        None => body,
    }
}

/// The message of a failed response whose body could not be read, given
/// the reason phrase of its status.
pub open spec fn reason_or_unknown(phrase: Option<Seq<char>>) -> Seq<char> {
    match phrase {
        Some(p) => p,
        None => "Unknown error"@,
    }
}

/// The message of a failed response.
pub open spec fn response_message(status: u16, body: Option<Seq<char>>) -> Seq<char> {
    match body {
        Some(text) => body_message(text),
        None => reason_or_unknown(canonical_reason(status)),
    }
}

/// The failure that a response outside the 2xx class stands for.
pub open spec fn response_error(status: u16, body: Option<Seq<char>>) -> ErrorView {
    status_error(status, response_message(status, body))
}

/// The message of the failure to decode a body: the decoder's complaint and
/// the first 200 characters of the body.
pub open spec fn decode_failure_message(why: Seq<char>, body: Seq<char>) -> Seq<char> {
    "Failed to parse Canvas API response: "@ + why + ". Response: "@ + prefix(body, 200)
}

/// Whether `result` is what the outcome `decoded` of decoding `body` gives:
/// the decoded value, or the `Internal` failure that reports the decoder's
/// complaint.
pub open spec fn is_decoded_as<T>(
    result: Result<T, CanvasError>,
    decoded: Result<T, String>,
    body: Seq<char>,
) -> bool {
    match decoded {
        Ok(value) => result == Ok::<T, CanvasError>(value),
        Err(why) => result matches Err(e) && e@ == plain_error(
            ErrorKind::Internal,
            decode_failure_message(why@, body),
        ),
    }
}

/// Whether `status` is in the 2xx class.
pub fn is_success(status: u16) -> (ok: bool)
    ensures
        ok == is_success_status(status),
{
    200 <= status && status < 300
}

/// The message of a failed response whose body is a JSON document, given
/// what the document holds under `message` and under `error`.
pub fn choose_message(
    message: Option<Option<&str>>,
    error: Option<Option<&str>>,
    body: &str,
) -> (chosen: String)
    ensures
        chosen@ == chosen_message(
            match message {
                Some(found) => Some(chars_of_option(found)),
                None => None,
            },
            match error {
                Some(found) => Some(chars_of_option(found)),
                None => None,
            },
            body@,
        ),
{
    let found = match message {
        Some(found) => found,
        None => match error {
            Some(found) => found,
            None => None,
        },
    };
    match found {
        Some(text) => String::from_str(text),
        None => String::from_str(body),
    }
}

/// The message of a failed response whose body could be read.
pub fn message_from_body(body: &str) -> (message: String)
    ensures
        message@ == body_message(body@),
{
    match parse_json(body) {
        Some(doc) => {
            let message = json_text_member(&doc, "message");
            let error = json_text_member(&doc, "error");
            choose_message(message, error, body)
        },
        None => String::from_str(body),
    }
}

/// The message of a failed response whose body could not be read, given
/// the reason phrase of its status.
pub fn message_from_reason(phrase: Option<&str>) -> (message: String)
    ensures
        message@ == reason_or_unknown(chars_of_option(phrase)),
{
    match phrase {
        Some(p) => String::from_str(p),
        None => String::from_str("Unknown error"),
    }
}

/// Convert an error response into a `CanvasError`: `status` is the status
/// of the response, and `body` its body, or `None` where the body could not
/// be read.
pub fn error_from_response(status: u16, body: Option<&str>) -> (e: CanvasError)
    ensures
        e@ == response_error(status, chars_of_option(body)),
        e@.kind == crate::error::status_kind(status),
        e@.kind == ErrorKind::Api ==> e@.status == Some(status),
{
    let message = match body {
        Some(text) => message_from_body(text),
        None => message_from_reason(reason_phrase(status)),
    };
    CanvasError::from_status(status, message)
}

/// The failure to decode `body`, of which the decoder said `why`.
pub fn decode_failure(why: &str, body: &str) -> (e: CanvasError)
    ensures
        e@ == plain_error(ErrorKind::Internal, decode_failure_message(why@, body@)),
{
    let mut message = join("Failed to parse Canvas API response: ", why);
    message.append(". Response: ");
    message.append(take_chars(body, 200));
    CanvasError::internal(message)
}

/// What the outcome `decoded` of decoding `body` gives: the decoded value,
/// or the failure that reports the decoder's complaint.
pub fn decode_outcome<T>(body: &str, decoded: Result<T, String>) -> (result: Result<
    T,
    CanvasError,
>)
    ensures
        is_decoded_as(result, decoded, body@),
{
    match decoded {
        Ok(value) => Ok(value),
        Err(why) => Err(decode_failure(why.as_str(), body)),
    }
}

/// Handle a response and decode it or return its failure. `status` is the
/// status of the response; `body` is its body, or the complaint of the
/// transport that could not read it; `decode` decodes a body.
///
/// A response in the 2xx class gives what `decode` makes of its body,
/// whatever the body looks like, and the failure `Http` where the body
/// could not be read. Every other response gives the failure that its
/// status and body stand for.
pub fn handle_response<T, F: FnOnce(&str) -> Result<T, String>>(
    status: u16,
    body: Result<&str, &str>,
    decode: F,
) -> (result: Result<T, CanvasError>)
    requires
        is_success_status(status) ==> (body matches Ok(text) ==> call_requires(decode, (text,))),
    ensures
        match body {
            Ok(text) => if is_success_status(status) {
                exists|decoded: Result<T, String>|
                    call_ensures(decode, (text,), decoded) && is_decoded_as(
                        result,
                        decoded,
                        text@,
                    )
            } else {
                result matches Err(e) && e@ == response_error(status, Some(text@))
            },
            Err(why) => if is_success_status(status) {
                result matches Err(e) && e@ == plain_error(ErrorKind::Http, why@)
            } else {
                result matches Err(e) && e@ == response_error(status, None)
            },
        },
{
    if is_success(status) {
        match body {
            Ok(text) => {
                let decoded = decode(text);
                decode_outcome(text, decoded)
            },
            Err(why) => Err(CanvasError::Http(String::from_str(why))),
        }
    } else {
        match body {
            Ok(text) => Err(error_from_response(status, Some(text))),
            Err(_) => Err(error_from_response(status, None)),
        }
    }
}

} // verus!
