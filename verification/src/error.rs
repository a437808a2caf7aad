//! The closed set of failures that crosses the boundary of this library.

use crate::text::{decimal, decimal_text, join};
use vstd::prelude::*;
use vstd::string::*;

verus! {

/// The kinds of failure.
#[derive(Debug, Clone, Copy, PartialEq, Eq, Structural)]
pub enum ErrorKind {
    /// A configuration value is missing or invalid.
    Config,
    /// The request failed before a status line was received.
    Http,
    /// A body could not be read as JSON.
    Json,
    /// A response outside the 2xx class that has no kind of its own.
    Api,
    /// HTTP 404.
    NotFound,
    /// HTTP 401 or 403.
    Auth,
    /// HTTP 429.
    RateLimit,
    /// The caller handed over an invalid argument.
    InvalidParameter,
    /// Anything else, decode failures included.
    Internal,
}

/// A failure of one of the kinds, with its message and, for `Api`, the
/// HTTP status.
#[derive(Debug, Clone, PartialEq, Eq)]
pub enum CanvasError {
    /// Configuration error
    Config(String),
    /// HTTP request error
    Http(String),
    /// JSON parsing error
    Json(String),
    /// Canvas API error
    Api { status: u16, message: String },
    /// Resource not found
    NotFound(String),
    /// Authentication error
    Auth(String),
    /// Rate limit exceeded
    RateLimit(String),
    /// Invalid parameter
    InvalidParameter(String),
    /// Internal error
    Internal(String),
}

/// What a `CanvasError` holds: its kind, the status where the kind is `Api`,
/// and its message.
pub struct ErrorView {
    pub kind: ErrorKind,
    pub status: Option<u16>,
    pub message: Seq<char>,
}

impl View for CanvasError {
    type V = ErrorView;

    open spec fn view(&self) -> ErrorView {
        match self {
            CanvasError::Config(m) => ErrorView { kind: ErrorKind::Config, status: None, message: m@ },
            CanvasError::Http(m) => ErrorView { kind: ErrorKind::Http, status: None, message: m@ },
            CanvasError::Json(m) => ErrorView { kind: ErrorKind::Json, status: None, message: m@ },
            CanvasError::Api { status, message } => ErrorView {
                kind: ErrorKind::Api,
                status: Some(*status),
                message: message@,
            },
            CanvasError::NotFound(m) => ErrorView {
                kind: ErrorKind::NotFound,
                status: None,
                message: m@,
            },
            CanvasError::Auth(m) => ErrorView { kind: ErrorKind::Auth, status: None, message: m@ },
            CanvasError::RateLimit(m) => ErrorView {
                kind: ErrorKind::RateLimit,
                status: None,
                message: m@,
            },
            CanvasError::InvalidParameter(m) => ErrorView {
                kind: ErrorKind::InvalidParameter,
                status: None,
                message: m@,
            },
            CanvasError::Internal(m) => ErrorView {
                kind: ErrorKind::Internal,
                status: None,
                message: m@,
            },
        }
    }
}

/// A failure of `kind` that carries no status.
pub open spec fn plain_error(kind: ErrorKind, message: Seq<char>) -> ErrorView {
    ErrorView { kind, status: None, message }
}

/// The kind that answers an HTTP status outside the 2xx class.
pub open spec fn status_kind(status: u16) -> ErrorKind {
    if status == 401 || status == 403 {
        ErrorKind::Auth
    } else if status == 404 {
        ErrorKind::NotFound
    } else if status == 429 {
        ErrorKind::RateLimit
    } else {
        ErrorKind::Api
    }
}

/// The failure that answers an HTTP status outside the 2xx class, given the
/// message taken from the response.
pub open spec fn status_error(status: u16, message: Seq<char>) -> ErrorView {
    if status == 401 {
        plain_error(ErrorKind::Auth, message)
    } else if status == 403 {
        plain_error(ErrorKind::Auth, "Forbidden: "@ + message)
    } else if status == 404 {
        plain_error(ErrorKind::NotFound, message)
    } else if status == 429 {
        plain_error(ErrorKind::RateLimit, "Rate limit exceeded: "@ + message)
    } else {
        ErrorView { kind: ErrorKind::Api, status: Some(status), message }
    }
}

/// The words that introduce the message of each kind when a failure is
/// written out.
pub open spec fn kind_label(kind: ErrorKind) -> Seq<char> {
    match kind {
        ErrorKind::Config => "Configuration error: "@,
        ErrorKind::Http => "HTTP request failed: "@,
        ErrorKind::Json => "JSON parsing error: "@,
        ErrorKind::Api => "Canvas API error: "@,
        ErrorKind::NotFound => "Resource not found: "@,
        ErrorKind::Auth => "Authentication failed: "@,
        ErrorKind::RateLimit => "Rate limit exceeded: "@,
        ErrorKind::InvalidParameter => "Invalid parameter: "@,
        ErrorKind::Internal => "Internal error: "@,
    }
}

/// A failure written out for a reader: the label of its kind, then the
/// message; for `Api` the status in base ten and `" - "` stand between them.
pub open spec fn description(e: ErrorView) -> Seq<char> {
    match e.status {
        Some(status) => kind_label(e.kind) + decimal(status as nat) + " - "@ + e.message,
        None => kind_label(e.kind) + e.message,
    }
}

impl CanvasError {
    /// Create a configuration error
    pub fn config(msg: String) -> (e: Self)
        ensures
            e@ == plain_error(ErrorKind::Config, msg@),
    {
        CanvasError::Config(msg)
    }

    /// Create an API error from status and message
    pub fn api(status: u16, message: String) -> (e: Self)
        ensures
            e@ == (ErrorView { kind: ErrorKind::Api, status: Some(status), message: message@ }),
    {
        CanvasError::Api { status, message }
    }

    /// Create a not found error
    pub fn not_found(msg: String) -> (e: Self)
        ensures
            e@ == plain_error(ErrorKind::NotFound, msg@),
    {
        CanvasError::NotFound(msg)
    }

    /// Create an authentication error
    pub fn auth(msg: String) -> (e: Self)
        ensures
            e@ == plain_error(ErrorKind::Auth, msg@),
    {
        CanvasError::Auth(msg)
    }

    /// Create an internal error
    pub fn internal(msg: String) -> (e: Self)
        ensures
            e@ == plain_error(ErrorKind::Internal, msg@),
    {
        CanvasError::Internal(msg)
    }

    /// The failure that answers the HTTP status of a response outside the 2xx
    /// class: 401 and 403 are `Auth`, 404 is `NotFound`, 429 is `RateLimit`,
    /// and every other status is `Api` with that status.
    pub fn from_status(status: u16, message: String) -> (e: Self)
        ensures
            e@ == status_error(status, message@),
            e@.kind == status_kind(status),
            e@.kind == ErrorKind::Api ==> e@.status == Some(status),
    {
        if status == 401 {
            CanvasError::auth(message)
        } else if status == 403 {
            CanvasError::auth(join("Forbidden: ", message.as_str()))
        } else if status == 404 {
            CanvasError::not_found(message)
        } else if status == 429 {
            CanvasError::RateLimit(join("Rate limit exceeded: ", message.as_str()))
        } else {
            CanvasError::api(status, message)
        }
    }

    /// The kind of this failure.
    pub fn kind(&self) -> (k: ErrorKind)
        ensures
            k == self@.kind,
    {
        match self {
            CanvasError::Config(_) => ErrorKind::Config,
            CanvasError::Http(_) => ErrorKind::Http,
            CanvasError::Json(_) => ErrorKind::Json,
            CanvasError::Api { .. } => ErrorKind::Api,
            CanvasError::NotFound(_) => ErrorKind::NotFound,
            CanvasError::Auth(_) => ErrorKind::Auth,
            CanvasError::RateLimit(_) => ErrorKind::RateLimit,
            CanvasError::InvalidParameter(_) => ErrorKind::InvalidParameter,
            CanvasError::Internal(_) => ErrorKind::Internal,
        }
    }

    /// The message that this failure carries.
    pub fn message(&self) -> (m: &str)
        ensures
            m@ == self@.message,
    {
        match self {
            CanvasError::Config(m) => m.as_str(),
            CanvasError::Http(m) => m.as_str(),
            CanvasError::Json(m) => m.as_str(),
            CanvasError::Api { message, .. } => message.as_str(),
            CanvasError::NotFound(m) => m.as_str(),
            CanvasError::Auth(m) => m.as_str(),
            CanvasError::RateLimit(m) => m.as_str(),
            CanvasError::InvalidParameter(m) => m.as_str(),
            CanvasError::Internal(m) => m.as_str(),
        }
    }

    /// The HTTP status that this failure carries: that of an `Api` failure.
    pub fn status(&self) -> (s: Option<u16>)
        ensures
            s == self@.status,
    {
        match self {
            CanvasError::Api { status, .. } => Some(*status),
            _ => None,
        }
    }

    /// This failure written out for a reader.
    pub fn describe(&self) -> (text: String)
        ensures
            text@ == description(self@),
    {
        let mut text = match self {
            CanvasError::Config(_) => String::from_str("Configuration error: "),
            CanvasError::Http(_) => String::from_str("HTTP request failed: "),
            CanvasError::Json(_) => String::from_str("JSON parsing error: "),
            CanvasError::Api { .. } => String::from_str("Canvas API error: "),
            CanvasError::NotFound(_) => String::from_str("Resource not found: "),
            CanvasError::Auth(_) => String::from_str("Authentication failed: "),
            CanvasError::RateLimit(_) => String::from_str("Rate limit exceeded: "),
            CanvasError::InvalidParameter(_) => String::from_str("Invalid parameter: "),
            CanvasError::Internal(_) => String::from_str("Internal error: "),
        };
        if let CanvasError::Api { status, .. } = self {
            let digits = decimal_text(*status);
            text.append(digits.as_str());
            text.append(" - ");
        }
        text.append(self.message());
        text
    }
}

} // verus!
