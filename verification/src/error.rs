//! The one error taxonomy that every bridge operation reports through.

use vstd::prelude::*;

verus! {

/// Why a bridge operation did not produce a result.
#[derive(Debug, Clone, PartialEq, Eq)]
pub enum ApiError {
    /// The transport could not complete the exchange: name resolution,
    /// connection, timeout or cancellation.
    Transport { message: String },
    /// The bridge answered with a status outside 200..=299.
    HttpStatus { code: i64, url: String },
    /// The bridge answered 2xx but reported an error object in the body.
    BridgeApi { code: i64, description: String, url: String },
    /// The body is not JSON, or does not have the shape the operation needs.
    MalformedResponse { reason: String },
}

/// Mathematical model of an [`ApiError`].
pub enum ApiErrorView {
    Transport { message: Seq<char> },
    HttpStatus { code: int, url: Seq<char> },
    BridgeApi { code: int, description: Seq<char>, url: Seq<char> },
    MalformedResponse { reason: Seq<char> },
}

impl View for ApiError {
    type V = ApiErrorView;

    open spec fn view(&self) -> ApiErrorView {
        match self {
            ApiError::Transport { message } => ApiErrorView::Transport { message: message@ },
            ApiError::HttpStatus { code, url } => ApiErrorView::HttpStatus {
                code: *code as int,
                url: url@,
            },
            ApiError::BridgeApi { code, description, url } => ApiErrorView::BridgeApi {
                code: *code as int,
                description: description@,
                url: url@,
            },
            ApiError::MalformedResponse { reason } => ApiErrorView::MalformedResponse {
                reason: reason@,
            },
        }
    }
}

impl ApiError {
    /// The numeric code the error carries: the HTTP status or the bridge's
    /// error type. Transport and malformed-response errors carry none.
    pub fn code(&self) -> (r: Option<i64>)
        ensures
            r == match self@ {
                ApiErrorView::HttpStatus { code, .. } => Some(code as i64),
                ApiErrorView::BridgeApi { code, .. } => Some(code as i64),
                _ => None::<i64>,
            },
    {
        match self {
            ApiError::HttpStatus { code, .. } => Some(*code),
            ApiError::BridgeApi { code, .. } => Some(*code),
            _ => None,
        }
    }
}

} // verus!
