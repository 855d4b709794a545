//! The API error type and the JSON error envelope built from it.

use vstd::prelude::*;

use crate::models::{ErrorDetail, ErrorEnvelope};

verus! {

/// Every failure an API handler can answer with.
#[derive(Debug)]
pub enum ApiError {
    BadRequest(String),
    EncodeFailed(String),
    DecodeFailed(String),
    BroadcasterUnavailable(String),
    QueueFull(String),
    Internal(String),
}

impl ApiError {
    /// The machine-readable error code of each variant.
    pub open spec fn code_text(&self) -> Seq<char> {
        match self {
            ApiError::BadRequest(_) => "BAD_REQUEST"@,
            ApiError::EncodeFailed(_) => "ENCODE_FAILED"@,
            ApiError::DecodeFailed(_) => "DECODE_FAILED"@,
            ApiError::BroadcasterUnavailable(_) => "BROADCASTER_UNAVAILABLE"@,
            ApiError::QueueFull(_) => "QUEUE_FULL"@,
            ApiError::Internal(_) => "INTERNAL_ERROR"@,
        }
    }

    /// The HTTP status number each variant is answered with.
    pub open spec fn status_number(&self) -> u16 {
        match self {
            ApiError::BadRequest(_) => 400,
            ApiError::EncodeFailed(_) => 422,
            ApiError::DecodeFailed(_) => 422,
            ApiError::BroadcasterUnavailable(_) => 502,
            ApiError::QueueFull(_) => 503,
            ApiError::Internal(_) => 500,
        }
    }

    /// The human-readable message carried by the error.
    pub open spec fn message_text(&self) -> Seq<char> {
        match self {
            ApiError::BadRequest(m) => m@,
            ApiError::EncodeFailed(m) => m@,
            ApiError::DecodeFailed(m) => m@,
            ApiError::BroadcasterUnavailable(m) => m@,
            ApiError::QueueFull(m) => m@,
            ApiError::Internal(m) => m@,
        }
    }

    pub fn code(&self) -> (code: &'static str)
        ensures
            code@ == self.code_text(),
    {
        match self {
            ApiError::BadRequest(_) => "BAD_REQUEST",
            ApiError::EncodeFailed(_) => "ENCODE_FAILED",
            ApiError::DecodeFailed(_) => "DECODE_FAILED",
            ApiError::BroadcasterUnavailable(_) => "BROADCASTER_UNAVAILABLE",
            ApiError::QueueFull(_) => "QUEUE_FULL",
            ApiError::Internal(_) => "INTERNAL_ERROR",
        }
    }

    /// The HTTP status code, as its number.
    pub fn status_code(&self) -> (status: u16)
        ensures
            status == self.status_number(),
    {
        match self {
            ApiError::BadRequest(_) => 400,
            ApiError::EncodeFailed(_) | ApiError::DecodeFailed(_) => 422,
            ApiError::BroadcasterUnavailable(_) => 502,
            ApiError::QueueFull(_) => 503,
            ApiError::Internal(_) => 500,
        }
    }

    /// A copy of the message carried by the error.
    pub fn message(&self) -> (message: String)
        ensures
            message@ == self.message_text(),
    {
        match self {
            ApiError::BadRequest(m)
            | ApiError::EncodeFailed(m)
            | ApiError::DecodeFailed(m)
            | ApiError::BroadcasterUnavailable(m)
            | ApiError::QueueFull(m)
            | ApiError::Internal(m) => m.clone(),
        }
    }

    /// The JSON body the error is answered with: its code, message and status.
    pub fn envelope(&self) -> (body: ErrorEnvelope)
        ensures
            body.error.code@ == self.code_text(),
            body.error.message@ == self.message_text(),
            body.error.status == self.status_number(),
    {
        let code = self.code();
        ErrorEnvelope {
            error: ErrorDetail { code: code.to_owned(), message: self.message(), status: self.status_code() },
        }
    }
}

} // verus!
