use vstd::prelude::*;

use crate::message::NtfyAction;
use crate::message::NtfyPriority;

verus! {

/// What the server reports about a stored attachment.
#[derive(Clone, Debug, PartialEq)]
pub struct NtfyAttachment {
    pub name: String,
    pub url: String,
    pub content_type: Option<String>,
    pub size: Option<u64>,
    pub expires: Option<u64>,
}

/// A delivered notification as the server echoes it back: the
/// server-assigned identifier and timestamp, the destination topic, and
/// whatever delivered fields the server chose to repeat.
#[derive(Clone, Debug, PartialEq)]
pub struct NtfyResponse {
    pub id: String,
    pub time: u64,
    pub event: Option<String>,
    pub topic: String,
    pub message: Option<String>,
    pub title: Option<String>,
    pub tags: Option<Vec<String>>,
    pub priority: Option<NtfyPriority>,
    pub click: Option<String>,
    pub action: Option<Vec<NtfyAction>>,
    pub attachment: Option<NtfyAttachment>,
}

/// A structured error as the server reports it: a service-specific numeric
/// code, the HTTP-equivalent status, a human-readable message and, when
/// given, a link with more detail.
#[derive(Clone, Debug, PartialEq)]
pub struct NtfyErrorResponse {
    pub code: u64,
    pub http: u16,
    pub error: String,
    pub link: Option<String>,
}

/// Why a publish failed, as the caller discriminates it: the server
/// answered with a well-formed structured error; the HTTP exchange itself
/// failed (the text wraps the underlying cause); or a response body did not
/// parse as the expected schema.
#[derive(Clone, Debug, PartialEq)]
pub enum NtfyError {
    ApiError(NtfyErrorResponse),
    TransportError(String),
    DecodeError,
}

/// Status codes of the 2xx class.
pub open spec fn is_success_status(status: u16) -> bool {
    200 <= status < 300
}

/// Classify an exchanged response.  `status` is the HTTP status the server
/// answered with; `success` and `failure` are the body parsed against the
/// success and the error schema respectively, `None` where it does not
/// parse.  A 2xx status yields the success payload, or a decode error when
/// the body did not parse; any other status yields the server's structured
/// error, or a decode error when the error body did not parse — never a
/// fabricated success or API error.
pub fn decode_response(
    status: u16,
    success: Option<NtfyResponse>,
    failure: Option<NtfyErrorResponse>,
) -> (r: Result<NtfyResponse, NtfyError>)
    ensures
        is_success_status(status) && success is Some ==> r == Ok::<NtfyResponse, NtfyError>(
            success.unwrap(),
        ),
        is_success_status(status) && success is None ==> r == Err::<NtfyResponse, NtfyError>(
            NtfyError::DecodeError,
        ),
        !is_success_status(status) && failure is Some ==> r == Err::<NtfyResponse, NtfyError>(
            NtfyError::ApiError(failure.unwrap()),
        ),
        !is_success_status(status) && failure is None ==> r == Err::<NtfyResponse, NtfyError>(
            NtfyError::DecodeError,
        ),
{
    if 200 <= status && status < 300 {
        match success {
            Some(payload) => Ok(payload),
            None => Err(NtfyError::DecodeError),
        }
    } else {
        match failure {
            Some(err) => Err(NtfyError::ApiError(err)),
            None => Err(NtfyError::DecodeError),
        }
    }
}

} // verus!
