//! The calling side of a request/response call: what the caller gets for
//! what the transport brought back.
//!
//! One call is one request. Nothing is retried here: whether and when to
//! call again is up to the caller.

use crate::descriptor::{FunctionDescriptor, Method};
use crate::error::{ErrorModel, ServerFnError};
use vstd::prelude::*;
use vstd::string::StringExecFns;

verus! {

/// Whether a status says that the call succeeded: 200 to 299.
pub open spec fn is_success(status: u16) -> bool {
    200 <= status <= 299
}

/// Whether a status says that the call succeeded.
pub fn is_success_status(status: u16) -> (success: bool)
    ensures
        success == is_success(status),
{
    200 <= status && status <= 299
}

/// What the host saw of one call.
#[derive(Debug, PartialEq, Eq)]
pub enum CallOutcome<T, E> {
    /// The arguments could not be encoded; nothing was sent.
    NotEncoded(String),
    /// The request could not be sent, or no response came.
    NotSent(String),
    /// A response came whose body could not be read.
    Unreadable(String),
    /// A response with a success status came and its body was decoded.
    Decoded(T),
    /// A response with a success status came whose body could not be
    /// decoded.
    NotDecoded(String),
    /// A response with this status, which is no success status, came; its
    /// body was decoded to this error, or could not be decoded to any.
    Refused { status: u16, error: Option<ServerFnError<E>> },
}

/// What the caller gets, as value or as error model.
pub open spec fn call_result_model<T, E>(outcome: CallOutcome<T, E>) -> Result<T, ErrorModel<E>> {
    match outcome {
        CallOutcome::NotEncoded(detail) => Err(ErrorModel::Serialization(detail@)),
        CallOutcome::NotSent(detail) => Err(ErrorModel::Transport(detail@)),
        CallOutcome::Unreadable(detail) => Err(ErrorModel::Deserialization(detail@)),
        CallOutcome::Decoded(value) => Ok(value),
        CallOutcome::NotDecoded(detail) => Err(ErrorModel::Deserialization(detail@)),
        CallOutcome::Refused { status, error: Some(error) } => Err(error@),
        CallOutcome::Refused { status, error: None } => Err(ErrorModel::ServerStatus(status)),
    }
}

/// What the caller gets for what the host saw: the decoded value and nothing
/// else is a success; a refusal gives the error the server sent, where it
/// could be decoded, and the bare status where not.
pub fn call_result<T, E>(outcome: CallOutcome<T, E>) -> (result: Result<T, ServerFnError<E>>)
    ensures
        match result {
            Ok(value) => call_result_model(outcome) == Ok::<T, ErrorModel<E>>(value),
            Err(error) => call_result_model(outcome) == Err::<T, ErrorModel<E>>(error@),
        },
        result.is_ok() <==> outcome is Decoded,
{
    match outcome {
        CallOutcome::NotEncoded(detail) => Err(ServerFnError::Serialization(detail)),
        CallOutcome::NotSent(detail) => Err(ServerFnError::Transport(detail)),
        CallOutcome::Unreadable(detail) => Err(ServerFnError::Deserialization(detail)),
        CallOutcome::Decoded(value) => Ok(value),
        CallOutcome::NotDecoded(detail) => Err(ServerFnError::Deserialization(detail)),
        CallOutcome::Refused { status, error } => match error {
            Some(sent) => Err(sent),
            None => Err(ServerFnError::ServerStatus(status)),
        },
    }
}

/// The request that calls a function: its method, its path and the content
/// type of its body.
#[derive(Debug, Clone, PartialEq, Eq)]
pub struct CallRequest {
    pub method: Method,
    pub path: String,
    pub content_type: &'static str,
}

/// The request that calls the function `descriptor` describes.
pub fn call_request(descriptor: &FunctionDescriptor) -> (request: CallRequest)
    ensures
        request.method == descriptor.spec_transport().spec_method(),
        request.path@ == descriptor.spec_path(),
        request.content_type@ == descriptor.spec_encoding().spec_content_type(),
{
    CallRequest {
        method: descriptor.method(),
        path: String::from_str(descriptor.path()),
        content_type: descriptor.encoding().content_type(),
    }
}

} // verus!
