//! The serving side of one invocation: what is sent back for what the
//! handler did.
//!
//! The host decodes the request, runs the handler inside its scope and
//! encodes what comes out; the functions here decide the response from the
//! outcome. A failure never takes the serving process down: whatever went
//! wrong is reported to the caller as an error of the taxonomy.

use crate::descriptor::Encoding;
use crate::error::{ErrorKind, ErrorModel, ServerFnError, STATUS_OK};
use crate::event::{Event, FieldModel};
use crate::wire::{encode_error, frame, frame_parts, lemma_frame_round_trip, wire_text};
use vstd::prelude::*;
use vstd::string::{StrSliceExecFns, StringExecFns};
use vstd::utf8::encode_utf8;

verus! {

/// Seconds between two heartbeats on a stream with nothing else to send, so
/// that what stands between caller and server does not take the connection
/// for dead.
pub const KEEP_ALIVE_SECS: u64 = 15;

/// The response to a call.
#[derive(Debug, Clone, PartialEq, Eq)]
pub struct Reply {
    /// The status of the response.
    pub status: u16,
    /// The content type of the body.
    pub content_type: &'static str,
    /// The body.
    pub body: Vec<u8>,
}

/// How one invocation went.
#[derive(Debug, PartialEq, Eq)]
pub enum HandlerOutcome<E> {
    /// The request could not be decoded; the handler did not run.
    Undecodable(String),
    /// The handler returned a value, which is encoded here.
    Returned(Vec<u8>),
    /// The handler returned a value that could not be encoded.
    Unencodable(String),
    /// The handler returned an error.
    Failed(ServerFnError<E>),
    /// The handler failed in a way it should not: it panicked.
    Panicked(String),
}

/// What follows from an invocation.
#[derive(Debug, PartialEq, Eq)]
pub enum Settled<E> {
    /// This response is sent.
    Respond(Reply),
    /// This error is encoded and sent, by `error_reply`.
    Report(ServerFnError<E>),
}

/// The error that an invocation ends in, if it ends in one.
pub open spec fn reported_error<E>(outcome: HandlerOutcome<E>) -> Option<ErrorModel<E>> {
    match outcome {
        HandlerOutcome::Undecodable(detail) => Some(ErrorModel::Deserialization(detail@)),
        HandlerOutcome::Returned(_) => None,
        HandlerOutcome::Unencodable(detail) => Some(ErrorModel::Serialization(detail@)),
        HandlerOutcome::Failed(error) => Some(error@),
        HandlerOutcome::Panicked(detail) => Some(ErrorModel::Custom(detail@)),
    }
}

/// Decides what follows from an invocation: a value that was returned and
/// encoded is sent with status 200 and the content type of the encoding;
/// anything else is an error to report. A request that could not be decoded
/// is a `Deserialization` error, a value that could not be encoded a
/// `Serialization` error, a panic a `Custom` error.
pub fn settle_rpc<E>(encoding: Encoding, outcome: HandlerOutcome<E>) -> (settled: Settled<E>)
    ensures
        match settled {
            Settled::Respond(reply) => outcome == HandlerOutcome::<E>::Returned(reply.body)
                && reply.status == STATUS_OK && reply.content_type@
                == encoding.spec_content_type(),
            Settled::Report(error) => reported_error(outcome) == Some(error@),
        },
{
    match outcome {
        HandlerOutcome::Undecodable(detail) => Settled::Report(
            ServerFnError::Deserialization(detail),
        ),
        HandlerOutcome::Returned(body) => Settled::Respond(
            Reply { status: STATUS_OK, content_type: encoding.content_type(), body },
        ),
        HandlerOutcome::Unencodable(detail) => Settled::Report(
            ServerFnError::Serialization(detail),
        ),
        HandlerOutcome::Failed(error) => Settled::Report(error),
        HandlerOutcome::Panicked(detail) => Settled::Report(ServerFnError::Custom(detail)),
    }
}

/// The body sent for an error that could not itself be encoded: a `Custom`
/// error that says so.
pub open spec fn fallback_error_text() -> Seq<char> {
    "{\"type\":\"Custom\",\"data\":\"Serialization failed\"}"@
}

/// The body sent for an error that could not itself be encoded.
pub fn fallback_error_body() -> (text: &'static str)
    ensures
        text@ == fallback_error_text(),
{
    "{\"type\":\"Custom\",\"data\":\"Serialization failed\"}"
}

/// The body that reports `error`: the error as it travels, or the fallback
/// body for an application error whose data the host could not encode.
pub open spec fn error_body<E>(error: ErrorModel<E>, app_data: Option<Seq<char>>) -> Seq<char> {
    match (error, app_data) {
        (ErrorModel::AppError(_), None) => fallback_error_text(),
        (_, Some(data)) => wire_text(error, data),
        (_, None) => wire_text(error, Seq::empty()),
    }
}

/// The response that reports `error`: its status follows from the kind of
/// the error, its body is the error as JSON, whatever the encoding of the
/// function. `app_data` is the application error as the host encoded it, or
/// `None` where it could not be encoded; it counts for an `AppError` only.
pub fn error_reply<E>(error: &ServerFnError<E>, app_data: Option<&str>) -> (reply: Reply)
    ensures
        reply.status == error@.kind().spec_status(),
        reply.content_type@ == Encoding::Json.spec_content_type(),
        reply.body@ == encode_utf8(
            error_body(
                error@,
                match app_data {
                    Some(data) => Some(data@),
                    None => None,
                },
            ),
        ),
{
    let text = match (error, app_data) {
        (ServerFnError::AppError(_), None) => String::from_str(fallback_error_body()),
        (_, Some(data)) => encode_error(error, data),
        (_, None) => {
            let nothing = String::new();
            encode_error(error, nothing.as_str())
        },
    };
    Reply {
        status: error.status_code(),
        content_type: Encoding::Json.content_type(),
        body: text.as_str().as_bytes_vec(),
    }
}

/// The fallback body is itself an error as it travels: a frame with the tag
/// of a `Custom` error around a JSON string.
pub proof fn lemma_fallback_is_a_frame()
    ensures
        frame_parts(fallback_error_text()) == Some(
            (ErrorKind::Custom.spec_wire_tag(), "\"Serialization failed\""@),
        ),
{
    reveal_strlit("{\"type\":\"Custom\",\"data\":\"Serialization failed\"}");
    reveal_strlit("Custom");
    reveal_strlit("\"Serialization failed\"");
    let tag = "Custom"@;
    let data = "\"Serialization failed\""@;
    assert(fallback_error_text() =~= frame(tag, data));
    lemma_frame_round_trip(tag, data);
}

/// The name of the event that reports an error of the stream itself.
pub open spec fn error_event_name() -> Seq<char> {
    "error"@
}

/// The event for one item of a stream: a message with the item's encoding
/// as data, or with no data where the item could not be encoded. Such an
/// item costs the stream one empty event and no more.
pub fn item_event(encoded: Result<String, String>) -> (event: Event)
    ensures
        event.spec_fields() == seq![
            FieldModel::Data(
                match encoded {
                    Ok(text) => text@,
                    Err(_) => Seq::<char>::empty(),
                },
            ),
        ],
{
    let event = match encoded {
        Ok(text) => Event::new().data(text.as_str()),
        Err(_) => {
            let nothing = String::new();
            Event::new().data(nothing.as_str())
        },
    };
    proof {
        assert(event.spec_fields() =~= seq![event.spec_fields()[0]]);
    }
    event
}

/// The event for one item of a stream whose items can be errors: a message
/// with the item's encoding; a message that tells of the failure, for an
/// item that could not be encoded; an event named `error` with the error's
/// text, for an item that is an error.
pub fn result_event(item: Result<Result<String, String>, String>) -> (event: Event)
    ensures
        event.spec_fields() == match item {
            Ok(Ok(text)) => seq![FieldModel::Data(text@)],
            Ok(Err(reason)) => seq![FieldModel::Data("serialization error: "@ + reason@)],
            Err(error) => seq![FieldModel::Event(error_event_name()), FieldModel::Data(error@)],
        },
{
    match item {
        Ok(Ok(text)) => {
            let event = Event::new().data(text.as_str());
            proof {
                assert(event.spec_fields() =~= seq![FieldModel::Data(text@)]);
            }
            event
        },
        Ok(Err(reason)) => {
            let told = String::from_str("serialization error: ").concat(reason.as_str());
            let event = Event::new().data(told.as_str());
            proof {
                assert(event.spec_fields() =~= seq![FieldModel::Data(told@)]);
            }
            event
        },
        Err(error) => {
            proof {
                reveal_strlit("error");
            }
            let event = Event::new().event("error").data(error.as_str());
            proof {
                assert(event.spec_fields() =~= seq![
                    FieldModel::Event(error_event_name()),
                    FieldModel::Data(error@),
                ]);
            }
            event
        },
    }
}

/// Every invocation is answered: with status 200 for a value, and with the
/// status of its kind for an error, which is 400 or 500. A request that
/// could not be decoded is answered with 400, a panic with 500.
pub proof fn lemma_every_outcome_is_answered<E>(encoding: Encoding, outcome: HandlerOutcome<E>)
    ensures
        outcome is Returned <==> reported_error(outcome).is_none(),
        reported_error(outcome) matches Some(error) ==> error.kind().spec_status() == 400
            || error.kind().spec_status() == 500,
        outcome is Undecodable ==> reported_error(outcome).unwrap().kind().spec_status() == 400,
        outcome is Panicked ==> reported_error(outcome).unwrap().kind().spec_status() == 500,
        outcome is Unencodable ==> reported_error(outcome).unwrap().kind().spec_status() == 500,
{
}

} // verus!
