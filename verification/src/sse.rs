//! The calling side of a server-to-caller stream: a handle that a render
//! loop polls once per frame, and the errors of such a stream.

use crate::connection::ConnectionState;
use crate::link::{drive_model, Link, LinkModel, Phase, Report, Task};
use crate::mailbox::latest_state;
use crate::reconnect::ReconnectConfig;
use crate::socket::SocketEvent;
use vstd::prelude::*;
use vstd::string::StringExecFns;

verus! {

/// An error of a server-to-caller stream.
#[derive(Debug, Clone, PartialEq, Eq)]
pub enum SseError {
    /// The connection could not be made or broke.
    Connection(String),
    /// An event could not be decoded.
    Parse(String),
    /// The stream was closed.
    Closed,
}

impl SseError {
    /// The text that describes this error to a reader.
    pub open spec fn spec_message(self) -> Seq<char> {
        match self {
            SseError::Connection(detail) => "SSE connection error: "@ + detail@,
            SseError::Parse(detail) => "SSE parse error: "@ + detail@,
            SseError::Closed => "SSE stream closed"@,
        }
    }

    /// The text that describes this error to a reader.
    pub fn message(&self) -> (text: String)
        ensures
            text@ == self.spec_message(),
    {
        match self {
            SseError::Connection(detail) => String::from_str("SSE connection error: ").concat(
                detail.as_str(),
            ),
            SseError::Parse(detail) => String::from_str("SSE parse error: ").concat(
                detail.as_str(),
            ),
            SseError::Closed => String::from_str("SSE stream closed"),
        }
    }
}

/// What an arrival means to a reader that wants to hear of every failure:
/// the item, the error to report in its place, or nothing to report.
pub fn sse_report<T>(event: SocketEvent<T>) -> (report: Option<Result<T, SseError>>)
    ensures
        report == match event {
            SocketEvent::Payload(Ok(item)) => Some(Ok::<T, SseError>(item)),
            SocketEvent::Payload(Err(reason)) => Some(Err::<T, SseError>(SseError::Parse(reason))),
            SocketEvent::Error(reason) => Some(Err::<T, SseError>(SseError::Connection(reason))),
            _ => None::<Result<T, SseError>>,
        },
{
    match event {
        SocketEvent::Payload(Ok(item)) => Some(Ok(item)),
        SocketEvent::Payload(Err(reason)) => Some(Err(SseError::Parse(reason))),
        SocketEvent::Error(reason) => Some(Err(SseError::Connection(reason))),
        _ => None,
    }
}

/// The address of a stream that takes parameters: the endpoint, then `?`
/// and the parameters as a query; the endpoint alone for a stream without
/// parameters.
pub fn stream_url(endpoint: &str, query: Option<&str>) -> (url: String)
    ensures
        url@ == match query {
            Some(text) => endpoint@ + "?"@ + text@,
            None => endpoint@,
        },
{
    match query {
        Some(text) => String::from_str(endpoint).concat("?").concat(text),
        None => String::from_str(endpoint),
    }
}

/// A handle to a server-to-caller stream.
///
/// The caller reads without waiting; the background task that owns the
/// connection is driven through `drive`. Nothing is ever queued for
/// sending, so the task is never asked to send.
pub struct SseStream<T> {
    endpoint: String,
    link: Link<(), T>,
}

impl<T> SseStream<T> {
    /// The address the stream connects to.
    pub closed spec fn endpoint(self) -> Seq<char> {
        self.endpoint@
    }

    /// What the handle holds.
    pub closed spec fn link(self) -> LinkModel<(), T> {
        self.link@
    }

    /// What a handle holds before its task has started.
    pub open spec fn fresh(config: ReconnectConfig) -> LinkModel<(), T> {
        LinkModel {
            phase: Phase::Idle,
            released: false,
            queued: Seq::empty(),
            buffered: Seq::empty(),
            pending: Seq::empty(),
            seen: ConnectionState::Connecting,
            state: ConnectionState::Connecting,
            config,
        }
    }

    /// A handle to the stream at `endpoint`, reconnecting by the default
    /// policy. The first attempt is about to be made.
    pub fn connect(endpoint: &str) -> (stream: Self)
        ensures
            stream.endpoint() == endpoint@,
            stream.link() == Self::fresh(ReconnectConfig::spec_default()),
    {
        Self::connect_with_config(endpoint, ReconnectConfig::new())
    }

    /// A handle to the stream at `endpoint`, reconnecting by `config`.
    pub fn connect_with_config(endpoint: &str, config: ReconnectConfig) -> (stream: Self)
        ensures
            stream.endpoint() == endpoint@,
            stream.link() == Self::fresh(config),
    {
        SseStream { endpoint: String::from_str(endpoint), link: Link::new(config) }
    }

    /// The address the stream connects to.
    pub fn url(&self) -> (url: &str)
        ensures
            url@ == self.endpoint(),
    {
        self.endpoint.as_str()
    }

    /// The policy the stream reconnects by.
    pub fn reconnect_config(&self) -> (config: ReconnectConfig)
        ensures
            config == self.link().config,
    {
        self.link.config()
    }

    /// Takes the oldest buffered event, if there is one.
    pub fn try_recv(&mut self) -> (event: Option<T>)
        ensures
            match event {
                Some(first) => old(self).link().buffered.len() > 0 && first == old(
                    self,
                ).link().buffered[0] && final(self).link() == (LinkModel {
                    buffered: old(self).link().buffered.drop_first(),
                    ..old(self).link()
                }),
                None => old(self).link().buffered.len() == 0 && final(self).link() == old(
                    self,
                ).link(),
            },
            final(self).endpoint() == old(self).endpoint(),
    {
        self.link.try_recv()
    }

    /// Takes every buffered event, oldest first.
    pub fn try_iter(&mut self) -> (events: Vec<T>)
        ensures
            events@ == old(self).link().buffered,
            final(self).link() == (LinkModel { buffered: Seq::empty(), ..old(self).link() }),
            final(self).endpoint() == old(self).endpoint(),
    {
        self.link.try_iter()
    }

    /// The state of the connection, by the last change announced.
    pub fn state(&mut self) -> (state: ConnectionState)
        ensures
            state == latest_state(old(self).link().seen, old(self).link().pending),
            final(self).link() == (LinkModel {
                seen: state,
                pending: Seq::empty(),
                ..old(self).link()
            }),
            final(self).endpoint() == old(self).endpoint(),
    {
        self.link.state()
    }

    /// Whether the stream is open, by the last change announced.
    pub fn is_connected(&mut self) -> (connected: bool)
        ensures
            connected == (latest_state(old(self).link().seen, old(self).link().pending)
                == ConnectionState::Connected),
            final(self).link() == (LinkModel {
                seen: latest_state(old(self).link().seen, old(self).link().pending),
                pending: Seq::empty(),
                ..old(self).link()
            }),
            final(self).endpoint() == old(self).endpoint(),
    {
        match self.link.state() {
            ConnectionState::Connected => true,
            _ => false,
        }
    }

    /// Whether the caller has let go of the handle.
    pub fn was_released(&self) -> (released: bool)
        ensures
            released == self.link().released,
    {
        self.link.was_released()
    }

    /// Lets go of the handle: the background task closes the connection and
    /// ends at its next report, without another attempt.
    pub fn release(&mut self)
        ensures
            final(self).link() == (LinkModel { released: true, ..old(self).link() }),
            final(self).endpoint() == old(self).endpoint(),
    {
        self.link.release();
    }

    /// For the background task: takes in the outcome of the task it was
    /// given and gives the task to do next. `random` is a uniform draw from
    /// the whole of `u32`, used where a retry delay is computed. With
    /// nothing queued, which is how a stream from the server starts and
    /// stays, the task is never to send.
    pub fn drive(&mut self, report: Report<T>, random: u32) -> (task: Task<()>)
        ensures
            (final(self).link(), task) == drive_model(old(self).link(), report, random),
            old(self).link().queued.len() == 0 ==> !(task is Send) && final(self).link().queued.len() == 0,
            final(self).endpoint() == old(self).endpoint(),
    {
        proof {
            crate::link::lemma_queue_keeps_order(self.link@, report, random);
        }
        self.link.drive(report, random)
    }
}

} // verus!
