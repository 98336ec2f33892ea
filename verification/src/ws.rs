//! The calling side of a bidirectional stream: a handle that a render loop
//! polls once per frame and sends through, and the errors of such a stream.

use crate::connection::ConnectionState;
use crate::link::{drive_model, Link, LinkModel, Phase, Report, Task, OUTBOUND_CAPACITY};
use crate::mailbox::latest_state;
use crate::reconnect::ReconnectConfig;
use crate::socket::SocketEvent;
use crate::text::{chars_of, starts_with, str_equal};
use vstd::prelude::*;
use vstd::string::StringExecFns;

verus! {

/// The state of a bidirectional connection.
pub type WsConnectionState = ConnectionState;

/// An error of a bidirectional stream.
#[derive(Debug, Clone, PartialEq, Eq)]
pub enum WsError {
    /// The connection could not be made or broke.
    Connection(String),
    /// A message could not be decoded.
    Parse(String),
    /// A message could not be sent.
    Send(String),
    /// The connection was closed.
    Closed,
}

impl WsError {
    /// The text that describes this error to a reader.
    pub open spec fn spec_message(self) -> Seq<char> {
        match self {
            WsError::Connection(detail) => "WebSocket connection error: "@ + detail@,
            WsError::Parse(detail) => "WebSocket parse error: "@ + detail@,
            WsError::Send(detail) => "WebSocket send error: "@ + detail@,
            WsError::Closed => "WebSocket closed"@,
        }
    }

    /// The text that describes this error to a reader.
    pub fn message(&self) -> (text: String)
        ensures
            text@ == self.spec_message(),
    {
        match self {
            WsError::Connection(detail) => String::from_str(
                "WebSocket connection error: ",
            ).concat(detail.as_str()),
            WsError::Parse(detail) => String::from_str("WebSocket parse error: ").concat(
                detail.as_str(),
            ),
            WsError::Send(detail) => String::from_str("WebSocket send error: ").concat(
                detail.as_str(),
            ),
            WsError::Closed => String::from_str("WebSocket closed"),
        }
    }
}

/// What an arrival means to a reader that wants to hear of every failure:
/// the item, the error to report in its place, or nothing to report.
pub fn ws_report<R>(event: SocketEvent<R>) -> (report: Option<Result<R, WsError>>)
    ensures
        report == match event {
            SocketEvent::Payload(Ok(item)) => Some(Ok::<R, WsError>(item)),
            SocketEvent::Payload(Err(reason)) => Some(Err::<R, WsError>(WsError::Parse(reason))),
            SocketEvent::Error(reason) => Some(Err::<R, WsError>(WsError::Connection(reason))),
            _ => None::<Result<R, WsError>>,
        },
{
    match event {
        SocketEvent::Payload(Ok(item)) => Some(Ok(item)),
        SocketEvent::Payload(Err(reason)) => Some(Err(WsError::Parse(reason))),
        SocketEvent::Error(reason) => Some(Err(WsError::Connection(reason))),
        _ => None,
    }
}

/// Whether `endpoint` is a socket address already, rather than a path on
/// the page's host.
pub open spec fn is_socket_url(endpoint: Seq<char>) -> bool {
    "ws://"@.is_prefix_of(endpoint) || "wss://"@.is_prefix_of(endpoint)
}

/// The socket address for `endpoint`, for a page that was loaded over
/// `protocol` (`https:`, `http:`) from `host`: the endpoint itself where it
/// is a socket address already, else the host and the endpoint behind `wss:`
/// for a page loaded over `https:` and behind `ws:` for any other.
pub open spec fn socket_url(protocol: Seq<char>, host: Seq<char>, endpoint: Seq<char>) -> Seq<
    char,
> {
    if is_socket_url(endpoint) {
        endpoint
    } else if protocol == "https:"@ {
        "wss:"@ + "//"@ + host + endpoint
    } else {
        "ws:"@ + "//"@ + host + endpoint
    }
}

/// Builds the socket address for `endpoint` from the protocol and host of
/// the page.
pub fn build_ws_url(protocol: &str, host: &str, endpoint: &str) -> (url: String)
    ensures
        url@ == socket_url(protocol@, host@, endpoint@),
{
    let chars = chars_of(endpoint);
    let plain = chars_of("ws://");
    let secure = chars_of("wss://");
    if starts_with(&chars, &plain) || starts_with(&chars, &secure) {
        return String::from_str(endpoint);
    }
    let scheme = if str_equal(protocol, "https:") {
        "wss:"
    } else {
        "ws:"
    };
    String::from_str(scheme).concat("//").concat(host).concat(endpoint)
}

/// A handle to a bidirectional stream.
///
/// The caller sends and reads without waiting; the background task that
/// owns the connection is driven through `drive`.
pub struct WsStream<S, R> {
    endpoint: String,
    link: Link<S, R>,
}

impl<S, R> WsStream<S, R> {
    /// The address the stream connects to.
    pub closed spec fn endpoint(self) -> Seq<char> {
        self.endpoint@
    }

    /// What the handle holds.
    pub closed spec fn link(self) -> LinkModel<S, R> {
        self.link@
    }

    /// What a handle holds before its task has started.
    pub open spec fn fresh(config: ReconnectConfig) -> LinkModel<S, R> {
        LinkModel {
            phase: Phase::Idle,
            released: false,
            queued: Seq::empty(),
            buffered: Seq::empty(),
            pending: Seq::empty(),
            seen: ConnectionState::Connecting,
            state: ConnectionState::Connecting,
            config,
        }
    }

    /// Whether what is sent can still leave: the background task has not
    /// ended and the handle was not let go of.
    pub open spec fn accepts_sends(self) -> bool {
        self.link().phase != Phase::Ended && !self.link().released
    }

    /// A handle to the stream at `endpoint`, reconnecting by the default
    /// policy. The first attempt is about to be made.
    pub fn connect(endpoint: &str) -> (stream: Self)
        ensures
            stream.endpoint() == endpoint@,
            stream.link() == Self::fresh(ReconnectConfig::spec_default()),
    {
        Self::connect_with_config(endpoint, ReconnectConfig::new())
    }

    /// A handle to the stream at `endpoint`, reconnecting by `config`.
    pub fn connect_with_config(endpoint: &str, config: ReconnectConfig) -> (stream: Self)
        ensures
            stream.endpoint() == endpoint@,
            stream.link() == Self::fresh(config),
    {
        WsStream { endpoint: String::from_str(endpoint), link: Link::new(config) }
    }

    /// The address the stream connects to.
    pub fn url(&self) -> (url: &str)
        ensures
            url@ == self.endpoint(),
    {
        self.endpoint.as_str()
    }

    /// The policy the stream reconnects by.
    pub fn reconnect_config(&self) -> (config: ReconnectConfig)
        ensures
            config == self.link().config,
    {
        self.link.config()
    }

    /// Queues `message` for sending and says whether it was queued. It is
    /// not queued once the background task has ended or the handle was let
    /// go of, nor while `OUTBOUND_CAPACITY` messages wait already; the call
    /// never waits.
    pub fn send(&mut self, message: S) -> (queued: bool)
        ensures
            queued == (old(self).accepts_sends() && old(self).link().queued.len()
                < OUTBOUND_CAPACITY),
            final(self).link() == (LinkModel {
                queued: if queued {
                    old(self).link().queued.push(message)
                } else {
                    old(self).link().queued
                },
                ..old(self).link()
            }),
            final(self).endpoint() == old(self).endpoint(),
    {
        self.link.send(message)
    }

    /// Queues `message` for sending, or says why it cannot be queued: the
    /// connection is closed once the background task has ended or the
    /// handle was let go of; the message cannot be sent while
    /// `OUTBOUND_CAPACITY` messages wait already.
    pub fn try_send(&mut self, message: S) -> (sent: Result<(), WsError>)
        ensures
            match sent {
                Ok(()) => old(self).accepts_sends() && old(self).link().queued.len()
                    < OUTBOUND_CAPACITY && final(self).link() == (LinkModel {
                    queued: old(self).link().queued.push(message),
                    ..old(self).link()
                }),
                Err(WsError::Closed) => !old(self).accepts_sends() && final(self).link() == old(
                    self,
                ).link(),
                Err(WsError::Send(reason)) => old(self).accepts_sends() && old(
                    self,
                ).link().queued.len() >= OUTBOUND_CAPACITY && reason@
                    == "outbound queue is full"@ && final(self).link() == old(self).link(),
                Err(_) => false,
            },
            final(self).endpoint() == old(self).endpoint(),
    {
        if !self.link.accepts_sends() {
            Err(WsError::Closed)
        } else if self.link.is_full() {
            Err(WsError::Send(String::from_str("outbound queue is full")))
        } else {
            let queued = self.link.send(message);
            Ok(())
        }
    }

    /// Takes the oldest buffered message, if there is one.
    pub fn try_recv(&mut self) -> (message: Option<R>)
        ensures
            match message {
                Some(first) => old(self).link().buffered.len() > 0 && first == old(
                    self,
                ).link().buffered[0] && final(self).link() == (LinkModel {
                    buffered: old(self).link().buffered.drop_first(),
                    ..old(self).link()
                }),
                None => old(self).link().buffered.len() == 0 && final(self).link() == old(
                    self,
                ).link(),
            },
            final(self).endpoint() == old(self).endpoint(),
    {
        self.link.try_recv()
    }

    /// Takes every buffered message, oldest first.
    pub fn try_iter(&mut self) -> (messages: Vec<R>)
        ensures
            messages@ == old(self).link().buffered,
            final(self).link() == (LinkModel { buffered: Seq::empty(), ..old(self).link() }),
            final(self).endpoint() == old(self).endpoint(),
    {
        self.link.try_iter()
    }

    /// The state of the connection, by the last change announced.
    pub fn state(&mut self) -> (state: WsConnectionState)
        ensures
            state == latest_state(old(self).link().seen, old(self).link().pending),
            final(self).link() == (LinkModel {
                seen: state,
                pending: Seq::empty(),
                ..old(self).link()
            }),
            final(self).endpoint() == old(self).endpoint(),
    {
        self.link.state()
    }

    /// Whether the connection is open, by the last change announced.
    pub fn is_connected(&mut self) -> (connected: bool)
        ensures
            connected == (latest_state(old(self).link().seen, old(self).link().pending)
                == ConnectionState::Connected),
            final(self).link() == (LinkModel {
                seen: latest_state(old(self).link().seen, old(self).link().pending),
                pending: Seq::empty(),
                ..old(self).link()
            }),
            final(self).endpoint() == old(self).endpoint(),
    {
        match self.link.state() {
            ConnectionState::Connected => true,
            _ => false,
        }
    }

    /// Whether the caller has let go of the handle.
    pub fn was_released(&self) -> (released: bool)
        ensures
            released == self.link().released,
    {
        self.link.was_released()
    }

    /// Lets go of the handle: the background task closes the connection and
    /// ends at its next report, without another attempt.
    pub fn release(&mut self)
        ensures
            final(self).link() == (LinkModel { released: true, ..old(self).link() }),
            final(self).endpoint() == old(self).endpoint(),
    {
        self.link.release();
    }

    /// For the background task: takes in the outcome of the task it was
    /// given and gives the task to do next. `random` is a uniform draw from
    /// the whole of `u32`, used where a retry delay is computed.
    pub fn drive(&mut self, report: Report<R>, random: u32) -> (task: Task<S>)
        ensures
            (final(self).link(), task) == drive_model(old(self).link(), report, random),
            final(self).endpoint() == old(self).endpoint(),
    {
        self.link.drive(report, random)
    }
}

} // verus!
