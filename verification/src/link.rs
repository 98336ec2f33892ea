//! The link between the caller's handle and the background task that owns
//! the connection.
//!
//! The task does nothing on its own account. It reports what happened, is
//! told the one thing to do next, does it, and reports again. So the whole
//! conduct of a connection is decided here: when to open, when to send what
//! is queued, how long to wait for an arrival, when to retry and when to
//! end.

use crate::connection::{
    announced, transition, ConnectionAction, ConnectionEvent, ConnectionLoop, ConnectionState,
};
use crate::mailbox::{latest_state, Mailbox, Pump};
use crate::reconnect::ReconnectConfig;
use crate::socket::{step_for, SocketEvent, SocketStep};
use std::collections::VecDeque;
use vstd::prelude::*;

verus! {

/// The number of items that can wait to be sent. While the connection is
/// down, sends queue up to this number and leave once it is up again.
pub const OUTBOUND_CAPACITY: usize = 256;

/// How long the background task waits for an arrival, in milliseconds,
/// before it looks for items to send again, so that a quiet peer does not
/// hold up what is queued.
pub const POLL_INTERVAL_MS: u32 = 50;

/// What the background task is in the middle of.
#[derive(Debug, Clone, Copy, PartialEq, Eq, Structural)]
pub enum Phase {
    /// Nothing yet: the task has not started.
    Idle,
    /// A connection attempt is under way.
    Opening,
    /// The connection is open and served.
    Serving,
    /// The task waits before the next attempt.
    Waiting,
    /// The task has ended. Nothing follows.
    Ended,
}

/// What the background task reports: the outcome of the task it was given.
#[derive(Debug, PartialEq, Eq)]
pub enum Report<R> {
    /// The task has started.
    Started,
    /// The attempt succeeded.
    Opened,
    /// The attempt failed.
    OpenFailed,
    /// The item was sent.
    Sent,
    /// The item could not be encoded and was skipped.
    Skipped,
    /// The item could not be sent: the connection is lost.
    SendFailed,
    /// This arrived within the interval, or nothing did (`Idle`).
    Arrival(SocketEvent<R>),
    /// The wait is over.
    Slept,
}

/// The one thing the background task does next.
#[derive(Debug, Clone, PartialEq, Eq)]
pub enum Task<S> {
    /// Make one connection attempt; report `Opened` or `OpenFailed`.
    Open,
    /// Encode and send this item; report `Sent`, `Skipped` or `SendFailed`.
    Send(S),
    /// Wait for an arrival, for `timeout_ms` milliseconds at most; report
    /// `Arrival`.
    Poll { timeout_ms: u32 },
    /// Wait `delay_ms` milliseconds; report `Slept`.
    Sleep { delay_ms: u32 },
    /// Close what is open and end.
    End,
}

/// What a link holds.
pub struct LinkModel<S, R> {
    /// What the background task is in the middle of.
    pub phase: Phase,
    /// Whether the caller has let go of the handle.
    pub released: bool,
    /// The items that wait to be sent, oldest first.
    pub queued: Seq<S>,
    /// The items that wait to be read, oldest first.
    pub buffered: Seq<R>,
    /// The state changes that wait to be noticed, oldest first.
    pub pending: Seq<ConnectionState>,
    /// The state the caller noticed last.
    pub seen: ConnectionState,
    /// The state the connection is in.
    pub state: ConnectionState,
    /// The policy the connection retries by.
    pub config: ReconnectConfig,
}

/// A link whose task has ended.
pub open spec fn ended<S, R>(link: LinkModel<S, R>) -> (LinkModel<S, R>, Task<S>) {
    (LinkModel { phase: Phase::Ended, ..link }, Task::End)
}

/// What a served connection does next: the oldest queued item is sent; with
/// nothing queued, the task waits for an arrival, for one interval.
pub open spec fn serve<S, R>(link: LinkModel<S, R>) -> (LinkModel<S, R>, Task<S>) {
    if link.queued.len() > 0 {
        (
            LinkModel { phase: Phase::Serving, queued: link.queued.drop_first(), ..link },
            Task::Send(link.queued[0]),
        )
    } else {
        (LinkModel { phase: Phase::Serving, ..link }, Task::Poll { timeout_ms: POLL_INTERVAL_MS })
    }
}

/// What follows when the transport reports `event`: the connection's state
/// machine moves, the states it went through are announced, and the task
/// serves, waits for the retry, or ends, as the machine says.
pub open spec fn settle<S, R>(link: LinkModel<S, R>, event: ConnectionEvent, random: u32) -> (
    LinkModel<S, R>,
    Task<S>,
) {
    let moved = transition(link.config, link.state, event, random);
    let next = LinkModel { state: moved.to, pending: link.pending + announced(moved), ..link };
    match moved.action {
        ConnectionAction::Serve => serve(next),
        ConnectionAction::RetryAfter { delay_ms } => (
            LinkModel { phase: Phase::Waiting, ..next },
            Task::Sleep { delay_ms },
        ),
        _ => ended(next),
    }
}

/// What a report leads to: the link afterwards and the task to do next.
///
/// Once the caller has let go of the handle, and once the task has ended,
/// the answer is to end. A report that does not belong to the phase ends
/// the task too.
pub open spec fn drive_model<S, R>(link: LinkModel<S, R>, report: Report<R>, random: u32) -> (
    LinkModel<S, R>,
    Task<S>,
) {
    if link.released {
        ended(link)
    } else {
        match (link.phase, report) {
            (Phase::Idle, Report::Started) | (Phase::Waiting, Report::Slept) => (
                LinkModel { phase: Phase::Opening, ..link },
                Task::Open,
            ),
            (Phase::Opening, Report::Opened) => settle(link, ConnectionEvent::Opened, random),
            (Phase::Opening, Report::OpenFailed) => settle(
                link,
                ConnectionEvent::OpenFailed,
                random,
            ),
            (Phase::Serving, Report::Sent) | (Phase::Serving, Report::Skipped) => serve(link),
            (Phase::Serving, Report::SendFailed) => settle(link, ConnectionEvent::Closed, random),
            (Phase::Serving, Report::Arrival(event)) => match step_for(event) {
                SocketStep::Deliver(item) => serve(
                    LinkModel { buffered: link.buffered.push(item), ..link },
                ),
                SocketStep::Finish => settle(link, ConnectionEvent::Closed, random),
                _ => serve(link),
            },
            _ => ended(link),
        }
    }
}

/// Whether the phase of the task and the state of the connection agree: an
/// attempt is under way in `Connecting` and `Reconnecting`, the connection
/// is served in `Connected`, and the task waits in `Reconnecting`.
pub open spec fn coherent<S, R>(link: LinkModel<S, R>) -> bool {
    match link.phase {
        Phase::Idle => link.state == ConnectionState::Connecting,
        Phase::Opening => link.state == ConnectionState::Connecting || link.state is Reconnecting,
        Phase::Serving => link.state == ConnectionState::Connected,
        Phase::Waiting => link.state is Reconnecting,
        Phase::Ended => true,
    }
}

/// Phase and state agree at the start and after every report.
pub proof fn lemma_drive_keeps_coherence<S, R>(
    link: LinkModel<S, R>,
    report: Report<R>,
    random: u32,
)
    requires
        coherent(link),
    ensures
        coherent(drive_model(link, report, random).0),
{
}

/// The task given fits the phase entered: an attempt in `Opening`, sending
/// and waiting for arrivals in `Serving`, the wait before a retry in
/// `Waiting`, and the end in `Ended`.
pub proof fn lemma_task_fits_phase<S, R>(link: LinkModel<S, R>, report: Report<R>, random: u32)
    ensures
        ({
            let (next, task) = drive_model(link, report, random);
            match task {
                Task::Open => next.phase == Phase::Opening,
                Task::Send(_) => next.phase == Phase::Serving,
                Task::Poll { timeout_ms } => next.phase == Phase::Serving && timeout_ms
                    == POLL_INTERVAL_MS,
                Task::Sleep { .. } => next.phase == Phase::Waiting,
                Task::End => next.phase == Phase::Ended,
            }
        }),
{
}

/// One attempt at a time: an attempt is asked for only at the start and
/// after a wait, never while one is under way or the connection is open.
pub proof fn lemma_one_attempt_at_a_time<S, R>(
    link: LinkModel<S, R>,
    report: Report<R>,
    random: u32,
)
    ensures
        drive_model(link, report, random).1 is Open ==> (link.phase == Phase::Idle || link.phase
            == Phase::Waiting),
        link.phase == Phase::Opening || link.phase == Phase::Serving ==> !(drive_model(
            link,
            report,
            random,
        ).1 is Open),
{
}

/// The end is final, and letting go of the handle brings it about: once the
/// task has ended or the caller has let go, every report is answered with
/// the end, nothing is announced and nothing buffered any more.
pub proof fn lemma_end_is_final<S, R>(link: LinkModel<S, R>, report: Report<R>, random: u32)
    requires
        link.phase == Phase::Ended || link.released,
    ensures
        drive_model(link, report, random) == (
            LinkModel { phase: Phase::Ended, ..link },
            Task::<S>::End,
        ),
{
}

/// What is queued leaves first: while the connection is served and goes on,
/// the oldest queued item is handed out before the task waits for another
/// arrival, so a quiet peer holds up a send for one interval at most.
pub proof fn lemma_queued_items_leave_first<S, R>(
    link: LinkModel<S, R>,
    report: Report<R>,
    random: u32,
)
    requires
        !link.released,
        link.phase == Phase::Serving,
        link.queued.len() > 0,
        report is Sent || report is Skipped || (report matches Report::Arrival(event) && step_for(
            event,
        ) != SocketStep::<R>::Finish),
    ensures
        drive_model(link, report, random).1 == Task::Send(link.queued[0]),
        drive_model(link, report, random).0.queued == link.queued.drop_first(),
{
}

/// A malformed arrival is dropped and ends nothing: the connection is
/// served as before, and an item that decodes afterwards is buffered.
pub proof fn lemma_malformed_arrival_is_dropped<S, R>(
    link: LinkModel<S, R>,
    reason: String,
    item: R,
    random: u32,
    later: u32,
)
    requires
        !link.released,
        link.phase == Phase::Serving,
    ensures
        ({
            let (after, _) = drive_model(
                link,
                Report::Arrival(SocketEvent::Payload(Err(reason))),
                random,
            );
            let (last, _) = drive_model(
                after,
                Report::Arrival(SocketEvent::Payload(Ok(item))),
                later,
            );
            &&& after.phase == Phase::Serving
            &&& after.state == link.state
            &&& after.pending == link.pending
            &&& after.buffered == link.buffered
            &&& last.phase == Phase::Serving
            &&& last.buffered == link.buffered.push(item)
        }),
{
}

/// Nothing that was sent is lost or reordered by a report: what is queued
/// afterwards is what was queued before, without the item handed out.
pub proof fn lemma_queue_keeps_order<S, R>(link: LinkModel<S, R>, report: Report<R>, random: u32)
    ensures
        ({
            let (next, task) = drive_model(link, report, random);
            match task {
                Task::Send(item) => link.queued.len() > 0 && item == link.queued[0] && next.queued
                    == link.queued.drop_first(),
                _ => next.queued == link.queued,
            }
        }),
{
}

/// The link between a handle and its background task.
pub struct Link<S, R> {
    mailbox: Mailbox<R>,
    outgoing: VecDeque<S>,
    machine: ConnectionLoop,
    phase: Phase,
}

impl<S, R> View for Link<S, R> {
    type V = LinkModel<S, R>;

    closed spec fn view(&self) -> LinkModel<S, R> {
        LinkModel {
            phase: self.phase,
            released: self.mailbox.released(),
            queued: self.outgoing@,
            buffered: self.mailbox.items(),
            pending: self.mailbox.changes(),
            seen: self.mailbox.seen(),
            state: self.machine.spec_state(),
            config: self.machine.spec_config(),
        }
    }
}

impl<S, R> Link<S, R> {
    /// A link for a connection that is about to be made, retrying by
    /// `config`.
    pub fn new(config: ReconnectConfig) -> (link: Self)
        ensures
            link@ == (LinkModel::<S, R> {
                phase: Phase::Idle,
                released: false,
                queued: Seq::empty(),
                buffered: Seq::empty(),
                pending: Seq::empty(),
                seen: ConnectionState::Connecting,
                state: ConnectionState::Connecting,
                config,
            }),
    {
        Link {
            mailbox: Mailbox::new(),
            outgoing: VecDeque::new(),
            machine: ConnectionLoop::new(config),
            phase: Phase::Idle,
        }
    }

    /// The policy the connection retries by.
    pub fn config(&self) -> (config: ReconnectConfig)
        ensures
            config == self@.config,
    {
        self.machine.config()
    }

    /// Whether what is sent can still leave: the task has not ended and the
    /// handle was not let go of.
    pub fn accepts_sends(&self) -> (accepts: bool)
        ensures
            accepts == (self@.phase != Phase::Ended && !self@.released),
    {
        self.phase != Phase::Ended && !self.mailbox.is_released()
    }

    /// Whether as many items wait to be sent as can.
    pub fn is_full(&self) -> (full: bool)
        ensures
            full == (self@.queued.len() >= OUTBOUND_CAPACITY),
    {
        self.outgoing.len() >= OUTBOUND_CAPACITY
    }

    /// Queues `item` for sending and says whether it was queued. It is not
    /// queued once the task has ended or the handle was let go of, nor
    /// while `OUTBOUND_CAPACITY` items wait already.
    pub fn send(&mut self, item: S) -> (queued: bool)
        ensures
            queued == (old(self)@.phase != Phase::Ended && !old(self)@.released && old(
                self,
            )@.queued.len() < OUTBOUND_CAPACITY),
            final(self)@ == (LinkModel {
                queued: if queued {
                    old(self)@.queued.push(item)
                } else {
                    old(self)@.queued
                },
                ..old(self)@
            }),
    {
        if !self.accepts_sends() || self.is_full() {
            false
        } else {
            self.outgoing.push_back(item);
            true
        }
    }

    /// Takes the oldest buffered item, if there is one.
    pub fn try_recv(&mut self) -> (item: Option<R>)
        ensures
            match item {
                Some(first) => old(self)@.buffered.len() > 0 && first == old(self)@.buffered[0]
                    && final(self)@ == (LinkModel {
                    buffered: old(self)@.buffered.drop_first(),
                    ..old(self)@
                }),
                None => old(self)@.buffered.len() == 0 && final(self)@ == old(self)@,
            },
    {
        self.mailbox.take()
    }

    /// Takes every buffered item, oldest first.
    pub fn try_iter(&mut self) -> (items: Vec<R>)
        ensures
            items@ == old(self)@.buffered,
            final(self)@ == (LinkModel { buffered: Seq::empty(), ..old(self)@ }),
    {
        self.mailbox.take_all()
    }

    /// The state of the connection, by the last change announced.
    pub fn state(&mut self) -> (state: ConnectionState)
        ensures
            state == latest_state(old(self)@.seen, old(self)@.pending),
            final(self)@ == (LinkModel { seen: state, pending: Seq::empty(), ..old(self)@ }),
    {
        self.mailbox.state()
    }

    /// Lets go of the handle: the background task ends at its next report,
    /// without another attempt.
    pub fn release(&mut self)
        ensures
            final(self)@ == (LinkModel { released: true, ..old(self)@ }),
    {
        self.mailbox.release();
    }

    /// Whether the caller has let go of the handle.
    pub fn was_released(&self) -> (released: bool)
        ensures
            released == self@.released,
    {
        self.mailbox.is_released()
    }

    /// What the background task is in the middle of.
    pub fn phase(&self) -> (phase: Phase)
        ensures
            phase == self@.phase,
    {
        self.phase
    }

    /// Serves the open connection: hands out the oldest queued item, or
    /// asks for an arrival.
    fn serve_next(&mut self) -> (task: Task<S>)
        ensures
            (final(self)@, task) == serve(old(self)@),
    {
        self.phase = Phase::Serving;
        match self.outgoing.pop_front() {
            Some(item) => {
                proof {
                    assert(self.outgoing@ =~= old(self).outgoing@.drop_first());
                }
                Task::Send(item)
            },
            None => Task::Poll { timeout_ms: POLL_INTERVAL_MS },
        }
    }

    /// Hands `event` to the state machine and does as it says.
    fn settle_on(&mut self, event: ConnectionEvent, random: u32) -> (task: Task<S>)
        ensures
            (final(self)@, task) == settle(old(self)@, event, random),
    {
        let moved = self.machine.on_event(event, random);
        self.mailbox.announce_transition(&moved);
        match moved.action {
            ConnectionAction::Serve => self.serve_next(),
            ConnectionAction::RetryAfter { delay_ms } => {
                self.phase = Phase::Waiting;
                Task::Sleep { delay_ms }
            },
            _ => {
                self.phase = Phase::Ended;
                Task::End
            },
        }
    }

    /// For the background task: takes in the outcome of the task it was
    /// given and gives the task to do next. `random` is a uniform draw from
    /// the whole of `u32`, used where a retry delay is computed.
    pub fn drive(&mut self, report: Report<R>, random: u32) -> (task: Task<S>)
        ensures
            (final(self)@, task) == drive_model(old(self)@, report, random),
    {
        if self.mailbox.is_released() {
            self.phase = Phase::Ended;
            return Task::End;
        }
        match self.phase {
            Phase::Idle => match report {
                Report::Started => {
                    self.phase = Phase::Opening;
                    Task::Open
                },
                _ => {
                    self.phase = Phase::Ended;
                    Task::End
                },
            },
            Phase::Waiting => match report {
                Report::Slept => {
                    self.phase = Phase::Opening;
                    Task::Open
                },
                _ => {
                    self.phase = Phase::Ended;
                    Task::End
                },
            },
            Phase::Opening => match report {
                Report::Opened => self.settle_on(ConnectionEvent::Opened, random),
                Report::OpenFailed => self.settle_on(ConnectionEvent::OpenFailed, random),
                _ => {
                    self.phase = Phase::Ended;
                    Task::End
                },
            },
            Phase::Serving => match report {
                Report::Sent => self.serve_next(),
                Report::Skipped => self.serve_next(),
                Report::SendFailed => self.settle_on(ConnectionEvent::Closed, random),
                Report::Arrival(event) => match self.mailbox.accept(event) {
                    Pump::GoOn => self.serve_next(),
                    Pump::Reconnect => self.settle_on(ConnectionEvent::Closed, random),
                    Pump::Stop => {
                        self.phase = Phase::Ended;
                        Task::End
                    },
                },
                _ => {
                    self.phase = Phase::Ended;
                    Task::End
                },
            },
            Phase::Ended => Task::End,
        }
    }
}

} // verus!
