//! The life of one streaming connection, as a state machine.
//!
//! A background task owns the connection. It tells the machine what the
//! transport reported (`ConnectionEvent`) and gets back the states to
//! announce and the one thing to do next (`ConnectionAction`). Only one
//! attempt is ever under way: an attempt is asked for only on the way into
//! `Connecting` or `Reconnecting`, and the machine then waits for its outcome.

use crate::reconnect::ReconnectConfig;
use vstd::prelude::*;

verus! {

/// Where a streaming connection stands.
#[derive(Debug, Clone, Copy, PartialEq, Eq, Structural)]
pub enum ConnectionState {
    /// The first attempt is under way.
    Connecting,
    /// The stream is open.
    Connected,
    /// Retry number `attempt` (counted from 0) is waiting or under way.
    Reconnecting { attempt: u32 },
    /// The stream has ended; a retry is decided next.
    Disconnected,
    /// The retries are used up. Nothing follows.
    Failed,
}

/// What the transport reported.
#[derive(Debug, Clone, Copy, PartialEq, Eq, Structural)]
pub enum ConnectionEvent {
    /// The attempt under way has succeeded.
    Opened,
    /// The attempt under way has failed.
    OpenFailed,
    /// The open stream has ended or broken.
    Closed,
}

/// What the background task does next.
#[derive(Debug, Clone, Copy, PartialEq, Eq, Structural)]
pub enum ConnectionAction {
    /// Wait `delay_ms` milliseconds, then make one attempt.
    RetryAfter { delay_ms: u32 },
    /// Serve the open stream until it ends.
    Serve,
    /// Give up: close what is open and end the task.
    Stop,
    /// Nothing new: the event does not belong to this state.
    Ignore,
}

/// The outcome of one event.
#[derive(Debug, Clone, Copy, PartialEq, Eq, Structural)]
pub struct Transition {
    /// The state the event met.
    pub from: ConnectionState,
    /// A state that was entered and left again at once, to be announced
    /// before `to`.
    pub via: Option<ConnectionState>,
    /// The state the machine is in now.
    pub to: ConnectionState,
    /// What to do next.
    pub action: ConnectionAction,
}

/// Whether retry number `attempt` may still be made.
pub open spec fn attempts_remain(max_attempts: Option<u32>, attempt: nat) -> bool {
    match max_attempts {
        Some(max) => attempt < max,
        None => true,
    }
}

/// The retry counter after one more failure; it stops at `u32::MAX`.
pub open spec fn next_attempt(attempt: u32) -> u32 {
    if attempt < u32::MAX {
        (attempt + 1) as u32
    } else {
        attempt
    }
}

/// The state after an attempt has failed or the stream has ended, where
/// `attempt` is the number the next retry would have.
pub open spec fn retry_or_fail(max_attempts: Option<u32>, attempt: u32) -> ConnectionState {
    if attempts_remain(max_attempts, attempt as nat) {
        ConnectionState::Reconnecting { attempt }
    } else {
        ConnectionState::Failed
    }
}

/// The action that belongs to entering `state`.
pub open spec fn action_on_entry(
    config: ReconnectConfig,
    state: ConnectionState,
    random: u32,
) -> ConnectionAction {
    match state {
        ConnectionState::Connected => ConnectionAction::Serve,
        ConnectionState::Reconnecting { attempt } => ConnectionAction::RetryAfter {
            delay_ms: config.spec_delay(attempt, random),
        },
        ConnectionState::Failed => ConnectionAction::Stop,
        _ => ConnectionAction::Ignore,
    }
}

/// What one event does to a connection in `state`.
pub open spec fn transition(
    config: ReconnectConfig,
    state: ConnectionState,
    event: ConnectionEvent,
    random: u32,
) -> Transition {
    match (state, event) {
        (ConnectionState::Connecting, ConnectionEvent::Opened) | (
            ConnectionState::Reconnecting { .. },
            ConnectionEvent::Opened,
        ) => Transition {
            from: state,
            via: None,
            to: ConnectionState::Connected,
            action: ConnectionAction::Serve,
        },
        (ConnectionState::Connecting, ConnectionEvent::OpenFailed) => {
            let to = retry_or_fail(config.max_attempts, 0);
            Transition { from: state, via: None, to, action: action_on_entry(config, to, random) }
        },
        (ConnectionState::Reconnecting { attempt }, ConnectionEvent::OpenFailed) => {
            let to = retry_or_fail(config.max_attempts, next_attempt(attempt));
            Transition { from: state, via: None, to, action: action_on_entry(config, to, random) }
        },
        (ConnectionState::Connected, ConnectionEvent::Closed) | (
            ConnectionState::Disconnected,
            _,
        ) => {
            let to = retry_or_fail(config.max_attempts, 0);
            Transition {
                from: state,
                via: if state == ConnectionState::Connected {
                    Some(ConnectionState::Disconnected)
                } else {
                    None
                },
                to,
                action: action_on_entry(config, to, random),
            }
        },
        (ConnectionState::Failed, _) => Transition {
            from: state,
            via: None,
            to: ConnectionState::Failed,
            action: ConnectionAction::Stop,
        },
        _ => Transition { from: state, via: None, to: state, action: ConnectionAction::Ignore },
    }
}

/// The moves a connection can make from one state to the next.
pub open spec fn may_follow(from: ConnectionState, to: ConnectionState) -> bool {
    match from {
        ConnectionState::Connecting => to == ConnectionState::Connected || to
            == (ConnectionState::Reconnecting { attempt: 0 }) || to == ConnectionState::Failed,
        ConnectionState::Connected => to == ConnectionState::Disconnected,
        ConnectionState::Disconnected => to == (ConnectionState::Reconnecting { attempt: 0 })
            || to == ConnectionState::Failed,
        ConnectionState::Reconnecting { attempt } => to == ConnectionState::Connected || to == (
        ConnectionState::Reconnecting { attempt: next_attempt(attempt) }) || to
            == ConnectionState::Failed,
        ConnectionState::Failed => false,
    }
}

/// A retry state within the limit that `max_attempts` sets; every other
/// state is within it.
pub open spec fn within_limit(max_attempts: Option<u32>, state: ConnectionState) -> bool {
    match state {
        ConnectionState::Reconnecting { attempt } => attempts_remain(max_attempts, attempt as nat),
        _ => true,
    }
}

/// Drives one connection through its states.
#[derive(Debug, Clone, Copy)]
pub struct ConnectionLoop {
    config: ReconnectConfig,
    state: ConnectionState,
}

impl ConnectionLoop {
    /// The policy this loop retries by.
    pub closed spec fn spec_config(self) -> ReconnectConfig {
        self.config
    }

    /// The state the loop is in.
    pub closed spec fn spec_state(self) -> ConnectionState {
        self.state
    }

    /// A loop whose first attempt is about to be made.
    pub fn new(config: ReconnectConfig) -> (start: Self)
        ensures
            start.spec_config() == config,
            start.spec_state() == ConnectionState::Connecting,
    {
        ConnectionLoop { config, state: ConnectionState::Connecting }
    }

    /// The policy this loop retries by.
    pub fn config(&self) -> (config: ReconnectConfig)
        ensures
            config == self.spec_config(),
    {
        self.config
    }

    /// The state the loop is in.
    pub fn state(&self) -> (state: ConnectionState)
        ensures
            state == self.spec_state(),
    {
        self.state
    }

    /// Takes in what the transport reported. `random` is a uniform draw from
    /// the whole of `u32`; it is used where a retry delay is computed.
    pub fn on_event(&mut self, event: ConnectionEvent, random: u32) -> (out: Transition)
        ensures
            out == transition(old(self).spec_config(), old(self).spec_state(), event, random),
            final(self).spec_state() == out.to,
            final(self).spec_config() == old(self).spec_config(),
    {
        let next = step(&self.config, self.state, event, random);
        self.state = next.to;
        next
    }
}

/// The state that follows a failure, where `attempt` is the number of the
/// retry that would come next.
fn after_failure(config: &ReconnectConfig, attempt: u32) -> (to: ConnectionState)
    ensures
        to == retry_or_fail(config.max_attempts, attempt),
{
    match config.max_attempts {
        Some(max) => {
            if attempt < max {
                ConnectionState::Reconnecting { attempt }
            } else {
                ConnectionState::Failed
            }
        },
        None => ConnectionState::Reconnecting { attempt },
    }
}

/// The action to take on entering `state`.
fn entry_action(config: &ReconnectConfig, state: ConnectionState, random: u32) -> (action:
    ConnectionAction)
    ensures
        action == action_on_entry(*config, state, random),
{
    match state {
        ConnectionState::Connected => ConnectionAction::Serve,
        ConnectionState::Reconnecting { attempt } => ConnectionAction::RetryAfter {
            delay_ms: config.delay_for_attempt(attempt, random),
        },
        ConnectionState::Failed => ConnectionAction::Stop,
        _ => ConnectionAction::Ignore,
    }
}

/// What one event does to a connection in `state`: the state to announce in
/// passing, the state reached, and what to do next.
pub fn step(config: &ReconnectConfig, state: ConnectionState, event: ConnectionEvent, random: u32)
    -> (out: Transition)
    ensures
        out == transition(*config, state, event, random),
{
    match state {
        ConnectionState::Connecting => match event {
            ConnectionEvent::Opened => Transition {
                from: state,
                via: None,
                to: ConnectionState::Connected,
                action: ConnectionAction::Serve,
            },
            ConnectionEvent::OpenFailed => {
                let to = after_failure(config, 0);
                Transition { from: state, via: None, to, action: entry_action(config, to, random) }
            },
            ConnectionEvent::Closed => Transition {
                from: state,
                via: None,
                to: state,
                action: ConnectionAction::Ignore,
            },
        },
        ConnectionState::Reconnecting { attempt } => match event {
            ConnectionEvent::Opened => Transition {
                from: state,
                via: None,
                to: ConnectionState::Connected,
                action: ConnectionAction::Serve,
            },
            ConnectionEvent::OpenFailed => {
                let following: u32 = if attempt < u32::MAX {
                    attempt + 1
                } else {
                    attempt
                };
                let to = after_failure(config, following);
                Transition { from: state, via: None, to, action: entry_action(config, to, random) }
            },
            ConnectionEvent::Closed => Transition {
                from: state,
                via: None,
                to: state,
                action: ConnectionAction::Ignore,
            },
        },
        ConnectionState::Connected => match event {
            ConnectionEvent::Closed => {
                let to = after_failure(config, 0);
                Transition {
                    from: state,
                    via: Some(ConnectionState::Disconnected),
                    to,
                    action: entry_action(config, to, random),
                }
            },
            _ => Transition { from: state, via: None, to: state, action: ConnectionAction::Ignore },
        },
        ConnectionState::Disconnected => {
            let to = after_failure(config, 0);
            Transition { from: state, via: None, to, action: entry_action(config, to, random) }
        },
        ConnectionState::Failed => Transition {
            from: state,
            via: None,
            to: ConnectionState::Failed,
            action: ConnectionAction::Stop,
        },
    }
}

/// The states one transition announces, in order: the state passed
/// through, if any, then the state reached; nothing where the state has not
/// changed.
pub open spec fn announced(transition: Transition) -> Seq<ConnectionState> {
    match transition.via {
        Some(passed) => seq![passed, transition.to],
        None => if transition.to == transition.from {
            Seq::empty()
        } else {
            seq![transition.to]
        },
    }
}

/// The state a connection is in after a run of events, each with the random
/// draw that came with it.
pub open spec fn state_after(
    config: ReconnectConfig,
    state: ConnectionState,
    events: Seq<(ConnectionEvent, u32)>,
) -> ConnectionState
    decreases events.len(),
{
    if events.len() == 0 {
        state
    } else {
        state_after(
            config,
            transition(config, state, events[0].0, events[0].1).to,
            events.drop_first(),
        )
    }
}

/// The states a connection announces over a run of events, in order.
pub open spec fn states_announced(
    config: ReconnectConfig,
    state: ConnectionState,
    events: Seq<(ConnectionEvent, u32)>,
) -> Seq<ConnectionState>
    decreases events.len(),
{
    if events.len() == 0 {
        Seq::empty()
    } else {
        let first = transition(config, state, events[0].0, events[0].1);
        announced(first) + states_announced(config, first.to, events.drop_first())
    }
}

/// Whether `states`, seen after `start`, is a walk along the moves of
/// `may_follow`: each state follows the one before it.
pub open spec fn is_walk(start: ConnectionState, states: Seq<ConnectionState>) -> bool {
    forall|i: int|
        0 <= i < states.len() ==> may_follow(
            if i == 0 {
                start
            } else {
                states[i - 1]
            },
            #[trigger] states[i],
        )
}

/// The state a walk ends in.
pub open spec fn walk_end(start: ConnectionState, states: Seq<ConnectionState>)
    -> ConnectionState {
    if states.len() == 0 {
        start
    } else {
        states.last()
    }
}

/// Whatever the events, what a caller sees is a walk along the allowed
/// moves: no state is skipped, `Failed` is never left, and `Connected` is
/// never followed by `Failed` without `Disconnected` in between. The walk
/// ends in the state the connection is in.
pub proof fn lemma_announced_states_are_a_walk(
    config: ReconnectConfig,
    state: ConnectionState,
    events: Seq<(ConnectionEvent, u32)>,
)
    ensures
        is_walk(state, states_announced(config, state, events)),
        walk_end(state, states_announced(config, state, events)) == state_after(
            config,
            state,
            events,
        ),
    decreases events.len(),
{
    if events.len() > 0 {
        let first = transition(config, state, events[0].0, events[0].1);
        let head = announced(first);
        let tail = states_announced(config, first.to, events.drop_first());
        lemma_steps_are_allowed(config, state, events[0].0, events[0].1);
        lemma_announced_states_are_a_walk(config, first.to, events.drop_first());
        let all = head + tail;
        assert(walk_end(state, head) == first.to);
        assert forall|i: int| 0 <= i < all.len() implies may_follow(
            if i == 0 {
                state
            } else {
                all[i - 1]
            },
            #[trigger] all[i],
        ) by {
            if i >= head.len() {
                let k = i - head.len();
                assert(all[i] == tail[k]);
                assert(may_follow(
                    if k == 0 {
                        first.to
                    } else {
                        tail[k - 1]
                    },
                    tail[k],
                ));
                if k > 0 {
                    assert(all[i - 1] == tail[k - 1]);
                }
            }
        }
    }
}

/// Every step keeps to the moves of `may_follow`: the state either stays as
/// it is, or moves by one allowed move, or by two through the state in `via`.
/// So `Connected` is never followed by `Failed` without `Disconnected` in
/// between.
pub proof fn lemma_steps_are_allowed(
    config: ReconnectConfig,
    state: ConnectionState,
    event: ConnectionEvent,
    random: u32,
)
    ensures
        ({
            let out = transition(config, state, event, random);
            match out.via {
                Some(passed) => may_follow(state, passed) && may_follow(passed, out.to),
                None => out.to == state || may_follow(state, out.to),
            }
        }),
        state == ConnectionState::Connected ==> transition(config, state, event, random).to
            != ConnectionState::Failed || transition(config, state, event, random).via == Some(
            ConnectionState::Disconnected,
        ),
{
}

/// `Failed` is final: no event leads out of it, and the answer is always to
/// stop.
pub proof fn lemma_failed_is_final(config: ReconnectConfig, event: ConnectionEvent, random: u32)
    ensures
        transition(config, ConnectionState::Failed, event, random).to == ConnectionState::Failed,
        transition(config, ConnectionState::Failed, event, random).action
            == ConnectionAction::Stop,
        transition(config, ConnectionState::Failed, event, random).via.is_none(),
{
}

/// Without a limit on attempts a connection never fails for good.
pub proof fn lemma_unlimited_never_fails(
    config: ReconnectConfig,
    state: ConnectionState,
    event: ConnectionEvent,
    random: u32,
)
    requires
        config.max_attempts.is_none(),
        state != ConnectionState::Failed,
    ensures
        transition(config, state, event, random).to != ConnectionState::Failed,
{
}

/// A retry is only ever announced while attempts remain: a step from a state
/// within the limit ends in a state within the limit.
pub proof fn lemma_retries_stay_within_limit(
    config: ReconnectConfig,
    state: ConnectionState,
    event: ConnectionEvent,
    random: u32,
)
    requires
        within_limit(config.max_attempts, state),
    ensures
        within_limit(config.max_attempts, transition(config, state, event, random).to),
{
}

/// Success resets the count: after `Opened` the next retry, whenever it
/// comes, is retry 0 again.
pub proof fn lemma_success_resets_attempts(
    config: ReconnectConfig,
    state: ConnectionState,
    random: u32,
    later: u32,
)
    requires
        state == ConnectionState::Connecting || state is Reconnecting,
        attempts_remain(config.max_attempts, 0),
    ensures
        transition(config, state, ConnectionEvent::Opened, random).to
            == ConnectionState::Connected,
        transition(config, ConnectionState::Connected, ConnectionEvent::Closed, later).to == (
        ConnectionState::Reconnecting { attempt: 0 }),
{
}

/// A retry waits as long as the policy says for its number.
pub proof fn lemma_retry_waits_by_policy(
    config: ReconnectConfig,
    state: ConnectionState,
    event: ConnectionEvent,
    random: u32,
)
    ensures
        ({
            let out = transition(config, state, event, random);
            match (out.to, out.action) {
                (
                    ConnectionState::Reconnecting { attempt },
                    ConnectionAction::RetryAfter { delay_ms },
                ) => delay_ms == config.spec_delay(attempt, random),
                (ConnectionState::Reconnecting { .. }, other) => other == ConnectionAction::Ignore
                    && out.to == state,
                (_, ConnectionAction::RetryAfter { .. }) => false,
                _ => true,
            }
        }),
{
}

} // verus!
