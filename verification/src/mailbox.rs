//! The buffer between a connection's background task and the caller that
//! polls it: decoded items waiting to be read, state changes waiting to be
//! noticed, and the state noticed last.
//!
//! Nothing here blocks: the task puts in, the caller takes out what is
//! already there.

use crate::connection::{announced, ConnectionState, Transition};
use crate::socket::{socket_step, step_for, SocketEvent, SocketStep};
use std::collections::VecDeque;
use vstd::prelude::*;

verus! {

/// The state a caller sees after noticing the changes in `pending`, in
/// order, having seen `seen` before.
pub open spec fn latest_state(seen: ConnectionState, pending: Seq<ConnectionState>)
    -> ConnectionState {
    if pending.len() > 0 {
        pending.last()
    } else {
        seen
    }
}

/// What the background task does after an arrival.
#[derive(Debug, Clone, Copy, PartialEq, Eq, Structural)]
pub enum Pump {
    /// Go on serving the open connection.
    GoOn,
    /// The connection is over: tell the connection's state machine that it
    /// closed, and do what it says.
    Reconnect,
    /// The caller has let go of the handle: close the connection and end,
    /// without another attempt.
    Stop,
}

/// What the background task does after `event`, for a handle that the
/// caller has or has not let go of.
pub open spec fn pump_for<T>(released: bool, event: SocketEvent<T>) -> Pump {
    if released {
        Pump::Stop
    } else if step_for(event) == SocketStep::<T>::Finish {
        Pump::Reconnect
    } else {
        Pump::GoOn
    }
}

/// The items that wait after `event` has been taken in.
pub open spec fn items_after<T>(waiting: Seq<T>, released: bool, event: SocketEvent<T>) -> Seq<T> {
    match step_for(event) {
        SocketStep::Deliver(item) if !released => waiting.push(item),
        _ => waiting,
    }
}

/// Items and state changes on their way to the caller.
pub struct Mailbox<T> {
    items: VecDeque<T>,
    changes: VecDeque<ConnectionState>,
    seen: ConnectionState,
    released: bool,
}

impl<T> Mailbox<T> {
    /// The items that wait to be read, oldest first.
    pub closed spec fn items(self) -> Seq<T> {
        self.items@
    }

    /// The state changes that wait to be noticed, oldest first.
    pub closed spec fn changes(self) -> Seq<ConnectionState> {
        self.changes@
    }

    /// The state the caller noticed last.
    pub closed spec fn seen(self) -> ConnectionState {
        self.seen
    }

    /// Whether the caller has let go of the handle.
    pub closed spec fn released(self) -> bool {
        self.released
    }

    /// An empty mailbox for a connection that is about to be made.
    pub fn new() -> (mailbox: Self)
        ensures
            mailbox.items() == Seq::<T>::empty(),
            mailbox.changes() == Seq::<ConnectionState>::empty(),
            mailbox.seen() == ConnectionState::Connecting,
            !mailbox.released(),
    {
        Mailbox {
            items: VecDeque::new(),
            changes: VecDeque::new(),
            seen: ConnectionState::Connecting,
            released: false,
        }
    }

    /// Marks that the caller has let go of the handle: nothing is read any
    /// more, and the background task is to end.
    pub fn release(&mut self)
        ensures
            final(self).released(),
            final(self).items() == old(self).items(),
            final(self).changes() == old(self).changes(),
            final(self).seen() == old(self).seen(),
    {
        self.released = true;
    }

    /// Whether the caller has let go of the handle.
    pub fn is_released(&self) -> (released: bool)
        ensures
            released == self.released(),
    {
        self.released
    }

    /// Takes in what arrived on the open connection: a decoded item is put
    /// in, a malformed one dropped. Once the caller has let go, nothing is
    /// put in and the answer is to stop.
    pub fn accept(&mut self, event: SocketEvent<T>) -> (pump: Pump)
        ensures
            pump == pump_for(old(self).released(), event),
            final(self).items() == items_after(old(self).items(), old(self).released(), event),
            final(self).changes() == old(self).changes(),
            final(self).seen() == old(self).seen(),
            final(self).released() == old(self).released(),
    {
        if self.released {
            return Pump::Stop;
        }
        match socket_step(event) {
            SocketStep::Deliver(item) => {
                self.items.push_back(item);
                Pump::GoOn
            },
            SocketStep::Finish => Pump::Reconnect,
            _ => Pump::GoOn,
        }
    }

    /// Puts in the states a transition announces: the state passed through,
    /// if any, then the state reached; nothing where the state has not
    /// changed.
    pub fn announce_transition(&mut self, transition: &Transition)
        ensures
            final(self).changes() == old(self).changes() + announced(*transition),
            final(self).items() == old(self).items(),
            final(self).seen() == old(self).seen(),
            final(self).released() == old(self).released(),
    {
        match transition.via {
            Some(passed) => {
                self.changes.push_back(passed);
                self.changes.push_back(transition.to);
            },
            None => {
                if transition.to != transition.from {
                    self.changes.push_back(transition.to);
                }
            },
        }
        proof {
            assert(self.changes@ =~= old(self).changes@ + announced(*transition));
        }
    }

    /// Takes out the oldest item, if there is one.
    pub fn take(&mut self) -> (item: Option<T>)
        ensures
            final(self).changes() == old(self).changes(),
            final(self).seen() == old(self).seen(),
            final(self).released() == old(self).released(),
            match item {
                Some(first) => old(self).items().len() > 0 && first == old(self).items()[0]
                    && final(self).items() == old(self).items().drop_first(),
                None => old(self).items().len() == 0 && final(self).items() == old(
                    self,
                ).items(),
            },
    {
        let item = self.items.pop_front();
        proof {
            if item.is_some() {
                assert(self.items@ =~= old(self).items@.drop_first());
            }
        }
        item
    }

    /// Takes out every item that waits, oldest first.
    pub fn take_all(&mut self) -> (taken: Vec<T>)
        ensures
            taken@ == old(self).items(),
            final(self).items() == Seq::<T>::empty(),
            final(self).changes() == old(self).changes(),
            final(self).seen() == old(self).seen(),
            final(self).released() == old(self).released(),
    {
        let mut taken: Vec<T> = Vec::new();
        let mut more = true;
        while more
            invariant
                taken@ + self.items@ == old(self).items@,
                self.changes@ == old(self).changes@,
                self.seen == old(self).seen,
                self.released == old(self).released,
                !more ==> self.items@.len() == 0,
            decreases self.items@.len() + (if more { 1nat } else { 0nat }),
        {
            let ghost waiting = self.items@;
            let ghost before = taken@;
            match self.items.pop_front() {
                Some(item) => {
                    taken.push(item);
                    proof {
                        assert(taken@ + self.items@ =~= before + waiting);
                    }
                },
                None => {
                    more = false;
                },
            }
        }
        proof {
            assert(taken@ =~= taken@ + self.items@);
        }
        taken
    }

    /// Notices every state change that waits and gives the state the
    /// connection is in by the last of them.
    pub fn state(&mut self) -> (state: ConnectionState)
        ensures
            state == latest_state(old(self).seen(), old(self).changes()),
            final(self).seen() == state,
            final(self).changes() == Seq::<ConnectionState>::empty(),
            final(self).items() == old(self).items(),
            final(self).released() == old(self).released(),
    {
        let mut more = true;
        while more
            invariant
                self.items@ == old(self).items@,
                self.released == old(self).released,
                latest_state(self.seen, self.changes@) == latest_state(
                    old(self).seen,
                    old(self).changes@,
                ),
                !more ==> self.changes@.len() == 0,
            decreases self.changes@.len() + (if more { 1nat } else { 0nat }),
        {
            match self.changes.pop_front() {
                Some(change) => {
                    self.seen = change;
                },
                None => {
                    more = false;
                },
            }
        }
        proof {
            assert(self.changes@ =~= Seq::<ConnectionState>::empty());
        }
        self.seen
    }
}

} // verus!
