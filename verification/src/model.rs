//! What the driver's state means, and what each thing that happens does to it.

use crate::events::{Interest, Readiness};
use crate::perform::Complete;
use crate::socket::SocketEntry;
use curl::multi::EasyHandle;
use tokio_core::reactor::Timeout;
use vstd::prelude::*;

verus! {

/// A request that libcurl is working on.
pub struct HandleEntry {
    /// Where the reply goes.
    pub complete: Complete,
    /// The transfer.
    pub handle: EasyHandle,
}

/// The timeout that libcurl last asked for.
pub enum TimeoutState {
    /// It is over when this timer is.
    Waiting(Timeout),
    /// It is over.
    Ready,
    /// There is none.
    Idle,
}

/// The driver's state as mathematical values.
#[verifier::ext_equal]
pub struct Model {
    /// The active requests, by slot.
    pub handles: Map<usize, HandleEntry>,
    /// The tracked sockets, by slot.
    pub sockets: Map<usize, SocketEntry>,
    /// The timeout that libcurl last asked for.
    pub timeout: TimeoutState,
}

impl Model {
    /// Nothing has happened yet.
    pub open spec fn initial() -> Model {
        Model { handles: Map::empty(), sockets: Map::empty(), timeout: TimeoutState::Idle }
    }

    /// libcurl asks for a timeout after `nanos` nanoseconds, or for none. Where
    /// there is something to wait for, there is no timeout until a timer for it is
    /// armed.
    pub open spec fn timeout_requested(self, nanos: Option<u128>) -> Model {
        let timeout = if nanos == Some(0u128) {
            TimeoutState::Ready
        } else {
            TimeoutState::Idle
        };
        Model { timeout, ..self }
    }

    /// A timer was made for the timeout, and is over already if `elapsed`.
    pub open spec fn timer_armed(self, timer: Timeout, elapsed: bool) -> Model {
        let timeout = if elapsed {
            TimeoutState::Ready
        } else {
            TimeoutState::Waiting(timer)
        };
        Model { timeout, ..self }
    }

    /// libcurl has to be told that its timeout is over, where `elapsed` says
    /// whether the timer is, if there is one.
    pub open spec fn timeout_due(self, elapsed: bool) -> bool {
        match self.timeout {
            TimeoutState::Waiting(_) => elapsed,
            TimeoutState::Ready => true,
            TimeoutState::Idle => false,
        }
    }

    /// A timeout that is due was taken note of.
    pub open spec fn timeout_checked(self, elapsed: bool) -> Model {
        if self.timeout_due(elapsed) {
            Model { timeout: TimeoutState::Idle, ..self }
        } else {
            self
        }
    }

    /// What libcurl may say of a socket: it forgets none that it has no token for,
    /// and its tokens are those of tracked sockets.
    pub open spec fn knows_token(self, events: Interest, token: usize) -> bool {
        if token == 0 {
            !events.remove
        } else {
            self.sockets.contains_key((token - 1) as usize)
        }
    }

    /// The slot of the socket with libcurl's token `token`; a socket that has none
    /// yet goes to `vacancy`.
    pub open spec fn slot_of(token: usize, vacancy: usize) -> usize {
        if token == 0 {
            vacancy
        } else {
            (token - 1) as usize
        }
    }

    /// The socket as it is tracked once libcurl has asked for `events` on it. A
    /// socket with a token keeps its file descriptor.
    pub open spec fn scheduled_entry(
        self,
        socket: i32,
        events: Interest,
        token: usize,
    ) -> SocketEntry {
        SocketEntry {
            want: Some(events),
            changed: true,
            socket: if token == 0 {
                socket
            } else {
                self.sockets[(token - 1) as usize].socket
            },
        }
    }

    /// libcurl asks for `events` on `socket`, which has the token `token`, or 0 if
    /// it is new.
    pub open spec fn socket_scheduled(
        self,
        socket: i32,
        events: Interest,
        token: usize,
        vacancy: usize,
    ) -> Model {
        let index = Model::slot_of(token, vacancy);
        let sockets = if events.remove {
            self.sockets.remove(index)
        } else {
            self.sockets.insert(index, self.scheduled_entry(socket, events, token))
        };
        Model { sockets, ..self }
    }

    /// There is something to tell libcurl about the socket in slot `index`.
    pub open spec fn socket_ready(self, index: usize, events: Readiness) -> bool {
        self.sockets.contains_key(index) && (events.input || events.output)
    }

    /// The socket in slot `index` was found ready for `events`.
    pub open spec fn socket_checked(self, index: usize, events: Readiness) -> Model {
        if self.socket_ready(index, events) {
            let entry = SocketEntry { changed: false, ..self.sockets[index] };
            Model { sockets: self.sockets.insert(index, entry), ..self }
        } else {
            self
        }
    }

    /// libcurl was told of an event on the socket in slot `index` and neither
    /// dropped the socket nor asked for anything new on it.
    pub open spec fn socket_unchanged(self, index: usize) -> bool {
        self.sockets.contains_key(index) && !self.sockets[index].changed
    }

    /// The request in slot `index` was given up, where `canceled` says whether
    /// nobody waits for its reply any more.
    pub open spec fn given_up(self, index: usize, canceled: bool) -> bool {
        self.handles.contains_key(index) && canceled
    }

    /// The request in slot `index` is over.
    pub open spec fn request_dropped(self, index: usize) -> Model {
        Model { handles: self.handles.remove(index), ..self }
    }

    /// A request was checked for having been given up.
    pub open spec fn cancel_checked(self, index: usize, canceled: bool) -> Model {
        if self.given_up(index, canceled) {
            self.request_dropped(index)
        } else {
            self
        }
    }

    /// A request was taken on, in slot `index`.
    pub open spec fn request_admitted(self, index: usize, entry: HandleEntry) -> Model {
        Model { handles: self.handles.insert(index, entry), ..self }
    }

    /// There is nothing left to do and nothing to come, where `rx_done` says
    /// whether no more requests will arrive.
    pub open spec fn finished(self, rx_done: bool) -> bool {
        rx_done && self.handles == Map::<usize, HandleEntry>::empty()
    }
}

} // verus!
