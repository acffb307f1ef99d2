//! The driver's state.

use crate::events::{cancel_id, event_of, socket_id, Event, Interest, Readiness};
use crate::model::{HandleEntry, Model, TimeoutState};
use crate::outside::{
    as_nanos, duration_nanos, multi_io_error, set_token, token_of, with_token,
};
use crate::perform::{refusal, Complete, Reply};
use crate::slots::{
    capacity, get, get_mut, handle_slots, handle_vacancy, insert, is_empty, len, max_slots,
    new_handles, new_sockets, remove, reserve_exact, socket_slots, socket_vacancy, vacant_key,
};
use crate::socket::SocketEntry;
use curl::multi::EasyHandle;
use slab::Slab;
use std::time::Duration;
use tokio_core::reactor::Timeout;
use vstd::prelude::*;

verus! {

/// What the driver remembers: the active requests, the sockets that libcurl wants
/// watched, and the timeout that it last asked for.
pub struct State {
    handles: Slab<HandleEntry>,
    sockets: Slab<SocketEntry>,
    timeout: TimeoutState,
}

/// What has to be done about a request that has just come in.
pub enum Admission {
    /// libcurl would not take it: send `reply` to `complete`.
    Refused { complete: Complete, reply: Reply },
    /// It is active, in slot `index`. Put `event` on the stack of notifications,
    /// so that the driver will see when the request is given up.
    Admitted { index: usize, event: usize },
    /// Its transfer could not be given a token, so that it could never be found
    /// again.
    Unmarked(curl::Error),
}

/// What has to be done about a socket that libcurl has spoken of.
#[derive(Clone, Copy, Debug, PartialEq, Eq)]
pub enum SocketChange {
    /// It is not tracked any more: drop what was kept for slot `index`.
    Removed { index: usize },
    /// It is tracked, in slot `index`, as `entry`. If libcurl has no token for it
    /// yet, `assign` is the one to give it. Then see to what `entry` needs, with
    /// notifications that carry `event`.
    Watched { index: usize, assign: Option<usize>, event: usize, entry: SocketEntry },
}

/// What has to be done when libcurl asks for `events` on `socket`, which has the
/// token `token`, or 0 if it is new and goes to `vacancy`.
pub open spec fn scheduled_change(
    model: Model,
    socket: i32,
    events: Interest,
    token: usize,
    vacancy: usize,
) -> SocketChange {
    let index = Model::slot_of(token, vacancy);
    if events.remove {
        SocketChange::Removed { index }
    } else {
        SocketChange::Watched {
            index,
            assign: if token == 0 {
                Some((index + 1) as usize)
            } else {
                None
            },
            event: socket_id(index) as usize,
            entry: model.scheduled_entry(socket, events, token),
        }
    }
}

/// What libcurl has to be told: that `events` happened on `socket`.
#[derive(Clone, Copy, Debug, PartialEq, Eq)]
pub struct SocketAction {
    pub socket: i32,
    pub events: Readiness,
}

/// What libcurl has to be told when the event loop says `events` of the socket in slot
/// `index`, if anything.
pub open spec fn reported_action(model: Model, index: usize, events: Readiness) -> Option<
    SocketAction,
> {
    if model.socket_ready(index, events) {
        Some(SocketAction { socket: model.sockets[index].socket, events })
    } else {
        None
    }
}

impl View for State {
    type V = Model;

    closed spec fn view(&self) -> Model {
        Model {
            handles: handle_slots(self.handles),
            sockets: socket_slots(self.sockets),
            timeout: self.timeout,
        }
    }
}

impl State {
    /// The slot that the next request goes to.
    pub closed spec fn next_handle(self) -> usize {
        handle_vacancy(self.handles)
    }

    /// The slot that the next socket goes to.
    pub closed spec fn next_socket(self) -> usize {
        socket_vacancy(self.sockets)
    }

    /// The state of a driver that has done nothing yet.
    pub fn new() -> (state: State)
        ensures
            state@ == Model::initial(),
            state.next_handle() == 0,
            state.next_socket() == 0,
    {
        State {
            handles: new_handles(128),
            sockets: new_sockets(128),
            timeout: TimeoutState::Idle,
        }
    }

    /// Whether there is an active request in slot `index`.
    pub fn has_handle(&self, index: usize) -> (found: bool)
        ensures
            found == self@.handles.contains_key(index),
            found ==> cancel_id(index) <= usize::MAX,
    {
        get(&self.handles, index).is_some()
    }

    /// Whether there is a tracked socket in slot `index`.
    pub fn has_socket(&self, index: usize) -> (found: bool)
        ensures
            found == self@.sockets.contains_key(index),
            found ==> socket_id(index) <= usize::MAX,
    {
        get(&self.sockets, index).is_some()
    }

    /// Whether one more request can be stored.
    pub fn has_handle_room(&self) -> (room: bool)
        ensures
            room == (self@.handles.len() <= max_slots()),
    {
        len(&self.handles) <= usize::MAX / 256
    }

    /// Whether one more socket can be stored.
    pub fn has_socket_room(&self) -> (room: bool)
        ensures
            room == (self@.sockets.len() <= max_slots()),
    {
        len(&self.sockets) <= usize::MAX / 256
    }

    /// Whether no request is active.
    pub fn no_handles(&self) -> (none: bool)
        ensures
            none == (self@.handles == Map::<usize, HandleEntry>::empty()),
    {
        is_empty(&self.handles)
    }

    /// Whether no socket is tracked.
    pub fn no_sockets(&self) -> (none: bool)
        ensures
            none == (self@.sockets == Map::<usize, SocketEntry>::empty()),
    {
        is_empty(&self.sockets)
    }

    /// Takes note that libcurl asks for a timeout after `dur`, or for none, in place
    /// of whatever it asked for before.
    ///
    /// Returns whether there is something to wait for: if so, make a timer and pass
    /// it to `arm_timeout`.
    pub fn schedule_timeout(&mut self, dur: Option<Duration>) -> (arm: bool)
        ensures
            ({
                let nanos = match dur {
                    Some(dur) => Some(duration_nanos(dur)),
                    None => None,
                };
                &&& arm == (nanos is Some && nanos != Some(0u128))
                &&& final(self)@ == old(self)@.timeout_requested(nanos)
            }),
            final(self).next_handle() == old(self).next_handle(),
            final(self).next_socket() == old(self).next_socket(),
    {
        let nanos: Option<u128> = match dur {
            Some(dur) => Some(as_nanos(&dur)),
            None => None,
        };
        self.request_timeout(nanos)
    }

    /// Does what `schedule_timeout` does, for a timeout after `nanos` nanoseconds.
    pub fn request_timeout(&mut self, nanos: Option<u128>) -> (arm: bool)
        ensures
            arm == (nanos is Some && nanos != Some(0u128)),
            final(self)@ == old(self)@.timeout_requested(nanos),
            final(self).next_handle() == old(self).next_handle(),
            final(self).next_socket() == old(self).next_socket(),
    {
        // Whatever comes now, the timeout that was there counts no more.
        self.timeout = TimeoutState::Idle;
        match nanos {
            Some(nanos) => {
                if nanos == 0 {
                    self.timeout = TimeoutState::Ready;
                    false
                } else {
                    true
                }
            },
            None => false,
        }
    }

    /// Takes the timer for the timeout that libcurl asked for. `elapsed` says
    /// whether it is over already.
    pub fn arm_timeout(&mut self, timer: Timeout, elapsed: bool)
        ensures
            final(self)@ == old(self)@.timer_armed(timer, elapsed),
            final(self).next_handle() == old(self).next_handle(),
            final(self).next_socket() == old(self).next_socket(),
    {
        if elapsed {
            self.timeout = TimeoutState::Ready;
        } else {
            self.timeout = TimeoutState::Waiting(timer);
        }
    }

    /// The timer that the timeout waits for, if it waits for one.
    pub fn timer_mut(&mut self) -> (timer: Option<&mut Timeout>)
        ensures
            match old(self)@.timeout {
                TimeoutState::Waiting(waiting) => {
                    &&& timer matches Some(timer)
                    &&& *timer == waiting
                    &&& final(self)@ == (Model {
                        timeout: TimeoutState::Waiting(*final(timer)),
                        ..old(self)@
                    })
                },
                _ => timer is None && final(self)@ == old(self)@,
            },
            final(self).next_handle() == old(self).next_handle(),
            final(self).next_socket() == old(self).next_socket(),
    {
        match &mut self.timeout {
            TimeoutState::Waiting(timer) => Some(timer),
            _ => None,
        }
    }

    /// Decides whether libcurl has to be told that its timeout is over. `elapsed`
    /// says whether the timer is, if there is one.
    ///
    /// When it has to, the timeout is gone. libcurl may ask for another one when
    /// told, so check again until the answer is no.
    pub fn check_timeout(&mut self, elapsed: bool) -> (due: bool)
        ensures
            due == old(self)@.timeout_due(elapsed),
            due <==> old(self)@.timeout is Ready || old(self)@.timeout is Waiting && elapsed,
            !due ==> final(self)@ == old(self)@,
            due ==> final(self)@.timeout is Idle,
            final(self)@ == old(self)@.timeout_checked(elapsed),
            final(self).next_handle() == old(self).next_handle(),
            final(self).next_socket() == old(self).next_socket(),
    {
        let due = match &self.timeout {
            TimeoutState::Waiting(_) => elapsed,
            TimeoutState::Ready => true,
            TimeoutState::Idle => false,
        };
        if due {
            self.timeout = TimeoutState::Idle;
        }
        due
    }

    /// Takes note that libcurl asks for `events` on `socket`, where `token` is the
    /// token that it was given for the socket, or 0 if it was given none.
    ///
    /// A token is one more than the socket's slot.
    pub fn schedule_socket(&mut self, socket: i32, events: Interest, token: usize) -> (change:
        SocketChange)
        requires
            old(self)@.knows_token(events, token),
            token == 0 ==> old(self)@.sockets.len() <= max_slots(),
        ensures
            final(self)@ == old(self)@.socket_scheduled(
                socket,
                events,
                token,
                old(self).next_socket(),
            ),
            token == 0 ==> !old(self)@.sockets.contains_key(old(self).next_socket()),
            final(self).next_handle() == old(self).next_handle(),
            token != 0 ==> final(self).next_socket() == if events.remove {
                (token - 1) as usize
            } else {
                old(self).next_socket()
            },
            change == scheduled_change(
                old(self)@,
                socket,
                events,
                token,
                old(self).next_socket(),
            ),
            change matches SocketChange::Watched { index, .. } ==> socket_id(index) <= usize::MAX,
            events.remove <==> change is Removed,
            change matches SocketChange::Removed { index } ==> index + 1 == token
                && !final(self)@.sockets.contains_key(index),
            change matches SocketChange::Watched { index, assign, event, entry } ==> {
                &&& final(self)@.sockets.contains_key(index)
                &&& final(self)@.sockets[index] == entry
                &&& entry.want == Some(events)
                &&& event == 2 * index + 1
                &&& event_of(event) == Event::Socket(index)
                &&& token == 0 ==> {
                    &&& index == old(self).next_socket()
                    &&& assign matches Some(given)
                    &&& given == index + 1
                    &&& entry.socket == socket
                }
                &&& token != 0 ==> {
                    &&& index + 1 == token
                    &&& assign is None
                    &&& entry.socket == old(self)@.sockets[index].socket
                }
            },
    {
        // The socket is not deregistered from the event loop: it may be closed by
        // now, and its descriptor may belong to another file.
        if events.remove {
            remove(&mut self.sockets, token - 1);
            return SocketChange::Removed { index: token - 1 };
        }
        let mut assign: Option<usize> = None;
        let index: usize = if token == 0 {
            if !(capacity(&self.sockets) > len(&self.handles)) {
                let additional: usize = len(&self.sockets);
                reserve_exact(&mut self.sockets, additional);
            }
            let index: usize = vacant_key(&self.sockets);
            insert(&mut self.sockets, SocketEntry { want: None, changed: false, socket });
            assign = Some(index + 1);
            index
        } else {
            token - 1
        };
        let mut entry = SocketEntry { want: Some(events), changed: true, socket };
        if let Some(known) = get_mut(&mut self.sockets, index) {
            known.want = Some(events);
            known.changed = true;
            entry = *known;
        }
        SocketChange::Watched { index, assign, event: 2 * index + 1, entry }
    }

    /// Decides what libcurl has to be told about the socket in slot `index`, where
    /// `events` is what the event loop says of it. Nothing is to be told of a
    /// socket that is not tracked any more, or is not ready for anything.
    ///
    /// Once libcurl has been told, see `socket_unchanged`.
    pub fn check_socket(&mut self, index: usize, events: Readiness) -> (action: Option<
        SocketAction,
    >)
        ensures
            action == reported_action(old(self)@, index, events),
            action == if old(self)@.sockets.contains_key(index) && (events.input
                || events.output) {
                Some(SocketAction { socket: old(self)@.sockets[index].socket, events })
            } else {
                None
            },
            action is Some ==> socket_id(index) <= usize::MAX,
            final(self)@ == old(self)@.socket_checked(index, events),
            final(self).next_handle() == old(self).next_handle(),
            final(self).next_socket() == old(self).next_socket(),
    {
        if !events.input && !events.output {
            return None;
        }
        match get_mut(&mut self.sockets, index) {
            Some(entry) => {
                entry.changed = false;
                Some(SocketAction { socket: entry.socket, events })
            },
            None => None,
        }
    }

    /// The socket in slot `index` if libcurl, once told of an event on it, neither
    /// dropped it nor asked for anything new. What the socket needs has to be seen
    /// to again then; in the other cases that is done or needless.
    pub fn socket_unchanged(&self, index: usize) -> (entry: Option<SocketEntry>)
        ensures
            entry == if self@.socket_unchanged(index) {
                Some(self@.sockets[index])
            } else {
                None
            },
    {
        match get(&self.sockets, index) {
            Some(entry) => {
                if !entry.changed {
                    Some(*entry)
                } else {
                    None
                }
            },
            None => None,
        }
    }

    /// Takes on a request, where `added` is what libcurl made of its transfer and
    /// the reply goes to `complete`.
    ///
    /// The transfer gets the slot of the request for its token.
    pub fn check_message(
        &mut self,
        complete: Complete,
        added: Result<EasyHandle, curl::MultiError>,
    ) -> (admission: Admission)
        requires
            added is Ok ==> old(self)@.handles.len() <= max_slots(),
        ensures
            match added {
                Ok(handle) => {
                    let index = old(self).next_handle();
                    match admission {
                        Admission::Refused { .. } => false,
                        Admission::Admitted { index: taken, event } => {
                            &&& taken == index
                            &&& event == cancel_id(index)
                            &&& final(self)@ == old(self)@.request_admitted(
                                index,
                                HandleEntry { complete, handle: with_token(handle, index) },
                            )
                        },
                        Admission::Unmarked(_) => final(self)@ == old(self)@,
                    }
                },
                Err(error) => {
                    &&& admission == Admission::Refused {
                        complete,
                        reply: Reply::Err(multi_io_error(error)),
                    }
                    &&& final(self)@ == old(self)@
                },
            },
            admission matches Admission::Admitted { index, .. } ==> token_of(
                final(self)@.handles[index].handle,
            ) == index,
            admission is Admitted ==> !old(self)@.handles.contains_key(old(self).next_handle()),
            admission !is Admitted ==> final(self).next_handle() == old(self).next_handle(),
            final(self).next_socket() == old(self).next_socket(),
    {
        let mut handle = match added {
            Ok(handle) => handle,
            Err(error) => {
                return Admission::Refused { complete, reply: refusal(error) };
            },
        };
        if !(capacity(&self.handles) > len(&self.handles)) {
            let additional: usize = len(&self.handles);
            reserve_exact(&mut self.handles, additional);
        }
        let index: usize = vacant_key(&self.handles);
        let marked = set_token(&mut handle, index);
        self.store(complete, handle, marked)
    }

    /// Stores a request whose transfer is `handle`, where `marked` says whether the
    /// transfer could be given the next slot for its token.
    pub fn store(
        &mut self,
        complete: Complete,
        handle: EasyHandle,
        marked: Result<(), curl::Error>,
    ) -> (admission: Admission)
        requires
            marked is Ok ==> old(self)@.handles.len() <= max_slots(),
        ensures
            match marked {
                Ok(_) => {
                    let index = old(self).next_handle();
                    &&& admission == Admission::Admitted { index, event: cancel_id(index) as usize }
                    &&& cancel_id(index) <= usize::MAX
                    &&& !old(self)@.handles.contains_key(index)
                    &&& final(self)@ == old(self)@.request_admitted(
                        index,
                        HandleEntry { complete, handle },
                    )
                },
                Err(error) => {
                    &&& admission == Admission::Unmarked(error)
                    &&& final(self)@ == old(self)@
                    &&& final(self).next_handle() == old(self).next_handle()
                },
            },
            final(self).next_socket() == old(self).next_socket(),
    {
        match marked {
            Ok(_) => {
                let index: usize = vacant_key(&self.handles);
                insert(&mut self.handles, HandleEntry { complete, handle });
                Admission::Admitted { index, event: 2 * index }
            },
            Err(error) => Admission::Unmarked(error),
        }
    }

    /// Where the reply to the request in slot `index` goes, if the request is
    /// active: it tells whether anybody still waits for the reply.
    pub fn complete_mut(&mut self, index: usize) -> (complete: Option<&mut Complete>)
        ensures
            complete is Some <==> old(self)@.handles.contains_key(index),
            complete is None ==> final(self)@ == old(self)@,
            complete matches Some(complete) ==> {
                &&& *complete == old(self)@.handles[index].complete
                &&& final(self)@ == old(self)@.request_admitted(
                    index,
                    HandleEntry {
                        complete: *final(complete),
                        handle: old(self)@.handles[index].handle,
                    },
                )
            },
            final(self).next_handle() == old(self).next_handle(),
            final(self).next_socket() == old(self).next_socket(),
    {
        match get_mut(&mut self.handles, index) {
            Some(entry) => Some(&mut entry.complete),
            None => None,
        }
    }

    /// Decides what to do about the request in slot `index`, where `canceled` says
    /// whether nobody waits for its reply any more. A request that was given up is
    /// forgotten, and its transfer returned, to be taken from libcurl.
    pub fn check_cancel(&mut self, index: usize, canceled: bool) -> (handle: Option<EasyHandle>)
        ensures
            handle == if old(self)@.given_up(index, canceled) {
                Some(old(self)@.handles[index].handle)
            } else {
                None
            },
            final(self)@ == old(self)@.cancel_checked(index, canceled),
            final(self).next_handle() == if old(self)@.given_up(index, canceled) {
                index
            } else {
                old(self).next_handle()
            },
            final(self).next_socket() == old(self).next_socket(),
    {
        if get(&self.handles, index).is_none() {
            return None;
        }
        if canceled {
            let entry = remove(&mut self.handles, index);
            Some(entry.handle)
        } else {
            None
        }
    }

    /// Forgets the request in slot `index`, whose transfer is over, and returns it:
    /// take the transfer from libcurl and send the reply.
    pub fn check_completions(&mut self, index: usize) -> (entry: HandleEntry)
        requires
            old(self)@.handles.contains_key(index),
        ensures
            entry == old(self)@.handles[index],
            final(self)@ == old(self)@.request_dropped(index),
            final(self).next_handle() == index,
            final(self).next_socket() == old(self).next_socket(),
    {
        remove(&mut self.handles, index)
    }

    /// Decides whether the driver is done, where `rx_done` says whether no more
    /// requests will arrive: that is when none is active either. libcurl then has
    /// no socket left.
    pub fn poll(&self, rx_done: bool) -> (done: bool)
        requires
            self@.finished(rx_done) ==> self@.sockets == Map::<usize, SocketEntry>::empty(),
        ensures
            done == self@.finished(rx_done),
    {
        rx_done && self.no_handles()
    }
}

} // verus!
