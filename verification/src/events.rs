//! What libcurl asks of sockets, what sockets answer, and the numbers by which
//! the driver is woken.

use crate::outside::{
    asks_input, asks_output, asks_remove, curl_events, input, new_events, output, removal,
};
use vstd::prelude::*;

verus! {

/// What libcurl asks the driver to do about a socket.
#[derive(Clone, Copy, Debug, PartialEq, Eq, Structural)]
pub struct Interest {
    /// Wait until there is something to read.
    pub input: bool,
    /// Wait until there is room to write.
    pub output: bool,
    /// Forget about the socket.
    pub remove: bool,
}

/// What has happened on a socket, to be reported to libcurl.
#[derive(Clone, Copy, Debug, PartialEq, Eq, Structural)]
pub struct Readiness {
    /// There is something to read.
    pub input: bool,
    /// There is room to write.
    pub output: bool,
}

impl Interest {
    /// Reads what libcurl asks for.
    pub fn of(events: &curl::multi::SocketEvents) -> (read: Interest)
        ensures
            read.input == asks_input(*events),
            read.output == asks_output(*events),
            read.remove == asks_remove(*events),
    {
        Interest { input: input(events), output: output(events), remove: removal(events) }
    }
}

impl Readiness {
    /// The events in the form in which libcurl is told of them.
    pub fn to_curl(&self) -> (events: curl::multi::Events)
        ensures
            events == curl_events(self.input, self.output),
    {
        new_events(self.input, self.output)
    }
}

/// Why the driver was woken.
#[derive(Clone, Copy, Debug, PartialEq, Eq, Structural)]
pub enum Event {
    /// The request in this slot may have been given up.
    Cancel(usize),
    /// Something may have happened on the socket in this slot.
    Socket(usize),
}

/// The reason for waking that the number `id` stands for: the even numbers are
/// the requests, the odd ones the sockets.
pub open spec fn event_of(id: usize) -> Event {
    if id % 2 == 0 {
        Event::Cancel(id / 2)
    } else {
        Event::Socket(id / 2)
    }
}

/// The number that stands for the request in slot `index`.
pub open spec fn cancel_id(index: usize) -> int {
    2 * index
}

/// The number that stands for the socket in slot `index`.
pub open spec fn socket_id(index: usize) -> int {
    2 * index + 1
}

/// Tells what the number that came with a notification stands for.
pub fn check(id: usize) -> (event: Event)
    ensures
        event == event_of(id),
{
    if id % 2 == 0 {
        Event::Cancel(id / 2)
    } else {
        Event::Socket(id / 2)
    }
}

} // verus!
