//! A tracked socket, and what it needs of the event loop.

use crate::events::Interest;
use crate::outside::{eexist, os_error, pollin, pollout, raw_os_error};
use vstd::prelude::*;

verus! {

/// A socket that libcurl asked the driver to watch.
#[derive(Clone, Copy, Debug, PartialEq, Eq)]
pub struct SocketEntry {
    /// What libcurl last asked for, if it asked for anything yet.
    pub want: Option<Interest>,
    /// Whether libcurl has asked again since it was last told of an event here.
    pub changed: bool,
    /// The file descriptor.
    pub socket: i32,
}

/// What has to be done so that one direction of a socket is not forgotten.
#[derive(Clone, Copy, Debug, PartialEq, Eq, Structural)]
pub enum Need {
    /// Nothing: libcurl does not wait for this direction.
    Nothing,
    /// Ask the event loop for a notification once the socket gets ready.
    Wait,
    /// Have the driver woken at once: the socket is ready now, and the event loop
    /// only reports sockets that become so.
    Notify,
}

/// What a socket needs, direction by direction.
#[derive(Clone, Copy, Debug, PartialEq, Eq, Structural)]
pub struct Needs {
    pub read: Need,
    pub write: Need,
}

/// The bit of a `poll` mask that stands for something to read.
pub open spec fn readable_bit() -> i16 {
    1
}

/// The bit of a `poll` mask that stands for room to write.
pub open spec fn writable_bit() -> i16 {
    4
}

/// The `poll` mask that asks for the given directions.
pub open spec fn poll_mask(input: bool, output: bool) -> i16 {
    match (input, output) {
        (false, false) => 0,
        (true, false) => 1,
        (false, true) => 4,
        (true, true) => 5,
    }
}

/// What one direction needs, given whether libcurl waits for it and whether the
/// socket is ready for it.
pub open spec fn need_of(wanted: bool, ready: bool) -> Need {
    if !wanted {
        Need::Nothing
    } else if ready {
        Need::Notify
    } else {
        Need::Wait
    }
}

/// What the socket `entry` needs when `poll` says `revents` of it.
pub open spec fn needs_of(entry: SocketEntry, revents: i16) -> Needs {
    Needs {
        read: need_of(entry.wants_input(), revents & readable_bit() != 0),
        write: need_of(entry.wants_output(), revents & writable_bit() != 0),
    }
}

impl SocketEntry {
    /// libcurl waits for something to read here.
    pub open spec fn wants_input(self) -> bool {
        self.want matches Some(events) && events.input
    }

    /// libcurl waits for room to write here.
    pub open spec fn wants_output(self) -> bool {
        self.want matches Some(events) && events.output
    }

    /// The mask to `poll` the socket with before `update_needs`, or `None` if
    /// libcurl asked for nothing yet and there is no need to.
    pub fn poll_events(&self) -> (mask: Option<i16>)
        ensures
            mask == match self.want {
                Some(events) => Some(poll_mask(events.input, events.output)),
                None => None,
            },
    {
        let want = match self.want {
            Some(want) => want,
            None => {
                return None;
            },
        };
        let mut mask: i16 = 0;
        if want.input {
            mask = mask | pollin();
        }
        if want.output {
            mask = mask | pollout();
        }
        assert(0i16 | 1i16 == 1i16) by (bit_vector);
        assert(0i16 | 4i16 == 4i16) by (bit_vector);
        assert(1i16 | 4i16 == 5i16) by (bit_vector);
        Some(mask)
    }

    /// Decides how the driver will be woken again for this socket, where
    /// `revents` is what `poll` said of it.
    ///
    /// libcurl wants to be told for as long as a socket is ready, while the event
    /// loop only tells when one becomes ready. So a direction that libcurl waits
    /// for and that is ready already is not left to the event loop.
    pub fn update_needs(&self, revents: i16) -> (needs: Needs)
        ensures
            needs == needs_of(*self, revents),
            self.want matches Some(events) ==> {
                &&& needs.read is Wait <==> events.input && revents & 1i16 == 0
                &&& needs.read is Notify <==> events.input && revents & 1i16 != 0
                &&& needs.write is Wait <==> events.output && revents & 4i16 == 0
                &&& needs.write is Notify <==> events.output && revents & 4i16 != 0
            },
            self.want is None ==> needs.read is Nothing && needs.write is Nothing,
    {
        let mut needs = Needs { read: Need::Nothing, write: Need::Nothing };
        let want = match self.want {
            Some(want) => want,
            None => {
                return needs;
            },
        };
        if want.input {
            if (revents & pollin()) == 0 {
                needs.read = Need::Wait;
            } else {
                needs.read = Need::Notify;
            }
        }
        if want.output {
            if (revents & pollout()) == 0 {
                needs.write = Need::Wait;
            } else {
                needs.write = Need::Notify;
            }
        }
        needs
    }
}

/// The error number `errno`, if there is one, says that something is already there.
pub open spec fn is_eexist(errno: Option<i32>) -> bool {
    errno == Some(17i32)
}

/// Whether the error number `errno`, if there is one, says that a socket is already
/// registered with the event loop.
pub fn already_registered(errno: Option<i32>) -> (already: bool)
    ensures
        already == is_eexist(errno),
{
    match errno {
        Some(errno) => errno == eexist(),
        None => false,
    }
}

/// Decides what to do when a socket could not be registered with the event loop
/// because of `error`: `true` to register it anew in place of the old registration,
/// `false` to give up.
///
/// libcurl comes back to sockets that it had dropped. They are never deregistered,
/// as by then the descriptor may belong to another file, so one that is already
/// registered is no failure.
pub fn should_reregister(error: &std::io::Error) -> (again: bool)
    ensures
        again == is_eexist(os_error(*error)),
{
    already_registered(raw_os_error(error))
}

} // verus!
