//! Types, constants and functions of the crates that the library stands on.
//!
//! Everything in this file is believed, not proved.

use crate::perform::Reply;
use curl::multi::EasyHandle;
use futures::sync::oneshot::{Receiver, Sender};
use vstd::prelude::*;

verus! {

/// A configured transfer, `curl::easy::Easy`.
#[verifier::external_type_specification]
#[verifier::external_body]
pub struct ExEasy(curl::easy::Easy);

/// A transfer that libcurl is working on, `curl::multi::EasyHandle`.
#[verifier::external_type_specification]
#[verifier::external_body]
pub struct ExEasyHandle(curl::multi::EasyHandle);

/// Why a transfer failed, `curl::Error`.
#[verifier::external_type_specification]
#[verifier::external_body]
pub struct ExError(curl::Error);

/// Why libcurl refused to work on a transfer, `curl::MultiError`.
#[verifier::external_type_specification]
#[verifier::external_body]
pub struct ExMultiError(curl::MultiError);

/// What libcurl asks of a socket, `curl::multi::SocketEvents`.
#[verifier::external_type_specification]
#[verifier::external_body]
pub struct ExSocketEvents(curl::multi::SocketEvents);

/// What libcurl is told of a socket, `curl::multi::Events`.
#[verifier::external_type_specification]
#[verifier::external_body]
pub struct ExEvents(curl::multi::Events);

/// `std::io::Error`.
#[verifier::external_type_specification]
#[verifier::external_body]
pub struct ExIoError(std::io::Error);

/// The sending half of a one-shot channel, `futures::sync::oneshot::Sender`.
#[verifier::external_type_specification]
#[verifier::external_body]
#[verifier::reject_recursive_types(T)]
pub struct ExSender<T>(futures::sync::oneshot::Sender<T>);

/// The receiving half of a one-shot channel, `futures::sync::oneshot::Receiver`.
#[verifier::external_type_specification]
#[verifier::external_body]
#[verifier::reject_recursive_types(T)]
pub struct ExReceiver<T>(futures::sync::oneshot::Receiver<T>);

/// A timer of the event loop, `tokio_core::reactor::Timeout`.
#[verifier::external_type_specification]
#[verifier::external_body]
pub struct ExTimeout(tokio_core::reactor::Timeout);

/// The half that receives what `sender` sends.
pub uninterp spec fn receiver_of(sender: Sender<Reply>) -> Receiver<Reply>;

/// `futures::sync::oneshot::channel`: a channel for one reply. What goes in at one
/// half comes out at the other: they belong together.
#[verifier::external_body]
pub(crate) fn channel() -> (halves: (Sender<Reply>, Receiver<Reply>))
    ensures
        halves.1 == receiver_of(halves.0),
{
    futures::sync::oneshot::channel()
}

/// The handle that `handle` is once `EasyHandle::set_token` has given it `token`.
pub uninterp spec fn with_token(handle: EasyHandle, token: usize) -> EasyHandle;

/// The token that `handle` bears: the one that libcurl names it by, once its
/// transfer is over.
pub uninterp spec fn token_of(handle: EasyHandle) -> usize;

/// `curl::multi::EasyHandle::set_token`: gives a handle the token by which
/// libcurl will name it once its transfer is over.
///
/// When the call succeeds, the handle is the one that was passed in, and bears that
/// token in place of any other. Whether it succeeds is libcurl's affair and left
/// open, as is what a handle is good for after a failure.
#[verifier::external_body]
pub(crate) fn set_token(handle: &mut EasyHandle, token: usize) -> (set: Result<(), curl::Error>)
    ensures
        set is Ok ==> *final(handle) == with_token(*old(handle), token),
        set is Ok ==> token_of(*final(handle)) == token,
{
    handle.set_token(token)
}

/// The I/O error that `From<curl::Error>` makes of the failure of a transfer.
pub uninterp spec fn transfer_io_error(error: curl::Error) -> std::io::Error;

/// `<std::io::Error as From<curl::Error>>::from`, which wraps the error it is
/// given: the result is determined by that error.
#[verifier::external_body]
pub(crate) fn io_error_of_transfer(error: curl::Error) -> (converted: std::io::Error)
    ensures
        converted == transfer_io_error(error),
{
    std::io::Error::from(error)
}

/// The I/O error that `From<curl::MultiError>` makes of a refusal by libcurl.
pub uninterp spec fn multi_io_error(error: curl::MultiError) -> std::io::Error;

/// `<std::io::Error as From<curl::MultiError>>::from`, which wraps the error it
/// is given: the result is determined by that error.
#[verifier::external_body]
pub(crate) fn io_error_of_multi(error: curl::MultiError) -> (converted: std::io::Error)
    ensures
        converted == multi_io_error(error),
{
    std::io::Error::from(error)
}

/// What `SocketEvents::input` says of `events`.
pub uninterp spec fn asks_input(events: curl::multi::SocketEvents) -> bool;

/// `curl::multi::SocketEvents::input`: whether libcurl waits for something to read.
#[verifier::external_body]
pub(crate) fn input(events: &curl::multi::SocketEvents) -> (asked: bool)
    ensures
        asked == asks_input(*events),
{
    events.input()
}

/// What `SocketEvents::output` says of `events`.
pub uninterp spec fn asks_output(events: curl::multi::SocketEvents) -> bool;

/// `curl::multi::SocketEvents::output`: whether libcurl waits for room to write.
#[verifier::external_body]
pub(crate) fn output(events: &curl::multi::SocketEvents) -> (asked: bool)
    ensures
        asked == asks_output(*events),
{
    events.output()
}

/// What `SocketEvents::remove` says of `events`.
pub uninterp spec fn asks_remove(events: curl::multi::SocketEvents) -> bool;

/// `curl::multi::SocketEvents::remove`: whether libcurl drops the socket.
#[verifier::external_body]
pub(crate) fn removal(events: &curl::multi::SocketEvents) -> (asked: bool)
    ensures
        asked == asks_remove(*events),
{
    events.remove()
}

/// The `curl::multi::Events` in which the flags for input and output are set as
/// given and no other flag is.
pub uninterp spec fn curl_events(input: bool, output: bool) -> curl::multi::Events;

/// `curl::multi::Events::new`, with the flags then set by `Events::input` and
/// `Events::output`: the result is determined by the two flags.
#[verifier::external_body]
pub(crate) fn new_events(input: bool, output: bool) -> (events: curl::multi::Events)
    ensures
        events == curl_events(input, output),
{
    let mut events = curl::multi::Events::new();
    events.input(input).output(output);
    events
}

/// The length of `duration` in nanoseconds.
pub uninterp spec fn duration_nanos(duration: std::time::Duration) -> u128;

/// `std::time::Duration::as_nanos`: the length of a duration in nanoseconds.
#[verifier::external_body]
pub(crate) fn as_nanos(duration: &std::time::Duration) -> (nanos: u128)
    ensures
        nanos == duration_nanos(*duration),
{
    duration.as_nanos()
}

/// The error number of the system that `error` holds, if it holds one.
pub uninterp spec fn os_error(error: std::io::Error) -> Option<i32>;

/// `std::io::Error::raw_os_error`: the error number of the system that an error
/// holds, if it holds one.
#[verifier::external_body]
pub(crate) fn raw_os_error(error: &std::io::Error) -> (errno: Option<i32>)
    ensures
        errno == os_error(*error),
{
    error.raw_os_error()
}

/// `libc::POLLIN`: the bit by which `poll` is asked, and answers, whether there is
/// something to read. It is 1 on Linux, Android, the BSDs, macOS and Solaris, the
/// systems that the event loop runs on.
#[verifier::external_body]
pub(crate) fn pollin() -> (bit: i16)
    ensures
        bit == 1,
{
    libc::POLLIN
}

/// `libc::POLLOUT`: the bit by which `poll` is asked, and answers, whether there
/// is room to write. It is 4 on the systems named at `pollin`.
#[verifier::external_body]
pub(crate) fn pollout() -> (bit: i16)
    ensures
        bit == 4,
{
    libc::POLLOUT
}

/// `libc::EEXIST`: the error number that says that something is already there. It
/// is 17 on the systems named at `pollin`.
#[verifier::external_body]
pub(crate) fn eexist() -> (errno: i32)
    ensures
        errno == 17,
{
    libc::EEXIST
}

} // verus!
