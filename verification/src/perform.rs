//! How the outcome of a request reaches the one who made it.

use crate::outside::{
    channel, io_error_of_multi, io_error_of_transfer, multi_io_error, receiver_of,
    transfer_io_error,
};
use curl::easy::Easy;
use futures::sync::oneshot::{Receiver, Sender};
use vstd::prelude::*;

verus! {

/// What the driver answers to a request: the transfer itself and the error that
/// it ended with, if it did; or an error that cost the transfer.
pub type Reply = Result<(Easy, Option<curl::Error>), std::io::Error>;

/// Where the driver sends its answer.
pub type Complete = Sender<Reply>;

/// What is sent to the driver.
pub enum Message {
    /// Do this transfer, and reply there.
    Execute(Easy, Complete),
}

/// A request that has been made and may not be over yet.
pub struct Perform {
    inner: Receiver<Reply>,
}

impl Perform {
    /// Where the reply to the request comes out.
    pub closed spec fn receiver(self) -> Receiver<Reply> {
        self.inner
    }

    /// Where the reply to the request comes out, to be asked for it.
    pub fn receiver_mut(&mut self) -> (receiver: &mut Receiver<Reply>)
        ensures
            *receiver == old(self).receiver(),
            *final(receiver) == final(self).receiver(),
    {
        &mut self.inner
    }
}

/// `message` asks the driver for the transfer `handle`, with a reply to `perform`.
pub open spec fn is_request(handle: Easy, message: Message, perform: Perform) -> bool {
    &&& message matches Message::Execute(easy, complete)
    &&& easy == handle
    &&& perform.receiver() == receiver_of(complete)
}

/// Makes a request for the transfer `handle`: what to send to the driver, and what
/// becomes of it.
pub fn request(handle: Easy) -> (made: (Message, Perform))
    ensures
        is_request(handle, made.0, made.1),
{
    let (complete, inner) = channel();
    (Message::Execute(handle, complete), Perform { inner })
}

/// Why a request failed.
///
/// It holds an I/O error, and the `Easy` handle where that could be had back.
pub struct PerformError {
    error: std::io::Error,
    handle: Option<Easy>,
}

impl PerformError {
    /// The error that made the request fail.
    pub closed spec fn error(self) -> std::io::Error {
        self.error
    }

    /// The handle that is still there to be taken.
    pub closed spec fn handle(self) -> Option<Easy> {
        self.handle
    }

    /// Takes the `Easy` handle out, if it is there.
    ///
    /// A handle can serve for another request, and knows more of the one that
    /// failed. There is none if the handle could not be reclaimed, or if it was
    /// taken before.
    pub fn take_easy(&mut self) -> (easy: Option<Easy>)
        ensures
            easy == old(self).handle(),
            final(self).handle() is None,
            final(self).error() == old(self).error(),
    {
        self.handle.take()
    }

    /// The I/O error that made the request fail.
    pub fn into_error(self) -> (error: std::io::Error)
        ensures
            error == self.error(),
    {
        self.error
    }

    /// The I/O error that made the request fail, for a look at it.
    pub fn cause(&self) -> (cause: Option<&std::io::Error>)
        ensures
            cause == Some(&self.error()),
    {
        Some(&self.error)
    }

    /// What this is, in words.
    pub fn description(&self) -> (text: &'static str)
        ensures
            text@ == "failed to execute request"@,
    {
        "failed to execute request"
    }
}

impl vstd::std_specs::convert::FromSpecImpl<PerformError> for std::io::Error {
    open spec fn obeys_from_spec() -> bool {
        true
    }

    open spec fn from_spec(error: PerformError) -> std::io::Error {
        error.error()
    }
}

impl From<PerformError> for std::io::Error {
    fn from(error: PerformError) -> (converted: std::io::Error) {
        error.into_error()
    }
}

/// The reply to a request whose transfer libcurl would not take on.
pub fn refusal(error: curl::MultiError) -> (reply: Reply)
    ensures
        reply == Reply::Err(multi_io_error(error)),
{
    Err(io_error_of_multi(error))
}

/// The reply to a request whose transfer is over, where `removed` is what became
/// of taking the transfer back from libcurl and `transferred` how it went.
pub open spec fn reply_of(
    removed: Result<Easy, curl::MultiError>,
    transferred: Result<(), curl::Error>,
) -> Reply {
    match removed {
        Ok(easy) => Ok(
            (
                easy,
                match transferred {
                    Ok(_) => None,
                    Err(error) => Some(error),
                },
            ),
        ),
        Err(error) => Err(multi_io_error(error)),
    }
}

/// Makes the reply to a request whose transfer is over.
///
/// A transfer that cannot be taken back is lost, whatever became of it. One that
/// failed is handed back next to its error.
pub fn completion(
    removed: Result<Easy, curl::MultiError>,
    transferred: Result<(), curl::Error>,
) -> (reply: Reply)
    ensures
        reply == reply_of(removed, transferred),
{
    match removed {
        Ok(easy) => {
            let error: Option<curl::Error> = match transferred {
                Ok(_) => None,
                Err(error) => Some(error),
            };
            Ok((easy, error))
        },
        Err(error) => refusal(error),
    }
}

/// `outcome` is what the one who made a request has to see of the driver's reply,
/// which is `None` as long as there is none.
pub open spec fn is_outcome(
    polled: Option<Reply>,
    outcome: Result<Option<Easy>, PerformError>,
) -> bool {
    match polled {
        None => outcome == Result::<Option<Easy>, PerformError>::Ok(None),
        Some(Ok((easy, None))) => outcome == Result::<Option<Easy>, PerformError>::Ok(Some(easy)),
        Some(Ok((easy, Some(error)))) => {
            &&& outcome matches Err(failure)
            &&& failure.error() == transfer_io_error(error)
            &&& failure.handle() == Some(easy)
        },
        Some(Err(error)) => {
            &&& outcome matches Err(failure)
            &&& failure.error() == error
            &&& failure.handle() is None
        },
    }
}

/// Tells what the one who made a request sees: the handle of a transfer that went
/// well, nothing yet, or an error.
pub fn poll(polled: Option<Reply>) -> (outcome: Result<Option<Easy>, PerformError>)
    ensures
        is_outcome(polled, outcome),
{
    match polled {
        None => Ok(None),
        Some(Ok((handle, None))) => Ok(Some(handle)),
        Some(Ok((handle, Some(error)))) => {
            Err(PerformError { error: io_error_of_transfer(error), handle: Some(handle) })
        },
        Some(Err(error)) => Err(PerformError { error, handle: None }),
    }
}

} // verus!
