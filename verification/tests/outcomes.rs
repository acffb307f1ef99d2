use std::io;

use curl::easy::Easy;
use curl::MultiError;
use tokio_curl::perform::{completion, poll, refusal};
use tokio_curl::{PerformError, Reply};

fn failure(reply: Reply) -> PerformError {
    match poll(Some(reply)) {
        Err(failure) => failure,
        Ok(_) => panic!("should have failed"),
    }
}

#[test]
fn nothing_is_seen_before_the_reply() {
    assert!(matches!(poll(None), Ok(None)));
}

#[test]
fn a_good_transfer_gives_its_handle() {
    let reply = completion(Ok(Easy::new()), Ok(()));
    assert!(matches!(reply, Ok((_, None))));
    assert!(matches!(poll(Some(reply)), Ok(Some(_))));
}

#[test]
fn a_bad_transfer_gives_its_handle_with_the_error() {
    let reply = completion(Ok(Easy::new()), Err(curl::Error::new(28)));
    assert!(matches!(&reply, Ok((_, Some(e))) if e.is_operation_timedout()));
    let mut failure = failure(reply);
    assert!(failure.take_easy().is_some());
    assert!(failure.take_easy().is_none());
    let inner = failure.into_error().into_inner().unwrap().downcast::<curl::Error>().unwrap();
    assert_eq!(inner.code(), 28);
}

#[test]
fn a_lost_handle_is_an_error_whatever_became_of_the_transfer() {
    for transferred in vec![Ok(()), Err(curl::Error::new(28))] {
        let reply = completion(Err(MultiError::new(2)), transferred);
        assert!(reply.is_err());
        let mut failure = failure(reply);
        assert!(failure.take_easy().is_none());
        let inner = failure.into_error().into_inner().unwrap().downcast::<MultiError>().unwrap();
        assert!(inner.is_bad_easy_handle());
    }
}

#[test]
fn a_refusal_is_an_error() {
    let error = match refusal(MultiError::new(3)) {
        Err(error) => error,
        Ok(_) => panic!("should have been refused"),
    };
    assert_eq!(error.kind(), io::ErrorKind::Other);
    let inner = error.into_inner().unwrap().downcast::<MultiError>().unwrap();
    assert!(inner.is_out_of_memory());
}

#[test]
fn an_error_tells_what_it_is() {
    let failed = failure(Err(io::Error::new(io::ErrorKind::TimedOut, "late")));
    assert_eq!(failed.description(), "failed to execute request");
    assert_eq!(failed.cause().unwrap().kind(), io::ErrorKind::TimedOut);
    let error: io::Error = failed.into();
    assert_eq!(error.kind(), io::ErrorKind::TimedOut);
    assert_eq!(error.to_string(), "late");
}
