use curl::easy::Easy;
use curl::multi::Multi;
use curl::MultiError;
use futures::{Async, Future};
use tokio_curl::perform::{completion, poll, request};
use tokio_curl::{check, Admission, Complete, Event, Message, Perform, Stack, State};

/// A transfer that libcurl can tell at once to be impossible.
fn impossible() -> Easy {
    let mut easy = Easy::new();
    easy.url("nosuchprotocol://nowhere").unwrap();
    easy
}

fn parts(message: Message) -> (Easy, Complete) {
    match message {
        Message::Execute(easy, complete) => (easy, complete),
    }
}

fn take_on(state: &mut State, multi: &Multi, easy: Easy) -> (usize, Perform) {
    let (message, perform) = request(easy);
    let (easy, complete) = parts(message);
    match state.check_message(complete, multi.add(easy)) {
        Admission::Admitted { index, event } => {
            assert_eq!(check(event), Event::Cancel(index));
            (index, perform)
        }
        Admission::Refused { .. } => panic!("refused"),
        Admission::Unmarked(e) => panic!("unmarked: {}", e),
    }
}

#[test]
fn a_reply_reaches_the_one_who_asked() {
    let (message, mut perform) = request(impossible());
    let (easy, complete) = parts(message);
    complete.send(Ok((easy, None))).ok().unwrap();
    match perform.receiver_mut().poll() {
        Ok(Async::Ready(Ok((_, None)))) => {}
        _ => panic!("no reply"),
    }
}

#[test]
fn requests_go_to_slots_of_their_own() {
    let multi = Multi::new();
    let mut state = State::new();
    assert!(state.has_handle_room());
    let (first, _perform) = take_on(&mut state, &multi, Easy::new());
    let (second, _perform) = take_on(&mut state, &multi, Easy::new());
    assert_eq!((first, second), (0, 1));
    assert!(state.has_handle(0));
    assert!(state.has_handle(1));
    assert!(!state.has_handle(2));
    assert!(!state.poll(true));
    assert!(!state.poll(false));
}

#[test]
fn a_failed_transfer_is_found_by_its_token() {
    let multi = Multi::new();
    let mut state = State::new();
    let (first, _kept) = take_on(&mut state, &multi, Easy::new());
    let (second, mut perform) = take_on(&mut state, &multi, impossible());
    assert_eq!((first, second), (0, 1));

    let mut seen = Vec::new();
    for _ in 0..100 {
        multi.perform().unwrap();
        multi.messages(|m| {
            let index = m.token().unwrap();
            if index != 1 {
                return;
            }
            let transferred = m.result().unwrap();
            assert!(state.has_handle(index));
            let entry = state.check_completions(index);
            assert!(m.is_for(&entry.handle));
            seen.push((entry, transferred));
        });
        if !seen.is_empty() {
            break;
        }
    }
    let (entry, transferred) = seen.pop().unwrap();
    assert!(!state.has_handle(1));
    assert!(state.has_handle(0));
    let reply = completion(multi.remove(entry.handle), transferred);
    entry.complete.send(reply).ok().unwrap();

    let reply = match perform.receiver_mut().poll() {
        Ok(Async::Ready(reply)) => reply,
        _ => panic!("no reply"),
    };
    match poll(Some(reply)) {
        Err(mut failure) => {
            // The handle comes back, once, and with it the error of the transfer.
            assert!(failure.take_easy().is_some());
            assert!(failure.take_easy().is_none());
            let error = failure.into_error();
            assert_eq!(error.kind(), std::io::ErrorKind::Other);
            let inner = error.into_inner().unwrap().downcast::<curl::Error>().unwrap();
            assert!(inner.is_unsupported_protocol());
        }
        Ok(_) => panic!("should have failed"),
    }
}

#[test]
fn a_request_that_was_given_up_is_forgotten() {
    let multi = Multi::new();
    let mut state = State::new();
    let (index, perform) = take_on(&mut state, &multi, Easy::new());
    let (other, _kept) = take_on(&mut state, &multi, Easy::new());
    assert!(!state.complete_mut(index).unwrap().is_canceled());
    assert!(state.check_cancel(index, false).is_none());
    assert!(state.has_handle(index));
    drop(perform);
    let canceled = state.complete_mut(index).unwrap().is_canceled();
    assert!(canceled);
    let handle = state.check_cancel(index, canceled).unwrap();
    assert!(multi.remove(handle).is_ok());
    assert!(!state.has_handle(index));
    assert!(state.has_handle(other));
    assert!(state.complete_mut(index).is_none());
    assert!(state.check_cancel(index, true).is_none());
    // The slot serves again.
    let (again, _kept) = take_on(&mut state, &multi, Easy::new());
    assert_eq!(again, index);
}

#[test]
fn a_cancel_of_nothing_is_ignored() {
    let mut state = State::new();
    assert!(state.check_cancel(0, true).is_none());
    assert!(state.check_cancel(usize::MAX, true).is_none());
    assert!(state.complete_mut(3).is_none());
}

#[test]
fn a_refused_request_is_answered() {
    let mut state = State::new();
    let (message, mut perform) = request(Easy::new());
    let (_easy, complete) = parts(message);
    match state.check_message(complete, Err(MultiError::new(4))) {
        Admission::Refused { complete, reply } => {
            assert!(complete.send(reply).is_ok());
        }
        _ => panic!("should have been refused"),
    }
    assert!(!state.has_handle(0));
    let reply = match perform.receiver_mut().poll() {
        Ok(Async::Ready(reply)) => reply,
        _ => panic!("no reply"),
    };
    match poll(Some(reply)) {
        Err(mut failure) => {
            assert!(failure.take_easy().is_none());
            let inner = failure.into_error().into_inner().unwrap();
            let inner = inner.downcast::<MultiError>().unwrap();
            assert_eq!(*inner, MultiError::new(4));
        }
        Ok(_) => panic!("should have failed"),
    }
}

#[test]
fn a_transfer_without_a_token_is_not_stored() {
    let multi = Multi::new();
    let mut state = State::new();
    let (message, _perform) = request(Easy::new());
    let (easy, complete) = parts(message);
    let handle = multi.add(easy).unwrap();
    match state.store(complete, handle, Err(curl::Error::new(48))) {
        Admission::Unmarked(e) => assert_eq!(e.code(), 48),
        _ => panic!("should not have been stored"),
    }
    assert!(!state.has_handle(0));
    assert!(state.poll(true));
}

#[test]
fn the_driver_is_done_when_nothing_is_left() {
    let multi = Multi::new();
    let mut state = State::new();
    assert!(!state.poll(false));
    assert!(state.poll(true));
    let (index, _perform) = take_on(&mut state, &multi, Easy::new());
    assert!(!state.poll(true));
    state.check_completions(index);
    assert!(state.poll(true));
    assert!(!state.poll(false));
}

#[test]
fn many_requests_find_room() {
    let multi = Multi::new();
    let mut state = State::new();
    let mut performs = Vec::new();
    for i in 0..300usize {
        let (index, perform) = take_on(&mut state, &multi, Easy::new());
        assert_eq!(index, i);
        performs.push(perform);
    }
    for i in 0..300usize {
        assert!(state.has_handle(i));
        multi.remove(state.check_completions(i).handle).unwrap();
    }
    assert!(state.poll(true));
}

#[test]
fn notifications_come_off_from_the_top() {
    let mut stack = Stack::new();
    assert_eq!(stack.drain(), Vec::<usize>::new());
    stack.push(1);
    stack.push(2);
    stack.push(3);
    assert_eq!(stack.drain(), vec![3, 2, 1]);
    assert_eq!(stack.drain(), Vec::<usize>::new());
    stack.push(4);
    assert_eq!(stack.drain(), vec![4]);
}

#[test]
fn a_new_request_is_looked_at_in_the_next_drain() {
    let multi = Multi::new();
    let mut state = State::new();
    let mut pending = Stack::new();
    pending.push(41);
    let (message, perform) = request(Easy::new());
    let (easy, complete) = parts(message);
    match state.check_message(complete, multi.add(easy)) {
        Admission::Admitted { index, event } => {
            assert_eq!((index, event), (0, 0));
            pending.push(event);
        }
        _ => panic!("should have been taken on"),
    }
    pending.push(7);
    // Given up before the driver ever looked at it.
    drop(perform);
    let mut canceled = 0;
    for id in pending.drain() {
        if let Event::Cancel(index) = check(id) {
            let gone = match state.complete_mut(index) {
                Some(complete) => complete.is_canceled(),
                None => false,
            };
            if let Some(handle) = state.check_cancel(index, gone) {
                multi.remove(handle).unwrap();
                canceled += 1;
            }
        }
    }
    assert_eq!(canceled, 1);
    assert!(state.no_handles());
}

#[test]
fn every_transfer_has_its_slot_for_its_token() {
    let multi = Multi::new();
    let mut state = State::new();
    let mut performs = Vec::new();
    for _ in 0..4 {
        performs.push(take_on(&mut state, &multi, impossible()));
    }
    // A slot that is used again gives its token to the new transfer.
    let handle = state.check_cancel(2, true).unwrap();
    multi.remove(handle).unwrap();
    performs.push(take_on(&mut state, &multi, impossible()));
    assert_eq!(performs[4].0, 2);

    let mut found = Vec::new();
    for _ in 0..100 {
        multi.perform().unwrap();
        multi.messages(|m| {
            let index = m.token().unwrap();
            let entry = state.check_completions(index);
            assert!(m.is_for(&entry.handle));
            found.push((index, entry));
        });
        if found.len() == 4 {
            break;
        }
    }
    let mut slots: Vec<usize> = found.iter().map(|(index, _)| *index).collect();
    slots.sort();
    assert_eq!(slots, vec![0, 1, 2, 3]);
    assert!(state.poll(true));
    for (_, entry) in found {
        multi.remove(entry.handle).unwrap();
    }
}

#[test]
fn requests_resolve_to_the_handles_they_were_made_with() {
    let multi = Multi::new();
    let mut state = State::new();
    let urls = ["nosuchprotocol://first", "nosuchprotocol://second", "nosuchprotocol://third"];
    let mut performs = Vec::new();
    for url in urls {
        let mut easy = Easy::new();
        easy.url(url).unwrap();
        performs.push(take_on(&mut state, &multi, easy).1);
    }
    let mut found = Vec::new();
    for _ in 0..100 {
        multi.perform().unwrap();
        multi.messages(|m| {
            let transferred = m.result().unwrap();
            found.push((state.check_completions(m.token().unwrap()), transferred));
        });
        if found.len() == 3 {
            break;
        }
    }
    assert_eq!(found.len(), 3);
    for (entry, transferred) in found {
        let reply = completion(multi.remove(entry.handle), transferred);
        entry.complete.send(reply).ok().unwrap();
    }
    for (i, perform) in performs.iter_mut().enumerate() {
        let reply = match perform.receiver_mut().poll() {
            Ok(Async::Ready(reply)) => reply,
            _ => panic!("no reply"),
        };
        match poll(Some(reply)) {
            Err(mut failure) => {
                let easy = failure.take_easy().unwrap();
                let url = easy.effective_url().unwrap().unwrap();
                assert!(url.starts_with(urls[i]), "{}", url);
            }
            Ok(_) => panic!("should have failed"),
        }
    }
}
