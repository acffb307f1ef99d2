use std::collections::BTreeSet;
use std::io;
use std::sync::{Arc, Mutex};

use curl::easy::Easy;
use curl::multi::Multi;
use tokio_curl::socket::{already_registered, should_reregister};
use tokio_curl::{
    check, Event, HandleEntry, Interest, Need, Needs, Readiness, SocketAction, SocketChange,
    SocketEntry, State,
};

const READ: Interest = Interest { input: true, output: false, remove: false };
const WRITE: Interest = Interest { input: false, output: true, remove: false };
const BOTH: Interest = Interest { input: true, output: true, remove: false };
const NEITHER: Interest = Interest { input: false, output: false, remove: false };
const REMOVE: Interest = Interest { input: false, output: false, remove: true };

fn entry(want: Option<Interest>) -> SocketEntry {
    SocketEntry { want, changed: false, socket: 5 }
}

#[test]
fn a_new_socket_is_given_a_token() {
    let mut state = State::new();
    assert_eq!(
        state.schedule_socket(7, READ, 0),
        SocketChange::Watched {
            index: 0,
            assign: Some(1),
            event: 1,
            entry: SocketEntry { want: Some(READ), changed: true, socket: 7 },
        }
    );
    assert_eq!(
        state.schedule_socket(8, WRITE, 0),
        SocketChange::Watched {
            index: 1,
            assign: Some(2),
            event: 3,
            entry: SocketEntry { want: Some(WRITE), changed: true, socket: 8 },
        }
    );
    assert!(state.has_socket(0));
    assert!(state.has_socket(1));
    assert!(!state.has_socket(2));
}

#[test]
fn a_token_finds_its_socket_again() {
    let mut state = State::new();
    state.schedule_socket(7, READ, 0);
    state.schedule_socket(8, READ, 0);
    // The descriptor is the one the socket came with.
    assert_eq!(
        state.schedule_socket(7, BOTH, 1),
        SocketChange::Watched {
            index: 0,
            assign: None,
            event: 1,
            entry: SocketEntry { want: Some(BOTH), changed: true, socket: 7 },
        }
    );
    assert_eq!(
        state.check_socket(1, Readiness { input: true, output: false }),
        Some(SocketAction { socket: 8, events: Readiness { input: true, output: false } })
    );
    assert_eq!(
        state.socket_unchanged(1),
        Some(SocketEntry { want: Some(READ), changed: false, socket: 8 })
    );
}

#[test]
fn a_dropped_socket_leaves_nothing_behind() {
    let mut state = State::new();
    assert!(state.no_sockets());
    state.schedule_socket(7, READ, 0);
    state.schedule_socket(8, READ, 0);
    assert!(!state.no_sockets());
    assert_eq!(state.schedule_socket(7, REMOVE, 1), SocketChange::Removed { index: 0 });
    assert!(!state.has_socket(0));
    assert!(state.has_socket(1));
    // The slot is used again.
    assert_eq!(
        state.schedule_socket(9, NEITHER, 0),
        SocketChange::Watched {
            index: 0,
            assign: Some(1),
            event: 1,
            entry: SocketEntry { want: Some(NEITHER), changed: true, socket: 9 },
        }
    );
    state.schedule_socket(9, REMOVE, 1);
    state.schedule_socket(8, REMOVE, 2);
    assert!(state.no_sockets());
}

#[test]
fn a_gone_socket_is_ignored() {
    let mut state = State::new();
    assert_eq!(state.check_socket(0, Readiness { input: true, output: true }), None);
    assert_eq!(state.check_socket(usize::MAX, Readiness { input: true, output: true }), None);
    assert_eq!(state.socket_unchanged(0), None);
    assert!(state.no_sockets());
}

#[test]
fn a_socket_that_is_not_ready_is_left_alone() {
    let mut state = State::new();
    state.schedule_socket(7, READ, 0);
    assert_eq!(state.check_socket(0, Readiness { input: false, output: false }), None);
    // Still marked as changed by the request above.
    assert_eq!(state.socket_unchanged(0), None);
}

#[test]
fn what_is_ready_is_what_is_reported() {
    let mut state = State::new();
    state.schedule_socket(7, READ, 0);
    for (input, output) in [(true, false), (false, true), (true, true)] {
        assert_eq!(
            state.check_socket(0, Readiness { input, output }),
            Some(SocketAction { socket: 7, events: Readiness { input, output } })
        );
    }
}

#[test]
fn needs_are_seen_to_unless_asked_again() {
    let mut state = State::new();
    state.schedule_socket(7, READ, 0);
    state.check_socket(0, Readiness { input: true, output: false });
    assert_eq!(state.socket_unchanged(0), Some(entry_of(7, READ)));
    // Asking for something on another socket makes no difference.
    state.schedule_socket(8, READ, 0);
    assert_eq!(state.socket_unchanged(0), Some(entry_of(7, READ)));
    state.schedule_socket(7, WRITE, 1);
    assert_eq!(state.socket_unchanged(0), None);
    // Dropped while libcurl is told, and the slot taken by a new socket.
    state.check_socket(0, Readiness { input: false, output: true });
    state.schedule_socket(7, REMOVE, 1);
    assert_eq!(state.socket_unchanged(0), None);
    state.schedule_socket(9, READ, 0);
    assert!(state.has_socket(0));
    assert_eq!(state.socket_unchanged(0), None);
}

fn entry_of(socket: i32, want: Interest) -> SocketEntry {
    SocketEntry { want: Some(want), changed: false, socket }
}

#[test]
fn many_sockets_find_room() {
    let mut state = State::new();
    for i in 0..1000usize {
        assert!(state.has_socket_room());
        match state.schedule_socket(i as i32, READ, 0) {
            SocketChange::Watched { index, assign, event, .. } => {
                assert_eq!(index, i);
                assert_eq!(assign, Some(i + 1));
                assert_eq!(check(event), Event::Socket(i));
            }
            SocketChange::Removed { .. } => panic!("not asked for"),
        }
    }
    for i in 0..1000usize {
        assert_eq!(
            state.check_socket(i, Readiness { input: true, output: false }).map(|a| a.socket),
            Some(i as i32)
        );
    }
}

#[test]
fn events_are_told_apart() {
    assert_eq!(check(0), Event::Cancel(0));
    assert_eq!(check(1), Event::Socket(0));
    assert_eq!(check(6), Event::Cancel(3));
    assert_eq!(check(7), Event::Socket(3));
    assert_eq!(check(usize::MAX), Event::Socket(usize::MAX / 2));
}

#[test]
fn poll_is_asked_for_what_is_wanted() {
    assert_eq!(entry(None).poll_events(), None);
    assert_eq!(entry(Some(NEITHER)).poll_events(), Some(0));
    assert_eq!(entry(Some(READ)).poll_events(), Some(libc::POLLIN));
    assert_eq!(entry(Some(WRITE)).poll_events(), Some(libc::POLLOUT));
    assert_eq!(entry(Some(BOTH)).poll_events(), Some(libc::POLLIN | libc::POLLOUT));
    assert_eq!(entry(Some(BOTH)).poll_events(), Some(5));
}

#[test]
fn a_ready_socket_is_not_left_to_the_event_loop() {
    let both = libc::POLLIN | libc::POLLOUT;
    let needs = |want: Interest, revents: i16| entry(Some(want)).update_needs(revents);
    let needed = |read: Need, write: Need| Needs { read, write };
    assert_eq!(needs(READ, 0), needed(Need::Wait, Need::Nothing));
    assert_eq!(needs(READ, libc::POLLIN), needed(Need::Notify, Need::Nothing));
    assert_eq!(needs(READ, libc::POLLOUT), needed(Need::Wait, Need::Nothing));
    assert_eq!(needs(WRITE, 0), needed(Need::Nothing, Need::Wait));
    assert_eq!(needs(WRITE, both), needed(Need::Nothing, Need::Notify));
    assert_eq!(needs(BOTH, 0), needed(Need::Wait, Need::Wait));
    assert_eq!(needs(BOTH, libc::POLLIN), needed(Need::Notify, Need::Wait));
    assert_eq!(needs(BOTH, libc::POLLOUT), needed(Need::Wait, Need::Notify));
    assert_eq!(needs(BOTH, both), needed(Need::Notify, Need::Notify));
    // A socket in error is neither.
    assert_eq!(needs(BOTH, libc::POLLERR), needed(Need::Wait, Need::Wait));
    assert_eq!(needs(NEITHER, both), needed(Need::Nothing, Need::Nothing));
    assert_eq!(entry(None).update_needs(both), needed(Need::Nothing, Need::Nothing));
}

#[test]
fn a_registered_socket_is_registered_anew() {
    assert!(already_registered(Some(libc::EEXIST)));
    assert!(already_registered(Some(17)));
    assert!(!already_registered(Some(libc::EBADF)));
    assert!(!already_registered(None));
    let of = |errno: i32| io::Error::from_raw_os_error(errno);
    assert!(should_reregister(&of(libc::EEXIST)));
    assert!(!should_reregister(&of(libc::EBADF)));
    assert!(!should_reregister(&io::Error::new(io::ErrorKind::AlreadyExists, "there")));
}

#[test]
fn sockets_and_timeouts_are_apart() {
    let mut state = State::new();
    state.request_timeout(Some(0));
    state.schedule_socket(7, READ, 0);
    state.check_socket(0, Readiness { input: true, output: false });
    assert!(state.check_timeout(false));
    assert!(state.has_socket(0));
    assert!(state.no_handles());
    // What libcurl wants is known of every socket.
    assert_eq!(state.socket_unchanged(0).unwrap().want, Some(READ));
}

#[test]
fn a_slot_is_small() {
    let header = std::mem::size_of::<usize>();
    assert!(std::mem::size_of::<SocketEntry>() + header <= 64);
    assert!(std::mem::size_of::<HandleEntry>() + header <= 64);
}

#[test]
fn events_are_reported_as_they_are() {
    for (input, output) in [(false, false), (true, false), (false, true), (true, true)] {
        let events = Readiness { input, output }.to_curl();
        assert_eq!(
            format!("{:?}", events),
            format!("Events {{ input: {}, output: {}, error: false }}", input, output)
        );
    }
}

#[test]
fn what_libcurl_asks_is_read() {
    let seen = Arc::new(Mutex::new(Vec::new()));
    let log = seen.clone();
    let mut multi = Multi::new();
    multi.timer_function(|_| true).unwrap();
    multi
        .socket_function(move |_, events, _| {
            let read = Interest::of(&events);
            assert_eq!(read.input, events.input());
            assert_eq!(read.output, events.output());
            assert_eq!(read.remove, events.remove());
            log.lock().unwrap().push(read);
        })
        .unwrap();
    // libcurl watches a socket of its own while it looks a name up, unless it is
    // done with that at once.
    for _ in 0..100 {
        let mut easy = Easy::new();
        easy.url("http://name.invalid/").unwrap();
        let handle = multi.add(easy).unwrap();
        multi.timeout().unwrap();
        multi.remove(handle).unwrap();
        if !seen.lock().unwrap().is_empty() {
            break;
        }
    }
    let seen = seen.lock().unwrap();
    assert_eq!(seen[0], READ);
    assert_eq!(seen[seen.len() - 1], REMOVE);
}

#[test]
fn registrations_keep_step_with_the_sockets() {
    let mut state = State::new();
    let mut registered = BTreeSet::new();
    let asked = [
        (7, READ, 0),
        (8, READ, 0),
        (7, BOTH, 1),
        (9, WRITE, 0),
        (8, REMOVE, 2),
        (7, REMOVE, 1),
        (10, READ, 0),
    ];
    for (socket, events, token) in asked {
        match state.schedule_socket(socket, events, token) {
            SocketChange::Removed { index } => assert!(registered.remove(&index)),
            SocketChange::Watched { index, assign, .. } => {
                assert_eq!(assign.is_some(), registered.insert(index));
            }
        }
        for index in 0..5 {
            assert_eq!(state.has_socket(index), registered.contains(&index));
        }
    }
    assert_eq!(registered.len(), 2);
}
