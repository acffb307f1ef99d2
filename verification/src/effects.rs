//! What each thing that happens comes to, told by what is there before and after.
//!
//! The statements here name the slots, the fields and the bits themselves.

use crate::events::{cancel_id, event_of, socket_id, Event, Interest, Readiness};
use crate::laws::{possible, run, Step};
use crate::model::{HandleEntry, Model, TimeoutState};
use crate::outside::{multi_io_error, receiver_of, transfer_io_error};
use crate::perform::{is_outcome, is_request, reply_of, Complete, Message, Perform, PerformError, Reply};
use crate::slots::max_slots;
use crate::socket::{is_eexist, needs_of, poll_mask, SocketEntry};
use crate::state::{reported_action, scheduled_change, SocketChange};
use curl::easy::Easy;
use tokio_core::reactor::Timeout;
use vstd::prelude::*;

verus! {

/// What a socket needs follows what libcurl last asked for on it, and what `poll`
/// says: a direction that was asked for is waited for if its bit is clear, and has
/// the driver woken at once if it is set. Nothing is done about a direction that was
/// not asked for.
pub proof fn law_needs_follow_what_was_asked(entry: SocketEntry, revents: i16)
    ensures
        entry.want matches Some(events) ==> {
            let needs = needs_of(entry, revents);
            &&& needs.read is Wait <==> events.input && revents & 1i16 == 0
            &&& needs.read is Notify <==> events.input && revents & 1i16 != 0
            &&& needs.read is Nothing <==> !events.input
            &&& needs.write is Wait <==> events.output && revents & 4i16 == 0
            &&& needs.write is Notify <==> events.output && revents & 4i16 != 0
            &&& needs.write is Nothing <==> !events.output
        },
        entry.want is None ==> needs_of(entry, revents).read is Nothing && needs_of(
            entry,
            revents,
        ).write is Nothing,
{
}

/// What a socket needs depends on nothing else: neither on its descriptor nor on
/// whether libcurl has asked again.
pub proof fn law_needs_depend_on_nothing_else(
    one: SocketEntry,
    other: SocketEntry,
    revents: i16,
    other_revents: i16,
)
    requires
        one.want == other.want,
        revents & 1i16 == other_revents & 1i16,
        revents & 4i16 == other_revents & 4i16,
    ensures
        needs_of(one, revents) == needs_of(other, other_revents),
{
}

/// `poll` is asked for the bit of each direction that is waited for, and for no
/// other bit.
pub proof fn law_poll_is_asked_for_the_bits(input: bool, output: bool)
    ensures
        poll_mask(input, output) & 1i16 != 0 <==> input,
        poll_mask(input, output) & 4i16 != 0 <==> output,
        poll_mask(input, output) & !5i16 == 0,
{
    let mask = poll_mask(input, output);
    assert(mask == 0 || mask == 1 || mask == 4 || mask == 5);
    assert(0i16 & 1i16 == 0 && 1i16 & 1i16 == 1 && 4i16 & 1i16 == 0 && 5i16 & 1i16 == 1)
        by (bit_vector);
    assert(0i16 & 4i16 == 0 && 1i16 & 4i16 == 0 && 4i16 & 4i16 == 4 && 5i16 & 4i16 == 4)
        by (bit_vector);
    assert(0i16 & !5i16 == 0 && 1i16 & !5i16 == 0 && 4i16 & !5i16 == 0 && 5i16 & !5i16 == 0)
        by (bit_vector);
}

/// A socket that cannot be registered is registered anew for one reason only.
pub proof fn law_one_reason_to_reregister(errno: i32)
    ensures
        is_eexist(Some(errno)) <==> errno == 17,
        !is_eexist(None),
{
}

/// The even numbers stand for requests, the odd ones for sockets, and half of each,
/// rounded down, is the slot.
pub proof fn law_numbers_of_events(id: usize, index: usize)
    ensures
        event_of(id) is Cancel <==> id % 2 == 0,
        event_of(id) is Socket <==> id % 2 == 1,
        event_of(id) matches Event::Cancel(slot) ==> slot == id / 2,
        event_of(id) matches Event::Socket(slot) ==> slot == id / 2,
        cancel_id(index) == index + index,
        socket_id(index) == index + index + 1,
{
}

/// What libcurl may say of a socket: of a new one, that it wants something; of one
/// with a token, anything, if the slot before the token is in use.
pub proof fn law_what_libcurl_may_say(model: Model, events: Interest, token: usize)
    ensures
        token == 0 ==> (model.knows_token(events, token) <==> !events.remove),
        forall|index: usize|
            index + 1 == token ==> (model.knows_token(events, token)
                <==> #[trigger] model.sockets.contains_key(index)),
{
    if token != 0 {
        assert forall|index: usize| index + 1 == token implies (model.knows_token(events, token)
            <==> #[trigger] model.sockets.contains_key(index)) by {
            assert(index == (token - 1) as usize);
        }
    }
}

/// When libcurl asks for something on a socket, the socket is watched for exactly
/// that, be it new or known; what is returned is the socket as it is tracked from
/// then on. A new socket goes to the free slot with the descriptor that it came with
/// and gets a token, one more than the slot; a known one stays in the slot before
/// its token, with its descriptor, and gets none. The number that goes with either
/// leads back to the slot, wherever there is a number for it.
pub proof fn law_socket_is_watched_as_asked(
    model: Model,
    socket: i32,
    events: Interest,
    token: usize,
    vacancy: usize,
)
    requires
        (Step::SocketScheduled { socket, events, token, vacancy }).possible(model),
        !events.remove,
    ensures
        ({
            let after = model.socket_scheduled(socket, events, token, vacancy);
            &&& scheduled_change(model, socket, events, token, vacancy)
                matches SocketChange::Watched { index, assign, event, entry }
            &&& after.sockets.contains_key(index)
            &&& after.sockets[index] == entry
            &&& entry.want == Some(events)
            &&& entry.changed
            &&& index + index + 1 <= usize::MAX ==> {
                &&& event == index + index + 1
                &&& event_of(event) == Event::Socket(index)
            }
            &&& token == 0 ==> {
                &&& index == vacancy
                &&& !model.sockets.contains_key(index)
                &&& entry.socket == socket
                &&& assign matches Some(given)
                &&& given == index + 1
            }
            &&& token != 0 ==> {
                &&& index + 1 == token
                &&& model.sockets.contains_key(index)
                &&& entry.socket == model.sockets[index].socket
                &&& assign is None
            }
        }),
{
}

/// When libcurl drops a socket, what was in the slot before its token is gone.
pub proof fn law_dropped_socket_is_gone(
    model: Model,
    socket: i32,
    events: Interest,
    token: usize,
    vacancy: usize,
)
    requires
        (Step::SocketScheduled { socket, events, token, vacancy }).possible(model),
        events.remove,
    ensures
        ({
            let after = model.socket_scheduled(socket, events, token, vacancy);
            &&& scheduled_change(model, socket, events, token, vacancy)
                matches SocketChange::Removed { index }
            &&& index + 1 == token
            &&& model.sockets.contains_key(index)
            &&& !after.sockets.contains_key(index)
        }),
{
}

/// Whatever libcurl says of one socket, all others stay as they are, and so do the
/// requests and the timeout.
pub proof fn law_other_sockets_stay(
    model: Model,
    socket: i32,
    events: Interest,
    token: usize,
    vacancy: usize,
    other: usize,
)
    requires
        (Step::SocketScheduled { socket, events, token, vacancy }).possible(model),
        token == 0 ==> other != vacancy,
        other + 1 != token,
    ensures
        ({
            let after = model.socket_scheduled(socket, events, token, vacancy);
            &&& after.sockets.contains_key(other) <==> model.sockets.contains_key(other)
            &&& after.sockets[other] == model.sockets[other]
            &&& after.handles == model.handles
            &&& after.timeout == model.timeout
        }),
{
    if token != 0 {
        assert(other != (token - 1) as usize);
    }
}

/// In every state that the driver can get to, there is a notification number for
/// every tracked socket.
pub proof fn law_sockets_can_be_numbered(steps: Seq<Step>, index: usize)
    requires
        possible(Model::initial(), steps),
        run(Model::initial(), steps).sockets.contains_key(index),
    ensures
        index + index + 1 <= usize::MAX,
    decreases steps.len(),
{
    if steps.len() > 0 {
        let earlier = steps.drop_last();
        if run(Model::initial(), earlier).sockets.contains_key(index) {
            law_sockets_can_be_numbered(earlier, index);
        }
    }
}

/// The number that goes with a watched socket leads back to that socket, be it new
/// or known, and the socket is there: in every state that the driver can get to, a
/// wakeup for a socket is a wakeup for that socket.
pub proof fn law_wakeup_leads_to_its_socket(
    steps: Seq<Step>,
    socket: i32,
    events: Interest,
    token: usize,
    vacancy: usize,
)
    requires
        possible(Model::initial(), steps),
        (Step::SocketScheduled { socket, events, token, vacancy }).possible(
            run(Model::initial(), steps),
        ),
        !events.remove,
    ensures
        ({
            let model = run(Model::initial(), steps);
            let after = model.socket_scheduled(socket, events, token, vacancy);
            &&& scheduled_change(model, socket, events, token, vacancy)
                matches SocketChange::Watched { index, assign, event, entry }
            &&& event_of(event) == Event::Socket(index)
            &&& event == index + index + 1
            &&& after.sockets.contains_key(index)
        }),
{
    let model = run(Model::initial(), steps);
    if token != 0 {
        law_sockets_can_be_numbered(steps, (token - 1) as usize);
    }
}

/// What libcurl asked for last on a socket is what the socket is watched for,
/// whatever happens, until libcurl asks for something else on it or drops it.
pub proof fn law_last_request_on_a_socket_counts(
    model: Model,
    socket: i32,
    events: Interest,
    token: usize,
    vacancy: usize,
    index: usize,
    steps: Seq<Step>,
)
    requires
        (Step::SocketScheduled { socket, events, token, vacancy }).possible(model),
        !events.remove,
        if token == 0 {
            index == vacancy
        } else {
            index + 1 == token
        },
        possible(model.socket_scheduled(socket, events, token, vacancy), steps),
        forall|i: int|
            0 <= i < steps.len() ==> !((#[trigger] steps[i]) is SocketScheduled
                && steps[i]->SocketScheduled_token == index + 1),
    ensures
        run(
            model.socket_scheduled(socket, events, token, vacancy),
            steps,
        ).sockets.contains_key(index),
        run(
            model.socket_scheduled(socket, events, token, vacancy),
            steps,
        ).sockets[index].want == Some(events),
    decreases steps.len(),
{
    if steps.len() > 0 {
        let earlier = steps.drop_last();
        let last = steps[steps.len() - 1];
        assert forall|i: int| 0 <= i < earlier.len() implies !((#[trigger] earlier[i]) is
            SocketScheduled && earlier[i]->SocketScheduled_token == index + 1) by {
            assert(earlier[i] == steps[i]);
        }
        law_last_request_on_a_socket_counts(
            model,
            socket,
            events,
            token,
            vacancy,
            index,
            earlier,
        );
        assert(!(last is SocketScheduled && last->SocketScheduled_token == index + 1));
    }
}

/// libcurl is told of whatever the event loop finds on a tracked socket, whether or
/// not it asked for that, and of nothing else: the descriptor is the socket's own,
/// and the events are those that were found.
pub proof fn law_ready_socket_is_reported(model: Model, index: usize, events: Readiness)
    ensures
        model.sockets.contains_key(index) && (events.input || events.output) ==> {
            &&& reported_action(model, index, events) matches Some(action)
            &&& action.socket == model.sockets[index].socket
            &&& action.events.input == events.input
            &&& action.events.output == events.output
        },
        reported_action(model, index, events) is Some ==> model.sockets.contains_key(index) && (
        events.input || events.output),
        model.socket_ready(index, events) <==> reported_action(model, index, events) is Some,
{
}

/// Telling libcurl of a socket takes nothing from it but the note that libcurl has
/// asked again; where libcurl is told nothing, nothing is changed.
pub proof fn law_report_keeps_the_socket(
    model: Model,
    index: usize,
    events: Readiness,
    other: usize,
)
    ensures
        ({
            let after = model.socket_checked(index, events);
            &&& after.handles == model.handles
            &&& after.timeout == model.timeout
            &&& after.sockets.contains_key(other) <==> model.sockets.contains_key(other)
            &&& after.sockets.contains_key(other) ==> {
                &&& after.sockets[other].want == model.sockets[other].want
                &&& after.sockets[other].socket == model.sockets[other].socket
                &&& after.sockets[other].changed <==> model.sockets[other].changed && !(other
                    == index && (events.input || events.output))
            }
        }),
{
}

/// A socket has to be seen to again if and only if it is tracked and libcurl has not
/// asked for anything on it since it was told.
pub proof fn law_when_to_see_to_a_socket_again(model: Model, index: usize)
    ensures
        model.sockets.contains_key(index) ==> (model.socket_unchanged(index)
            <==> !model.sockets[index].changed),
        !model.sockets.contains_key(index) ==> !model.socket_unchanged(index),
{
}

/// A request for a timeout of no length makes it due at once; any other leaves none,
/// until a timer is there. Requests and sockets stay.
pub proof fn law_what_a_timeout_request_does(model: Model, nanos: Option<u128>)
    ensures
        ({
            let after = model.timeout_requested(nanos);
            &&& after.timeout is Ready <==> nanos is Some && nanos->Some_0 == 0
            &&& after.timeout is Idle <==> nanos is None || nanos->Some_0 != 0
            &&& after.handles == model.handles
            &&& after.sockets == model.sockets
        }),
{
}

/// The timer that is armed is the one that is waited for, unless it is over already.
/// Requests and sockets stay.
pub proof fn law_what_arming_does(model: Model, timer: Timeout)
    ensures
        model.timer_armed(timer, false).timeout == TimeoutState::Waiting(timer),
        model.timer_armed(timer, true).timeout is Ready,
        forall|elapsed: bool| (#[trigger] model.timer_armed(timer, elapsed)).handles
            == model.handles,
        forall|elapsed: bool| (#[trigger] model.timer_armed(timer, elapsed)).sockets
            == model.sockets,
{
}

/// Whether a timeout is due rests on the timeout alone: none is never due, one that
/// is over is, and one that waits is when its timer is over.
pub proof fn law_when_a_timeout_is_due(model: Model, elapsed: bool)
    ensures
        model.timeout is Idle ==> !model.timeout_due(elapsed),
        model.timeout is Ready ==> model.timeout_due(elapsed),
        model.timeout is Waiting ==> (model.timeout_due(elapsed) <==> elapsed),
{
}

/// A check takes away a timeout that is due, and leaves alone one that is not.
/// Requests and sockets stay.
pub proof fn law_check_leaves_a_timeout_that_is_not_due(model: Model, elapsed: bool)
    ensures
        !model.timeout_due(elapsed) ==> model.timeout_checked(elapsed).timeout == model.timeout,
        model.timeout_due(elapsed) ==> model.timeout_checked(elapsed).timeout is Idle,
        model.timeout_checked(elapsed).handles == model.handles,
        model.timeout_checked(elapsed).sockets == model.sockets,
{
}

/// A timer that is waited for is waited for, whatever happens, however often it is
/// checked before it is over, until libcurl asks for another timeout; and when it is
/// over, libcurl is told.
pub proof fn law_waiting_timer_stays(model: Model, steps: Seq<Step>)
    requires
        model.timeout is Waiting,
        possible(model, steps),
        forall|i: int|
            0 <= i < steps.len() ==> !((#[trigger] steps[i]) is TimeoutRequested) && !(
            steps[i] is TimerArmed) && !(steps[i] is TimeoutChecked
                && steps[i]->TimeoutChecked_elapsed),
    ensures
        run(model, steps).timeout is Waiting,
        run(model, steps).timeout_due(true),
        !run(model, steps).timeout_due(false),
        (forall|i: int| 0 <= i < steps.len() ==> !(#[trigger] steps[i] is TimerPolled)) ==> run(
            model,
            steps,
        ).timeout == model.timeout,
    decreases steps.len(),
{
    if steps.len() > 0 {
        let earlier = steps.drop_last();
        let last = steps[steps.len() - 1];
        assert forall|i: int| 0 <= i < earlier.len() implies !((#[trigger] earlier[i]) is
            TimeoutRequested) && !(earlier[i] is TimerArmed) && !(earlier[i] is TimeoutChecked
            && earlier[i]->TimeoutChecked_elapsed) by {
            assert(earlier[i] == steps[i]);
        }
        law_waiting_timer_stays(model, earlier);
        assert(!(last is TimeoutRequested) && !(last is TimerArmed) && !(last is TimeoutChecked
            && last->TimeoutChecked_elapsed));
        if forall|i: int| 0 <= i < steps.len() ==> !(#[trigger] steps[i] is TimerPolled) {
            assert forall|i: int| 0 <= i < earlier.len() implies !(#[trigger] earlier[i] is
                TimerPolled) by {
                assert(earlier[i] == steps[i]);
            }
            assert(!(last is TimerPolled));
        }
    }
}

/// A timeout that is over stays due, whatever happens, until libcurl is told or asks
/// for another one.
pub proof fn law_due_timeout_stays(model: Model, steps: Seq<Step>, elapsed: bool)
    requires
        model.timeout is Ready,
        possible(model, steps),
        forall|i: int|
            0 <= i < steps.len() ==> !((#[trigger] steps[i]) is TimeoutRequested) && !(
            steps[i] is TimerArmed) && !(steps[i] is TimerPolled) && !(
            steps[i] is TimeoutChecked),
    ensures
        run(model, steps).timeout_due(elapsed),
{
    law_timeout_stays(model, steps);
}

/// Nothing but what is about the timeout changes it.
pub proof fn law_timeout_stays(model: Model, steps: Seq<Step>)
    requires
        possible(model, steps),
        forall|i: int|
            0 <= i < steps.len() ==> !((#[trigger] steps[i]) is TimeoutRequested) && !(
            steps[i] is TimerArmed) && !(steps[i] is TimerPolled) && !(
            steps[i] is TimeoutChecked),
    ensures
        run(model, steps).timeout == model.timeout,
    decreases steps.len(),
{
    if steps.len() > 0 {
        let earlier = steps.drop_last();
        let last = steps[steps.len() - 1];
        assert forall|i: int| 0 <= i < earlier.len() implies !((#[trigger] earlier[i]) is
            TimeoutRequested) && !(earlier[i] is TimerArmed) && !(earlier[i] is TimerPolled) && !(
        earlier[i] is TimeoutChecked) by {
            assert(earlier[i] == steps[i]);
        }
        law_timeout_stays(model, earlier);
        assert(!(last is TimeoutRequested) && !(last is TimerArmed) && !(last is TimerPolled) && !(
        last is TimeoutChecked));
    }
}

/// A request is given up if and only if it is active and nobody waits for it, and
/// then it alone is forgotten; else nothing changes.
pub proof fn law_what_a_cancel_does(model: Model, index: usize, canceled: bool, other: usize)
    ensures
        model.given_up(index, canceled) <==> canceled && model.handles.contains_key(index),
        ({
            let after = model.cancel_checked(index, canceled);
            &&& after.handles.contains_key(other) <==> model.handles.contains_key(other) && !(
            canceled && other == index)
            &&& after.handles.contains_key(other) ==> after.handles[other] == model.handles[other]
            &&& after.sockets == model.sockets
            &&& after.timeout == model.timeout
        }),
{
}

/// A request that is over is forgotten, and nothing else is.
pub proof fn law_what_a_completion_does(model: Model, index: usize, other: usize)
    ensures
        ({
            let after = model.request_dropped(index);
            &&& after.handles.contains_key(other) <==> model.handles.contains_key(other) && other
                != index
            &&& after.handles.contains_key(other) ==> after.handles[other] == model.handles[other]
            &&& after.sockets == model.sockets
            &&& after.timeout == model.timeout
        }),
{
}

/// A request that is taken on is there as it was stored, and nothing else changes.
pub proof fn law_what_an_admission_does(
    model: Model,
    index: usize,
    entry: HandleEntry,
    other: usize,
)
    ensures
        ({
            let after = model.request_admitted(index, entry);
            &&& after.handles.contains_key(index)
            &&& after.handles[index].complete == entry.complete
            &&& after.handles[index].handle == entry.handle
            &&& other != index ==> (after.handles.contains_key(other)
                <==> model.handles.contains_key(other))
            &&& other != index ==> after.handles[other] == model.handles[other]
            &&& after.sockets == model.sockets
            &&& after.timeout == model.timeout
        }),
{
}

/// The driver begins with nothing.
pub proof fn law_what_there_is_at_first(index: usize)
    ensures
        !Model::initial().handles.contains_key(index),
        !Model::initial().sockets.contains_key(index),
        Model::initial().timeout is Idle,
{
}

/// The driver is done if and only if no more requests will arrive and no slot holds
/// one.
pub proof fn law_when_the_driver_is_done(model: Model, rx_done: bool)
    ensures
        model.finished(rx_done) <==> rx_done && forall|index: usize|
            !#[trigger] model.handles.contains_key(index),
{
    if forall|index: usize| !#[trigger] model.handles.contains_key(index) {
        assert(model.handles =~= Map::<usize, HandleEntry>::empty());
    }
}

/// There is room for one more request or socket up to the 256th part of what can be
/// addressed, and no further.
pub proof fn law_how_much_room_there_is()
    ensures
        256 * max_slots() <= usize::MAX < 256 * (max_slots() + 1),
{
}

/// What is sent to the driver is the handle that was given, and a sender whose reply
/// comes out at the request.
pub proof fn law_what_a_request_is(handle: Easy, easy: Easy, complete: Complete, perform: Perform)
    ensures
        is_request(handle, Message::Execute(easy, complete), perform) <==> easy == handle
            && perform.receiver() == receiver_of(complete),
{
}

/// What became of a transfer is what is replied.
pub proof fn law_what_is_replied(easy: Easy, failed: curl::Error, lost: curl::MultiError)
    ensures
        reply_of(Ok(easy), Ok(())) == Reply::Ok((easy, None)),
        reply_of(Ok(easy), Err(failed)) == Reply::Ok((easy, Some(failed))),
        forall|transferred: Result<(), curl::Error>| #[trigger]
            reply_of(Err(lost), transferred) == Reply::Err(multi_io_error(lost)),
{
}

/// What is replied is what is seen: nothing before there is a reply, and of each reply
/// the handle or the error that is in it.
pub proof fn law_what_is_seen(
    easy: Easy,
    failed: curl::Error,
    error: std::io::Error,
    outcome: Result<Option<Easy>, PerformError>,
)
    ensures
        is_outcome(None, outcome) ==> (outcome matches Ok(seen) && seen is None),
        is_outcome(Some(Ok((easy, None))), outcome) ==> (outcome matches Ok(seen) && seen == Some(
            easy,
        )),
        is_outcome(Some(Ok((easy, Some(failed)))), outcome) ==> (outcome matches Err(failure)
            && failure.handle() == Some(easy) && failure.error() == transfer_io_error(failed)),
        is_outcome(Some(Err(error)), outcome) ==> (outcome matches Err(failure)
            && failure.handle() is None && failure.error() == error),
{
}

} // verus!
