//! What holds of the driver as a whole.
//!
//! Each method of [`State`](crate::state::State) that changes it does one `Step`
//! to its [`Model`], as the method's contract says. The laws speak of such steps,
//! and of all runs of them.

use crate::events::{cancel_id, event_of, socket_id, Event, Interest, Readiness};
use crate::model::{HandleEntry, Model, TimeoutState};
use crate::outside::{multi_io_error, receiver_of, token_of, transfer_io_error, with_token};
use crate::perform::{is_outcome, is_request, reply_of, Complete, Message, Perform, PerformError};
use crate::socket::{needs_of, poll_mask, readable_bit, writable_bit, SocketEntry};
use crate::state::{scheduled_change, SocketChange};
use curl::easy::Easy;
use curl::multi::EasyHandle;
use tokio_core::reactor::Timeout;
use vstd::prelude::*;

verus! {

/// Something that happens to the driver.
#[allow(inconsistent_fields)]
pub enum Step {
    /// `State::schedule_timeout`.
    TimeoutRequested { nanos: Option<u128> },
    /// `State::arm_timeout`.
    TimerArmed { timer: Timeout, elapsed: bool },
    /// `State::timer_mut`, where the timer is `timer` afterwards.
    TimerPolled { timer: Timeout },
    /// `State::check_timeout`.
    TimeoutChecked { elapsed: bool },
    /// `State::schedule_socket`, where a new socket goes to slot `vacancy`.
    SocketScheduled { socket: i32, events: Interest, token: usize, vacancy: usize },
    /// `State::check_socket`.
    SocketChecked { index: usize, events: Readiness },
    /// `State::check_message`, where the request is taken on in slot `index`.
    RequestAdmitted { index: usize, entry: HandleEntry },
    /// `State::complete_mut`, where the sender is `complete` afterwards.
    CompletePolled { index: usize, complete: Complete },
    /// `State::check_cancel`.
    CancelChecked { index: usize, canceled: bool },
    /// `State::check_completions`.
    Completed { index: usize },
}

impl Step {
    /// The step can happen in `model`. A sender that was only asked whether anybody
    /// still waits for the reply is the same sender afterwards.
    pub open spec fn possible(self, model: Model) -> bool {
        match self {
            Step::TimerPolled { timer } => model.timeout is Waiting,
            Step::SocketScheduled { socket, events, token, vacancy } => {
                &&& model.knows_token(events, token)
                &&& token == 0 ==> !model.sockets.contains_key(vacancy) && socket_id(vacancy)
                    <= usize::MAX
            },
            Step::RequestAdmitted { index, entry } => !model.handles.contains_key(index),
            Step::CompletePolled { index, complete } => model.handles.contains_key(index)
                && complete == model.handles[index].complete,
            Step::Completed { index } => model.handles.contains_key(index),
            _ => true,
        }
    }

    /// What `model` becomes by the step.
    pub open spec fn apply(self, model: Model) -> Model {
        match self {
            Step::TimeoutRequested { nanos } => model.timeout_requested(nanos),
            Step::TimerArmed { timer, elapsed } => model.timer_armed(timer, elapsed),
            Step::TimerPolled { timer } => Model {
                timeout: TimeoutState::Waiting(timer),
                ..model
            },
            Step::TimeoutChecked { elapsed } => model.timeout_checked(elapsed),
            Step::SocketScheduled { socket, events, token, vacancy } => model.socket_scheduled(
                socket,
                events,
                token,
                vacancy,
            ),
            Step::SocketChecked { index, events } => model.socket_checked(index, events),
            Step::RequestAdmitted { index, entry } => model.request_admitted(index, entry),
            Step::CompletePolled { index, complete } => model.request_admitted(
                index,
                HandleEntry { complete, handle: model.handles[index].handle },
            ),
            Step::CancelChecked { index, canceled } => model.cancel_checked(index, canceled),
            Step::Completed { index } => model.request_dropped(index),
        }
    }

    /// If by the step a request is taken on, its transfer has the slot of the
    /// request for its token.
    pub open spec fn marks_its_transfer(self) -> bool {
        match self {
            Step::RequestAdmitted { index, entry } => is_marked(entry, index),
            _ => true,
        }
    }

    /// The step is the end of the request in slot `index`: it was given up, or its
    /// transfer is over.
    pub open spec fn ends_request(self, index: usize) -> bool {
        match self {
            Step::CancelChecked { index: ended, canceled } => ended == index && canceled,
            Step::Completed { index: ended } => ended == index,
            _ => false,
        }
    }

    /// By the step libcurl drops the socket in slot `index`.
    pub open spec fn drops_socket(self, index: usize) -> bool {
        match self {
            Step::SocketScheduled { socket, events, token, vacancy } => events.remove && token
                == index + 1,
            _ => false,
        }
    }

    /// By the step libcurl asks for something on the socket in slot `index`, which
    /// is tracked already, or drops it.
    pub open spec fn asks_again(self, index: usize) -> bool {
        match self {
            Step::SocketScheduled { socket, events, token, vacancy } => token == index + 1,
            _ => false,
        }
    }

    /// By the step libcurl is about to be told of an event on the socket in slot
    /// `index`.
    pub open spec fn checks_socket(self, index: usize) -> bool {
        match self {
            Step::SocketChecked { index: checked, events } => checked == index,
            _ => false,
        }
    }

    /// The step is about the timeout.
    pub open spec fn concerns_timeout(self) -> bool {
        self is TimeoutRequested || self is TimerArmed || self is TimerPolled
            || self is TimeoutChecked
    }
}

/// What `model` becomes by the steps `steps`, one after the other.
pub open spec fn run(model: Model, steps: Seq<Step>) -> Model
    decreases steps.len(),
{
    if steps.len() == 0 {
        model
    } else {
        steps.last().apply(run(model, steps.drop_last()))
    }
}

/// The steps `steps` can happen to `model`, one after the other.
pub open spec fn possible(model: Model, steps: Seq<Step>) -> bool
    decreases steps.len(),
{
    steps.len() == 0 || {
        &&& possible(model, steps.drop_last())
        &&& steps.last().possible(run(model, steps.drop_last()))
    }
}

/// An active request stays as it is, in its slot, whatever happens, until it is
/// given up or its transfer is over. So the reply to a request reaches the one who
/// made it: the token of a transfer is the slot of its request, and what is found
/// there when the transfer is over is the sender and the transfer that were stored
/// together.
pub proof fn law_request_stays(model: Model, steps: Seq<Step>, index: usize)
    requires
        possible(model, steps),
        model.handles.contains_key(index),
        forall|i: int| 0 <= i < steps.len() ==> !(#[trigger] steps[i]).ends_request(index),
    ensures
        run(model, steps).handles.contains_key(index),
        run(model, steps).handles[index] == model.handles[index],
    decreases steps.len(),
{
    if steps.len() > 0 {
        let earlier = steps.drop_last();
        assert forall|i: int| 0 <= i < earlier.len() implies !(
        #[trigger] earlier[i]).ends_request(index) by {
            assert(earlier[i] == steps[i]);
        }
        law_request_stays(model, earlier, index);
        let before = run(model, earlier);
        let last = steps[steps.len() - 1];
        assert(!last.ends_request(index));
        if let Step::CompletePolled { index: polled, complete } = last {
            assert(HandleEntry { complete, handle: before.handles[polled].handle }
                == before.handles[polled]);
        }
    }
}

/// The reply to a request reaches the one who made it. When the transfer of a
/// request is over, what is found under its token is the transfer that libcurl took
/// on for that request, and a sender whose reply comes out where the one who made
/// the request looks for it; whatever happened meanwhile, short of the request being
/// given up.
pub proof fn law_reply_reaches_its_request(
    easy: Easy,
    message: Message,
    perform: Perform,
    model: Model,
    index: usize,
    handle: EasyHandle,
    steps: Seq<Step>,
)
    requires
        is_request(easy, message, perform),
        !model.handles.contains_key(index),
        possible(model.request_admitted(index, admitted_entry(message, handle, index)), steps),
        forall|i: int| 0 <= i < steps.len() ==> !(#[trigger] steps[i]).ends_request(index),
    ensures
        ({
            let after = run(
                model.request_admitted(index, admitted_entry(message, handle, index)),
                steps,
            );
            &&& (Step::Completed { index }).possible(after)
            &&& receiver_of(after.handles[index].complete) == perform.receiver()
            &&& after.handles[index].handle == with_token(handle, index)
            &&& is_marked(admitted_entry(message, handle, index), index) ==> is_marked(
                after.handles[index],
                index,
            )
        }),
{
    law_request_stays(
        model.request_admitted(index, admitted_entry(message, handle, index)),
        steps,
        index,
    );
}

/// What is stored in slot `index` for the request `message`, where `handle` is what
/// libcurl made of its transfer.
pub open spec fn admitted_entry(message: Message, handle: EasyHandle, index: usize) -> HandleEntry {
    match message {
        Message::Execute(_, complete) => HandleEntry {
            complete,
            handle: with_token(handle, index),
        },
    }
}

/// There are finitely many requests and sockets in every state that the driver can
/// get to.
pub proof fn law_finitely_many(steps: Seq<Step>)
    requires
        possible(Model::initial(), steps),
    ensures
        run(Model::initial(), steps).handles.dom().finite(),
        run(Model::initial(), steps).sockets.dom().finite(),
    decreases steps.len(),
{
    if steps.len() > 0 {
        let earlier = steps.drop_last();
        law_finitely_many(earlier);
        law_registrations_keep_step(run(Model::initial(), earlier), steps.last());
    }
}

/// Requests and sockets are counted right, in every state that the driver can get
/// to: one more is there after one came, and one less after one went.
pub proof fn law_counts(
    steps: Seq<Step>,
    index: usize,
    entry: HandleEntry,
    socket: i32,
    events: Interest,
    token: usize,
    vacancy: usize,
)
    requires
        possible(Model::initial(), steps),
    ensures
        ({
            let model = run(Model::initial(), steps);
            let scheduled = model.socket_scheduled(socket, events, token, vacancy);
            let asked = Step::SocketScheduled { socket, events, token, vacancy };
            &&& !model.handles.contains_key(index) ==> model.request_admitted(
                index,
                entry,
            ).handles.len() == model.handles.len() + 1
            &&& model.handles.contains_key(index) ==> model.request_dropped(index).handles.len()
                == model.handles.len() - 1
            &&& asked.possible(model) ==> scheduled.sockets.len() == model.sockets.len() + (
            if token == 0 {
                1int
            } else if events.remove {
                -1
            } else {
                0
            })
        }),
{
    law_finitely_many(steps);
    let model = run(Model::initial(), steps);
    let asked = Step::SocketScheduled { socket, events, token, vacancy };
    if asked.possible(model) {
        law_registrations_keep_step(model, asked);
    }
}

/// The driver is not done before every request has come to its end: one that was
/// active was given up on the way, or its transfer was over.
pub proof fn law_done_after_every_request(
    model: Model,
    steps: Seq<Step>,
    index: usize,
    rx_done: bool,
)
    requires
        possible(model, steps),
        model.handles.contains_key(index),
        run(model, steps).finished(rx_done),
    ensures
        exists|i: int| 0 <= i < steps.len() && (#[trigger] steps[i]).ends_request(index),
{
    if forall|i: int| 0 <= i < steps.len() ==> !(#[trigger] steps[i]).ends_request(index) {
        law_request_stays(model, steps, index);
    }
}

/// The transfer of `entry` bears the slot `index` for its token.
pub open spec fn is_marked(entry: HandleEntry, index: usize) -> bool {
    token_of(entry.handle) == index
}

/// Every active request's transfer bears the slot of the request for its token.
pub open spec fn transfers_are_marked(model: Model) -> bool {
    forall|index: usize| #[trigger]
        model.handles.contains_key(index) ==> is_marked(model.handles[index], index)
}

/// The tokens of transfers are never mixed up. As long as requests are taken on as
/// `State::check_message` does it, with the slot for a token, every active request's
/// transfer bears the slot of that request for its token, whatever happens. So no
/// two active requests share a token, and the one whose transfer libcurl reports
/// under a token is the one in that slot.
pub proof fn law_transfers_are_marked(model: Model, steps: Seq<Step>)
    requires
        transfers_are_marked(model),
        possible(model, steps),
        forall|i: int| 0 <= i < steps.len() ==> (#[trigger] steps[i]).marks_its_transfer(),
    ensures
        transfers_are_marked(Model::initial()),
        transfers_are_marked(run(model, steps)),
        forall|one: usize, other: usize| #[trigger]
            run(model, steps).handles.contains_key(one) && #[trigger] run(
                model,
                steps,
            ).handles.contains_key(other) && one != other ==> token_of(
                run(model, steps).handles[one].handle,
            ) != token_of(run(model, steps).handles[other].handle),
    decreases steps.len(),
{
    if steps.len() > 0 {
        let earlier = steps.drop_last();
        let last = steps[steps.len() - 1];
        assert forall|i: int| 0 <= i < earlier.len() implies (
        #[trigger] earlier[i]).marks_its_transfer() by {
            assert(earlier[i] == steps[i]);
        }
        law_transfers_are_marked(model, earlier);
        let before = run(model, earlier);
        assert(last.marks_its_transfer());
        assert forall|index: usize| #[trigger]
            last.apply(before).handles.contains_key(index) implies is_marked(
            last.apply(before).handles[index],
            index,
        ) by {
            if before.handles.contains_key(index) {
                assert(is_marked(before.handles[index], index));
            }
        }
    }
}

/// A request that was given up is forgotten, and no other is: the same
/// notification, should it come again, changes nothing, and there is nothing left
/// in the slot that a transfer could complete.
pub proof fn law_cancel_forgets(model: Model, index: usize, again: bool)
    requires
        model.given_up(index, true),
    ensures
        !(Step::Completed { index }).possible(model.cancel_checked(index, true)),
        !model.cancel_checked(index, true).given_up(index, again),
        model.cancel_checked(index, true).cancel_checked(index, again) == model.cancel_checked(
            index,
            true,
        ),
        forall|other: usize|
            other != index ==> (#[trigger] model.cancel_checked(
                index,
                true,
            ).handles.contains_key(other) <==> model.handles.contains_key(other)),
        forall|other: usize|
            other != index && model.handles.contains_key(other) ==> #[trigger] model.cancel_checked(
                index,
                true,
            ).handles[other] == model.handles[other],
{
}

/// A notification is not lost, and none is made up: what is drained is what was
/// pushed, whatever was pushed before and after it.
pub proof fn law_notifications_arrive(pending: Seq<usize>, id: usize, later: Seq<usize>)
    ensures
        (pending.push(id) + later).reverse().contains(id),
        forall|drained: usize| #[trigger]
            pending.reverse().contains(drained) <==> pending.contains(drained),
{
    let all = pending.push(id) + later;
    assert(all.reverse()[all.len() - 1 - pending.len()] == id);
    assert forall|drained: usize| #[trigger]
        pending.reverse().contains(drained) <==> pending.contains(drained) by {
        if pending.contains(drained) {
            let i = choose|i: int| 0 <= i < pending.len() && pending[i] == drained;
            assert(pending.reverse()[pending.len() - 1 - i] == drained);
        }
        if pending.reverse().contains(drained) {
            let i = choose|i: int|
                0 <= i < pending.len() && pending.reverse()[i] == drained;
            assert(pending[pending.len() - 1 - i] == drained);
        }
    }
}

/// A request that was taken on is looked at in the drain that follows: the number
/// that was pushed for it, on top of whatever was pending, comes out, and stands for
/// that request. If nobody waits for the reply by then, that look is the end of the
/// request; so a future that is dropped, however early, cancels its request.
pub proof fn law_new_request_is_looked_at(
    model: Model,
    index: usize,
    entry: HandleEntry,
    pending: Seq<usize>,
    later: Seq<usize>,
)
    requires
        cancel_id(index) <= usize::MAX,
    ensures
        ({
            let id = cancel_id(index) as usize;
            let after = model.request_admitted(index, entry);
            &&& pending.push(id).reverse().contains(id)
            &&& (pending.push(id) + later).reverse().contains(id)
            &&& event_of(id) == Event::Cancel(index)
            &&& after.given_up(index, true)
            &&& after.handles[index] == entry
            &&& !after.cancel_checked(index, true).handles.contains_key(index)
        }),
{
    let id = cancel_id(index) as usize;
    law_notifications_arrive(pending, id, later);
    law_notifications_arrive(pending, id, Seq::empty());
    assert(pending.push(id) + Seq::<usize>::empty() == pending.push(id));
    law_events_are_told_apart(index, id);
}

/// A request that somebody still waits for is not touched by looking.
pub proof fn law_waited_for_is_kept(model: Model, index: usize)
    ensures
        model.cancel_checked(index, false) == model,
{
}

/// A socket stays tracked, with its file descriptor, in its slot, whatever
/// happens, until libcurl drops it. So the token that libcurl was given for it
/// finds it for as long as libcurl may use the token.
pub proof fn law_socket_stays(model: Model, steps: Seq<Step>, index: usize)
    requires
        possible(model, steps),
        model.sockets.contains_key(index),
        forall|i: int| 0 <= i < steps.len() ==> !(#[trigger] steps[i]).drops_socket(index),
    ensures
        run(model, steps).sockets.contains_key(index),
        run(model, steps).sockets[index].socket == model.sockets[index].socket,
    decreases steps.len(),
{
    if steps.len() > 0 {
        let earlier = steps.drop_last();
        assert forall|i: int| 0 <= i < earlier.len() implies !(
        #[trigger] earlier[i]).drops_socket(index) by {
            assert(earlier[i] == steps[i]);
        }
        law_socket_stays(model, earlier, index);
        let last = steps[steps.len() - 1];
        assert(!last.drops_socket(index));
    }
}

/// The token that a new socket is given, one more than its slot, is not the 0 that
/// stands for none, and names that socket: libcurl may use it at once, to ask for
/// something else or to drop the socket.
pub proof fn law_token_names_its_socket(
    model: Model,
    socket: i32,
    events: Interest,
    vacancy: usize,
    next: Interest,
)
    requires
        (Step::SocketScheduled { socket, events, token: 0, vacancy }).possible(model),
    ensures
        ({
            let token = (vacancy + 1) as usize;
            let after = model.socket_scheduled(socket, events, 0, vacancy);
            &&& token != 0
            &&& Model::slot_of(token, 0) == vacancy
            &&& after.sockets[vacancy].socket == socket
            &&& after.knows_token(next, token)
        }),
{
}

/// Dropping a socket forgets that socket and no other, and leaves nothing behind:
/// a new socket that libcurl drops leaves things as they were.
pub proof fn law_drop_undoes_track(
    model: Model,
    socket: i32,
    events: Interest,
    vacancy: usize,
    drop_events: Interest,
)
    requires
        (Step::SocketScheduled { socket, events, token: 0, vacancy }).possible(model),
        drop_events.remove,
    ensures
        model.socket_scheduled(socket, events, 0, vacancy).socket_scheduled(
            socket,
            drop_events,
            (vacancy + 1) as usize,
            vacancy,
        ) == model,
{
    assert(model.sockets.insert(
        vacancy,
        model.scheduled_entry(socket, events, 0),
    ).remove(vacancy) =~= model.sockets);
}

/// Of every tracked socket it is known what libcurl wants of it, and that it was
/// not dropped.
pub open spec fn sockets_are_wanted(model: Model) -> bool {
    forall|index: usize| #[trigger]
        model.sockets.contains_key(index) ==> model.sockets[index].want is Some
            && !model.sockets[index].want->Some_0.remove
}

/// That holds in every state that the driver can get to.
pub proof fn law_sockets_are_wanted(steps: Seq<Step>)
    requires
        possible(Model::initial(), steps),
    ensures
        sockets_are_wanted(run(Model::initial(), steps)),
    decreases steps.len(),
{
    if steps.len() > 0 {
        law_sockets_are_wanted(steps.drop_last());
    }
}

/// The slots that are registered with the event loop after `change`, where
/// `registered` are those before: a slot is registered when its socket is given a
/// token, and forgotten when its socket is dropped.
pub open spec fn registered_after(registered: Set<usize>, change: SocketChange) -> Set<usize> {
    match change {
        SocketChange::Removed { index } => registered.remove(index),
        SocketChange::Watched { index, assign, event, entry } => if assign is Some {
            registered.insert(index)
        } else {
            registered
        },
    }
}

/// Who registers sockets with the event loop as `State::schedule_socket` says has
/// exactly the tracked ones registered, whatever else happens.
pub proof fn law_registrations_keep_step(model: Model, step: Step)
    requires
        step.possible(model),
    ensures
        match step {
            Step::SocketScheduled { socket, events, token, vacancy } => registered_after(
                model.sockets.dom(),
                scheduled_change(model, socket, events, token, vacancy),
            ) == step.apply(model).sockets.dom(),
            _ => step.apply(model).sockets.dom() == model.sockets.dom(),
        },
{
    match step {
        Step::SocketScheduled { socket, events, token, vacancy } => {
            assert(registered_after(
                model.sockets.dom(),
                scheduled_change(model, socket, events, token, vacancy),
            ) =~= step.apply(model).sockets.dom());
        },
        _ => {
            assert(step.apply(model).sockets.dom() =~= model.sockets.dom());
        },
    }
}

/// A notification for a socket that is not tracked any more is ignored.
pub proof fn law_gone_socket_is_ignored(model: Model, index: usize, events: Readiness)
    requires
        !model.sockets.contains_key(index),
    ensures
        !model.socket_ready(index, events),
        model.socket_checked(index, events) == model,
        !model.socket_unchanged(index),
{
}

/// When libcurl has been told of an event on a socket, the socket's needs are seen
/// to again if and only if libcurl did not ask for anything on it meanwhile: if it
/// did, that was the occasion to see to them, and if it dropped the socket there is
/// none, even though a new one may have come to the same slot. `steps` is what
/// happened while libcurl was being told.
pub proof fn law_needs_are_seen_to(model: Model, index: usize, events: Readiness, steps: Seq<Step>)
    requires
        model.socket_ready(index, events),
        possible(model.socket_checked(index, events), steps),
        forall|i: int| 0 <= i < steps.len() ==> !(#[trigger] steps[i]).checks_socket(index),
    ensures
        run(model.socket_checked(index, events), steps).socket_unchanged(index) <==> forall|i: int|
            0 <= i < steps.len() ==> !(#[trigger] steps[i]).asks_again(index),
    decreases steps.len(),
{
    let told = model.socket_checked(index, events);
    if steps.len() > 0 {
        let earlier = steps.drop_last();
        let last = steps[steps.len() - 1];
        let before = run(told, earlier);
        assert forall|i: int| 0 <= i < earlier.len() implies !(
        #[trigger] earlier[i]).checks_socket(index) by {
            assert(earlier[i] == steps[i]);
        }
        law_needs_are_seen_to(model, index, events, earlier);
        assert(!last.checks_socket(index));
        if before.socket_unchanged(index) {
            if !last.asks_again(index) {
                assert(last.apply(before).sockets[index] == before.sockets[index]);
            }
            assert(last.apply(before).socket_unchanged(index) <==> !last.asks_again(index));
            assert forall|i: int| 0 <= i < steps.len() && i < earlier.len() implies !(
            #[trigger] steps[i]).asks_again(index) by {
                assert(earlier[i] == steps[i]);
            }
        } else {
            let i = choose|i: int|
                0 <= i < earlier.len() && (#[trigger] earlier[i]).asks_again(index);
            assert(steps[i] == earlier[i]);
            assert(!last.apply(before).socket_unchanged(index));
        }
    }
}

/// The timeout that counts is the one that libcurl asked for last: what was asked
/// for before makes no difference.
pub proof fn law_last_timeout_counts(one: Model, other: Model, nanos: Option<u128>)
    ensures
        one.timeout_requested(nanos).timeout == other.timeout_requested(nanos).timeout,
{
}

/// A timeout that was cleared never comes due, and one of no length is due at once.
pub proof fn law_cleared_or_immediate(model: Model, elapsed: bool)
    ensures
        !model.timeout_requested(None).timeout_due(elapsed),
        model.timeout_requested(Some(0)).timeout_due(elapsed),
{
}

/// A timeout of some length comes due when its timer is over, be it at once or
/// later, and not before.
pub proof fn law_timer_decides(
    model: Model,
    nanos: u128,
    timer: Timeout,
    elapsed: bool,
    later: bool,
)
    requires
        nanos != 0,
    ensures
        !model.timeout_requested(Some(nanos)).timeout_due(later),
        model.timeout_requested(Some(nanos)).timer_armed(timer, elapsed).timeout_due(later) == (
        elapsed || later),
{
}

/// libcurl is told once of a timeout: it is not due again unless libcurl asks for
/// another one, whatever else happens.
pub proof fn law_timeout_fires_once(
    model: Model,
    elapsed: bool,
    steps: Seq<Step>,
    later: bool,
)
    requires
        model.timeout_due(elapsed),
        possible(model.timeout_checked(elapsed), steps),
        forall|i: int|
            0 <= i < steps.len() ==> !(#[trigger] steps[i] is TimeoutRequested) && !(
            steps[i] is TimerArmed),
    ensures
        !run(model.timeout_checked(elapsed), steps).timeout_due(later),
{
    law_idle_timeout_stays(model.timeout_checked(elapsed), steps);
}

/// Where there is no timeout, there is none until libcurl asks for one.
pub proof fn law_idle_timeout_stays(model: Model, steps: Seq<Step>)
    requires
        model.timeout is Idle,
        possible(model, steps),
        forall|i: int|
            0 <= i < steps.len() ==> !(#[trigger] steps[i] is TimeoutRequested) && !(
            steps[i] is TimerArmed),
    ensures
        run(model, steps).timeout is Idle,
    decreases steps.len(),
{
    if steps.len() > 0 {
        let earlier = steps.drop_last();
        let last = steps[steps.len() - 1];
        assert forall|i: int| 0 <= i < earlier.len() implies !(#[trigger] earlier[i] is
            TimeoutRequested) && !(earlier[i] is TimerArmed) by {
            assert(earlier[i] == steps[i]);
        }
        law_idle_timeout_stays(model, earlier);
        assert(!(last is TimeoutRequested) && !(last is TimerArmed));
    }
}

/// Requests, sockets and the timeout do not get in each other's way: what happens
/// to one leaves the others as they are.
pub proof fn law_parts_are_apart(model: Model, step: Step)
    requires
        step.possible(model),
    ensures
        step.apply(model).timeout != model.timeout ==> step.concerns_timeout(),
        step.concerns_timeout() ==> step.apply(model).handles == model.handles && step.apply(
            model,
        ).sockets == model.sockets,
        step is SocketScheduled || step is SocketChecked ==> step.apply(model).handles
            == model.handles,
        step is RequestAdmitted || step is CompletePolled || step is CancelChecked
            || step is Completed ==> step.apply(model).sockets == model.sockets,
{
}

/// The number that a request's or a socket's slot is turned into for a notification
/// is turned back into that request or socket, and every number stands for exactly
/// one of them.
pub proof fn law_events_are_told_apart(index: usize, id: usize)
    ensures
        cancel_id(index) <= usize::MAX ==> event_of(cancel_id(index) as usize) == Event::Cancel(
            index,
        ),
        socket_id(index) <= usize::MAX ==> event_of(socket_id(index) as usize) == Event::Socket(
            index,
        ),
        match event_of(id) {
            Event::Cancel(slot) => cancel_id(slot) == id,
            Event::Socket(slot) => socket_id(slot) == id,
        },
{
}

/// A direction of a socket that libcurl waits for is never forgotten: either the
/// driver is woken at once, which is when the socket is ready, or the event loop
/// will tell when it gets ready. For a direction that libcurl does not wait for
/// nothing is done. `poll` is asked for exactly the directions that matter to this.
pub proof fn law_no_wakeup_is_lost(entry: SocketEntry, revents: i16)
    ensures
        needs_of(entry, revents).read is Notify <==> entry.wants_input() && revents
            & readable_bit() != 0,
        needs_of(entry, revents).read is Wait <==> entry.wants_input() && revents & readable_bit()
            == 0,
        needs_of(entry, revents).write is Notify <==> entry.wants_output() && revents
            & writable_bit() != 0,
        needs_of(entry, revents).write is Wait <==> entry.wants_output() && revents
            & writable_bit() == 0,
        poll_mask(entry.wants_input(), entry.wants_output()) & readable_bit() != 0
            <==> entry.wants_input(),
        poll_mask(entry.wants_input(), entry.wants_output()) & writable_bit() != 0
            <==> entry.wants_output(),
{
    assert(0i16 & 1i16 == 0 && 1i16 & 1i16 == 1 && 4i16 & 1i16 == 0 && 5i16 & 1i16 == 1)
        by (bit_vector);
    assert(0i16 & 4i16 == 0 && 1i16 & 4i16 == 0 && 4i16 & 4i16 == 4 && 5i16 & 4i16 == 4)
        by (bit_vector);
}

/// The one who made a request gets the handle back once the transfer is over: as
/// the result if the transfer went well, and with the error if it failed. Only a
/// handle that could not be taken back from libcurl is lost.
pub proof fn law_handle_comes_back(
    easy: Easy,
    transferred: Result<(), curl::Error>,
    lost: curl::MultiError,
    returned_outcome: Result<Option<Easy>, PerformError>,
    lost_outcome: Result<Option<Easy>, PerformError>,
)
    requires
        is_outcome(Some(reply_of(Ok(easy), transferred)), returned_outcome),
        is_outcome(Some(reply_of(Err(lost), transferred)), lost_outcome),
    ensures
        match returned_outcome {
            Ok(handle) => transferred is Ok && handle == Some(easy),
            Err(failure) => {
                &&& transferred matches Err(error)
                &&& failure.error() == transfer_io_error(error)
                &&& failure.handle() == Some(easy)
            },
        },
        lost_outcome matches Err(failure) && failure.error() == multi_io_error(lost)
            && failure.handle() is None,
{
}

/// A request resolves to the handle that it was made with. Whatever happens after it
/// was taken on, short of its being given up, its transfer can complete, the sender
/// found then is the one whose reply comes out where the one who made the request
/// looks for it, and what they see of the reply is that very handle: as the result if
/// the transfer went well, and with the error if it failed. Only a handle that cannot
/// be taken back from libcurl is lost.
///
/// That libcurl gives back the transfer that it took on, if it gives one back, is a
/// premise.
pub proof fn law_request_resolves_to_its_handle(
    easy: Easy,
    message: Message,
    perform: Perform,
    model: Model,
    index: usize,
    handle: EasyHandle,
    steps: Seq<Step>,
    removed: Result<Easy, curl::MultiError>,
    transferred: Result<(), curl::Error>,
    outcome: Result<Option<Easy>, PerformError>,
)
    requires
        is_request(easy, message, perform),
        !model.handles.contains_key(index),
        possible(model.request_admitted(index, admitted_entry(message, handle, index)), steps),
        forall|i: int| 0 <= i < steps.len() ==> !(#[trigger] steps[i]).ends_request(index),
        removed matches Ok(back) ==> back == easy,
        is_outcome(Some(reply_of(removed, transferred)), outcome),
    ensures
        ({
            let after = run(
                model.request_admitted(index, admitted_entry(message, handle, index)),
                steps,
            );
            &&& (Step::Completed { index }).possible(after)
            &&& receiver_of(after.handles[index].complete) == perform.receiver()
        }),
        match (removed, transferred) {
            (Ok(_), Ok(_)) => outcome == Result::<Option<Easy>, PerformError>::Ok(Some(easy)),
            (Ok(_), Err(error)) => {
                &&& outcome matches Err(failure)
                &&& failure.error() == transfer_io_error(error)
                &&& failure.handle() == Some(easy)
            },
            (Err(lost), _) => {
                &&& outcome matches Err(failure)
                &&& failure.error() == multi_io_error(lost)
                &&& failure.handle() is None
            },
        },
{
    law_reply_reaches_its_request(easy, message, perform, model, index, handle, steps);
}

} // verus!
