//! Whole runs of the engine: what it asks for over a sequence of events, and
//! what holds of every run.

use vstd::prelude::*;
use crate::engine::{expects, next_action, next_state, ActionView, EventView, State};
use crate::error::ErrorView;
use crate::wire::{
    heartbeat_frame, magic, speed_frame, version_of, IDENTITY_LEN, POLL_MS, SETTLE_MS,
    STATUS_LEN, STATUS_OK, SUPPORTED_VERSION, VERSION_ACCEPTED, VERSION_LEN, VERSION_REJECTED,
};

verus! {

/// Whether each event of a run ends the action that is pending when it comes.
pub open spec fn valid(state: State, events: Seq<EventView>) -> bool
    decreases events.len(),
{
    events.len() == 0 || (expects(state, events[0]) && valid(
        next_state(state, events[0]),
        events.drop_first(),
    ))
}

/// The state after a run.
pub open spec fn run(state: State, events: Seq<EventView>) -> State
    decreases events.len(),
{
    if events.len() == 0 {
        state
    } else {
        run(next_state(state, events[0]), events.drop_first())
    }
}

/// The actions asked for during a run, one after each event.
pub open spec fn actions(state: State, events: Seq<EventView>) -> Seq<ActionView>
    decreases events.len(),
{
    if events.len() == 0 {
        Seq::empty()
    } else {
        seq![next_action(state, events[0])] + actions(
            next_state(state, events[0]),
            events.drop_first(),
        )
    }
}

/// The bytes that one action puts on the link.
pub open spec fn bytes_of(action: ActionView) -> Seq<u8> {
    match action {
        ActionView::Write(bytes) => bytes,
        _ => Seq::empty(),
    }
}

/// All the bytes that a list of actions puts on the link, in order.
pub open spec fn written(list: Seq<ActionView>) -> Seq<u8>
    decreases list.len(),
{
    if list.len() == 0 {
        Seq::empty()
    } else {
        written(list.drop_last()) + bytes_of(list.last())
    }
}

/// One request of the steady state: a speed command, or a heartbeat where
/// no command came in time.
pub enum Request {
    Speed(i16),
    Heartbeat,
}

/// The bytes of a request on the wire.
pub open spec fn frame_of(request: Request) -> Seq<u8> {
    match request {
        Request::Speed(speed) => speed_frame(speed),
        Request::Heartbeat => heartbeat_frame(),
    }
}

/// The events of one request to which the device answers with `status`.
pub open spec fn round(request: Request, status: u8) -> Seq<EventView> {
    seq![
        match request {
            Request::Speed(speed) => EventView::Command(speed),
            Request::Heartbeat => EventView::Timeout,
        },
        EventView::Done,
        EventView::Bytes(seq![status]),
    ]
}

/// The events of a series of requests, each of which the device accepts.
pub open spec fn accepted_rounds(requests: Seq<Request>) -> Seq<EventView>
    decreases requests.len(),
{
    if requests.len() == 0 {
        Seq::empty()
    } else {
        accepted_rounds(requests.drop_last()) + round(requests.last(), STATUS_OK)
    }
}

/// The frames of a series of requests, one after the other.
pub open spec fn frames(requests: Seq<Request>) -> Seq<u8>
    decreases requests.len(),
{
    if requests.len() == 0 {
        Seq::empty()
    } else {
        frames(requests.drop_last()) + frame_of(requests.last())
    }
}

/// The events of a handshake with a device that answers with the identity
/// and then with these version bytes.
pub open spec fn handshake(version_bytes: Seq<u8>) -> Seq<EventView> {
    seq![
        EventView::Done,
        EventView::Done,
        EventView::Done,
        EventView::Bytes(magic()),
        EventView::Bytes(version_bytes),
        EventView::Done,
    ]
}

/// A run in two parts is the first part, then the second from where the
/// first ended.
pub proof fn run_in_two_parts(state: State, first: Seq<EventView>, second: Seq<EventView>)
    ensures
        valid(state, first + second) == (valid(state, first) && valid(run(state, first), second)),
        run(state, first + second) == run(run(state, first), second),
        actions(state, first + second) == actions(state, first) + actions(
            run(state, first),
            second,
        ),
    decreases first.len(),
{
    if first.len() == 0 {
        assert(first + second =~= second);
        assert(actions(state, first) + actions(run(state, first), second) =~= actions(
            state,
            second,
        ));
    } else {
        let whole = first + second;
        assert(whole[0] == first[0]);
        assert(whole.drop_first() =~= first.drop_first() + second);
        let then = next_state(state, first[0]);
        run_in_two_parts(then, first.drop_first(), second);
        assert(actions(state, whole) =~= actions(state, first) + actions(
            run(state, first),
            second,
        ));
    }
}

/// What two lists of actions write is what the first writes, then what the
/// second writes.
pub proof fn written_in_two_parts(first: Seq<ActionView>, second: Seq<ActionView>)
    ensures
        written(first + second) == written(first) + written(second),
    decreases second.len(),
{
    if second.len() == 0 {
        assert(first + second =~= first);
        assert(written(first) + written(second) =~= written(first));
    } else {
        let whole = first + second;
        assert(whole.drop_last() =~= first + second.drop_last());
        assert(whole.last() == second.last());
        written_in_two_parts(first, second.drop_last());
        assert(written(whole) =~= written(first) + written(second));
    }
}

/// Once the engine has finished nothing is pending: no event fits, so a
/// valid run from there is empty and nothing more is asked for.
pub proof fn finished_is_final(events: Seq<EventView>)
    requires
        valid(State::Finished, events),
    ensures
        events.len() == 0,
        actions(State::Finished, events) == Seq::<ActionView>::empty(),
{
}

/// A link that cannot be opened ends the connection at once with the open
/// error: the run is that one event, and the engine never gets ready.
pub proof fn open_failure_ends_connection(reason: Seq<char>, events: Seq<EventView>)
    requires
        events.len() >= 1,
        events[0] == EventView::OpenFailed(reason),
        valid(State::Opening, events),
    ensures
        events.len() == 1,
        run(State::Opening, events) == State::Finished,
        actions(State::Opening, events) == seq![
            ActionView::Finish(Err(ErrorView::Open(reason))),
        ],
{
    finished_is_final(events.drop_first());
    assert(run(State::Finished, events.drop_first()) == State::Finished);
    assert(actions(State::Opening, events) =~= seq![
        ActionView::Finish(Err(ErrorView::Open(reason))),
    ]);
}

/// The engine says `Finish` exactly when it enters its last state: a result
/// is handed out once, with the step that ends the connection.
pub proof fn finish_ends_the_run(state: State, event: EventView)
    requires
        expects(state, event),
    ensures
        next_action(state, event) is Finish <==> next_state(state, event) == State::Finished,
{
}

/// A read or a write that fails ends the connection, whatever the state,
/// with the failure as it was reported.
pub proof fn io_failure_is_fatal(state: State, code: Option<i32>, description: Seq<char>)
    requires
        expects(state, EventView::IoFailed(code, description)),
    ensures
        next_state(state, EventView::IoFailed(code, description)) == State::Finished,
        next_action(state, EventView::IoFailed(code, description)) == ActionView::Finish(
            Err(ErrorView::Other(code, description)),
        ),
{
}

/// A command, a timeout and the loss of the sender are taken only when the
/// handshake is over.
pub proof fn commands_wait_for_handshake(state: State, event: EventView)
    requires
        expects(state, event),
        event is Command || event is Timeout || event is Closed,
    ensures
        state == State::Ready,
{
}

/// A device that does not answer with the identity ends the handshake with
/// `WrongDevice`: the run stops at its answer, and the identity is all that
/// was ever written.
pub proof fn wrong_identity_ends_handshake(answer: Seq<u8>, events: Seq<EventView>)
    requires
        events.len() >= 4,
        events[0] == EventView::Done,
        events[1] == EventView::Done,
        events[2] == EventView::Done,
        events[3] == EventView::Bytes(answer),
        answer != magic(),
        valid(State::Opening, events),
    ensures
        events.len() == 4,
        run(State::Opening, events) == State::Finished,
        actions(State::Opening, events) == seq![
            ActionView::Sleep { millis: SETTLE_MS },
            ActionView::Write(magic()),
            ActionView::Read { len: IDENTITY_LEN },
            ActionView::Finish(Err(ErrorView::WrongDevice)),
        ],
        written(actions(State::Opening, events)) == magic(),
{
    let head = events.subrange(0, 4);
    let tail = events.subrange(4, events.len() as int);
    assert(events =~= head + tail);
    assert(head =~= seq![
        EventView::Done,
        EventView::Done,
        EventView::Done,
        EventView::Bytes(answer),
    ]);
    run_in_two_parts(State::Opening, head, tail);
    reveal_with_fuel(valid, 5);
    reveal_with_fuel(run, 5);
    reveal_with_fuel(actions, 5);
    reveal_with_fuel(written, 5);
    let e0 = head;
    let e1 = e0.drop_first();
    let e2 = e1.drop_first();
    let e3 = e2.drop_first();
    let e4 = e3.drop_first();
    assert(e1[0] == EventView::Done && e2[0] == EventView::Done && e3[0] == EventView::Bytes(
        answer,
    ) && e4.len() == 0);
    assert(run(State::Opening, head) == State::Finished);
    finished_is_final(tail);
    let list = seq![
        ActionView::Sleep { millis: SETTLE_MS },
        ActionView::Write(magic()),
        ActionView::Read { len: IDENTITY_LEN },
        ActionView::Finish(Err(ErrorView::WrongDevice)),
    ];
    assert(actions(State::Opening, head) =~= list);
    assert(actions(State::Opening, events) =~= list);
    let l3 = list.drop_last();
    let l2 = l3.drop_last();
    let l1 = l2.drop_last();
    assert(l1.drop_last().len() == 0);
    assert(written(list) =~= magic());
}

/// The version decides the handshake. On the supported version the engine
/// writes the acceptance byte and gets ready; on any other it writes the
/// rejection byte, then ends with `UnsupportedVersion` and that version.
pub proof fn version_decides(version_bytes: Seq<u8>)
    requires
        version_bytes.len() == VERSION_LEN,
    ensures
        valid(State::Opening, handshake(version_bytes)),
        version_of(version_bytes) == SUPPORTED_VERSION ==> {
            &&& run(State::Opening, handshake(version_bytes)) == State::Ready
            &&& actions(State::Opening, handshake(version_bytes)) == seq![
                ActionView::Sleep { millis: SETTLE_MS },
                ActionView::Write(magic()),
                ActionView::Read { len: IDENTITY_LEN },
                ActionView::Read { len: VERSION_LEN },
                ActionView::Write(seq![VERSION_ACCEPTED]),
                ActionView::Receive { timeout_ms: POLL_MS },
            ]
        },
        version_of(version_bytes) != SUPPORTED_VERSION ==> {
            &&& run(State::Opening, handshake(version_bytes)) == State::Finished
            &&& actions(State::Opening, handshake(version_bytes)) == seq![
                ActionView::Sleep { millis: SETTLE_MS },
                ActionView::Write(magic()),
                ActionView::Read { len: IDENTITY_LEN },
                ActionView::Read { len: VERSION_LEN },
                ActionView::Write(seq![VERSION_REJECTED]),
                ActionView::Finish(
                    Err(ErrorView::UnsupportedVersion(version_of(version_bytes))),
                ),
            ]
        },
{
    reveal_with_fuel(valid, 7);
    reveal_with_fuel(run, 7);
    reveal_with_fuel(actions, 7);
    let e0 = handshake(version_bytes);
    let e1 = e0.drop_first();
    let e2 = e1.drop_first();
    let e3 = e2.drop_first();
    let e4 = e3.drop_first();
    let e5 = e4.drop_first();
    let e6 = e5.drop_first();
    assert(e1[0] == EventView::Done && e2[0] == EventView::Done && e3[0] == EventView::Bytes(
        magic(),
    ) && e4[0] == EventView::Bytes(version_bytes) && e5[0] == EventView::Done && e6.len()
        == 0);
    if version_of(version_bytes) == SUPPORTED_VERSION {
        assert(actions(State::Opening, e0) =~= seq![
            ActionView::Sleep { millis: SETTLE_MS },
            ActionView::Write(magic()),
            ActionView::Read { len: IDENTITY_LEN },
            ActionView::Read { len: VERSION_LEN },
            ActionView::Write(seq![VERSION_ACCEPTED]),
            ActionView::Receive { timeout_ms: POLL_MS },
        ]);
    } else {
        assert(actions(State::Opening, e0) =~= seq![
            ActionView::Sleep { millis: SETTLE_MS },
            ActionView::Write(magic()),
            ActionView::Read { len: IDENTITY_LEN },
            ActionView::Read { len: VERSION_LEN },
            ActionView::Write(seq![VERSION_REJECTED]),
            ActionView::Finish(Err(ErrorView::UnsupportedVersion(version_of(version_bytes)))),
        ]);
    }
}

/// One request is one exchange: the frame is written, one byte is read, and
/// on `0x00` the engine waits for the next command. On any other byte it
/// ends, with `InvalidSpeed` after a speed and `Disconnected` after a
/// heartbeat.
pub proof fn one_exchange_per_request(request: Request, status: u8)
    ensures
        valid(State::Ready, round(request, status)),
        run(State::Ready, round(request, status)) == if status == STATUS_OK {
            State::Ready
        } else {
            State::Finished
        },
        actions(State::Ready, round(request, status)) == seq![
            ActionView::Write(frame_of(request)),
            ActionView::Read { len: STATUS_LEN },
            if status == STATUS_OK {
                ActionView::Receive { timeout_ms: POLL_MS }
            } else {
                ActionView::Finish(
                    Err(
                        match request {
                            Request::Speed(_) => ErrorView::InvalidSpeed,
                            Request::Heartbeat => ErrorView::Disconnected,
                        },
                    ),
                )
            },
        ],
        written(actions(State::Ready, round(request, status))) == frame_of(request),
{
    reveal_with_fuel(valid, 4);
    reveal_with_fuel(run, 4);
    reveal_with_fuel(actions, 4);
    reveal_with_fuel(written, 4);
    let e0 = round(request, status);
    let e1 = e0.drop_first();
    let e2 = e1.drop_first();
    let e3 = e2.drop_first();
    assert(e1[0] == EventView::Done && e2[0] == EventView::Bytes(seq![status]) && e3.len() == 0);
    let list = seq![
        ActionView::Write(frame_of(request)),
        ActionView::Read { len: STATUS_LEN },
        next_action(
            match request {
                Request::Speed(_) => State::SpeedCheck,
                Request::Heartbeat => State::HeartbeatCheck,
            },
            EventView::Bytes(seq![status]),
        ),
    ];
    assert(actions(State::Ready, e0) =~= list);
    let l2 = list.drop_last();
    let l1 = l2.drop_last();
    assert(l1.drop_last().len() == 0);
    assert(written(list) =~= frame_of(request));
}

/// Whether a state belongs to the loop that follows the handshake.
pub open spec fn in_steady_state(state: State) -> bool {
    state is Ready || state is SpeedSent || state is SpeedCheck || state is HeartbeatSent
        || state is HeartbeatCheck
}

/// A run that gets from the handshake into the command loop takes a step
/// that does not end the connection.
proof fn first_step_goes_on(state: State, events: Seq<EventView>)
    requires
        valid(state, events),
        in_steady_state(run(state, events)),
        !in_steady_state(state),
    ensures
        events.len() > 0,
        expects(state, events[0]),
        next_state(state, events[0]) != State::Finished,
        valid(next_state(state, events[0]), events.drop_first()),
        run(state, events) == run(next_state(state, events[0]), events.drop_first()),
{
    if events.len() > 0 && next_state(state, events[0]) == State::Finished {
        finished_is_final(events.drop_first());
        assert(run(State::Finished, events.drop_first()) == State::Finished);
    }
}

/// The handshake comes first and comes whole: a run that has reached the
/// command loop began with the six events of a handshake on the supported
/// version, so nothing of a command was written before the acceptance byte.
pub proof fn handshake_comes_first(events: Seq<EventView>)
    requires
        valid(State::Opening, events),
        in_steady_state(run(State::Opening, events)),
    ensures
        events.len() >= 6,
        events[4] is Bytes,
        events[4]->Bytes_0.len() == VERSION_LEN,
        version_of(events[4]->Bytes_0) == SUPPORTED_VERSION,
        events.subrange(0, 6) == handshake(events[4]->Bytes_0),
        run(State::Opening, events.subrange(0, 6)) == State::Ready,
{
    let e0 = events;
    first_step_goes_on(State::Opening, e0);
    assert(e0[0] == EventView::Done);
    let e1 = e0.drop_first();
    first_step_goes_on(State::Settling, e1);
    assert(e1[0] == EventView::Done);
    let e2 = e1.drop_first();
    first_step_goes_on(State::IdentitySent, e2);
    assert(e2[0] == EventView::Done);
    let e3 = e2.drop_first();
    first_step_goes_on(State::IdentityCheck, e3);
    assert(e3[0] == EventView::Bytes(magic()));
    let e4 = e3.drop_first();
    first_step_goes_on(State::VersionCheck, e4);
    let version_bytes = e4[0]->Bytes_0;
    assert(e4[0] == EventView::Bytes(version_bytes));
    if version_of(version_bytes) != SUPPORTED_VERSION {
        let e5 = e4.drop_first();
        first_step_goes_on(State::Rejecting(version_of(version_bytes)), e5);
    }
    let e5 = e4.drop_first();
    first_step_goes_on(State::Accepting, e5);
    assert(e5[0] == EventView::Done);
    assert(events[4] == e4[0]);
    assert(events.subrange(0, 6) =~= handshake(version_bytes));
    version_decides(version_bytes);
}

/// While the device answers every request with `0x00` the engine never ends
/// on its own: after any series of speeds and heartbeats it waits for the
/// next command, and what it wrote is their frames, in order.
pub proof fn accepted_requests_keep_running(requests: Seq<Request>)
    ensures
        valid(State::Ready, accepted_rounds(requests)),
        run(State::Ready, accepted_rounds(requests)) == State::Ready,
        written(actions(State::Ready, accepted_rounds(requests))) == frames(requests),
    decreases requests.len(),
{
    if requests.len() > 0 {
        let before = accepted_rounds(requests.drop_last());
        let last = round(requests.last(), STATUS_OK);
        accepted_requests_keep_running(requests.drop_last());
        one_exchange_per_request(requests.last(), STATUS_OK);
        run_in_two_parts(State::Ready, before, last);
        written_in_two_parts(actions(State::Ready, before), actions(State::Ready, last));
    }
}

/// When the command sender is gone the engine ends with success.
pub proof fn closed_sender_ends_cleanly()
    ensures
        expects(State::Ready, EventView::Closed),
        next_state(State::Ready, EventView::Closed) == State::Finished,
        next_action(State::Ready, EventView::Closed) == ActionView::Finish(Ok(())),
{
}

} // verus!
