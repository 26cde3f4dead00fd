//! The protocol engine: handshake, then the command and heartbeat loop.
//!
//! The engine never touches the link. It hands out one [`Action`] at a time;
//! whoever owns the link carries it out and reports the [`Event`] that ended
//! it. [`step`] then gives the next state and the next action.

use vstd::prelude::*;
use crate::error::{Error, ErrorView, IoFailure};
use crate::wire::{
    decode_version, encode_heartbeat, encode_speed, heartbeat_frame, is_magic, magic, magic_bytes,
    speed_frame, version_of, BAUD_RATE, IDENTITY_LEN, IO_TIMEOUT_MS, POLL_MS, SETTLE_MS,
    STATUS_LEN, STATUS_OK, SUPPORTED_VERSION, VERSION_ACCEPTED, VERSION_LEN, VERSION_REJECTED,
};

verus! {

/// Where the engine stands. Each state but the last has one action pending.
#[derive(Clone, Copy, Debug, PartialEq, Eq, Structural)]
pub enum State {
    /// The link is being opened.
    Opening,
    /// The link is open; the device is given time to boot.
    Settling,
    /// The identity is being written.
    IdentitySent,
    /// The device's identity is being read.
    IdentityCheck,
    /// The device's version is being read.
    VersionCheck,
    /// The version was the supported one; the acceptance is being written.
    Accepting,
    /// The version, held here, was another; the rejection is being written.
    Rejecting(u16),
    /// The handshake is over; the worker waits for a command.
    Ready,
    /// A speed command, for the speed held here, is being written.
    SpeedSent(i16),
    /// The response to a speed command is being read.
    SpeedCheck,
    /// A heartbeat is being written.
    HeartbeatSent,
    /// The response to a heartbeat is being read.
    HeartbeatCheck,
    /// The connection is over; nothing is pending.
    Finished,
}

/// How the pending action ended.
#[derive(Debug, PartialEq, Eq)]
pub enum Event {
    /// The link was opened, the pause is over, or the bytes were written.
    Done,
    /// The bytes that were asked for were read.
    Bytes(Vec<u8>),
    /// A speed command arrived.
    Command(i16),
    /// No command arrived in time.
    Timeout,
    /// The command sender is gone and no command is left.
    Closed,
    /// The link could not be opened; the text says why.
    OpenFailed(String),
    /// The read or the write failed.
    IoFailed(IoFailure),
}

/// An [`Event`] as a mathematical value.
pub enum EventView {
    Done,
    Bytes(Seq<u8>),
    Command(i16),
    Timeout,
    Closed,
    OpenFailed(Seq<char>),
    IoFailed(Option<i32>, Seq<char>),
}

impl View for Event {
    type V = EventView;

    open spec fn view(&self) -> EventView {
        match self {
            Event::Done => EventView::Done,
            Event::Bytes(bytes) => EventView::Bytes(bytes@),
            Event::Command(speed) => EventView::Command(*speed),
            Event::Timeout => EventView::Timeout,
            Event::Closed => EventView::Closed,
            Event::OpenFailed(reason) => EventView::OpenFailed(reason@),
            Event::IoFailed(failure) => EventView::IoFailed(
                failure.raw_os_error,
                failure.description@,
            ),
        }
    }
}

/// What the owner of the link is asked to do next.
#[derive(Debug, PartialEq, Eq)]
pub enum Action {
    /// Open the link at this speed, with this timeout on each read.
    Open { baud_rate: u32, timeout_ms: u64 },
    /// Wait this long.
    Sleep { millis: u64 },
    /// Write all of these bytes.
    Write(Vec<u8>),
    /// Read exactly this many bytes.
    Read { len: usize },
    /// Wait up to this long for a command.
    Receive { timeout_ms: u64 },
    /// Stop: the connection ended with this result.
    Finish(Result<(), Error>),
}

/// An [`Action`] as a mathematical value.
pub enum ActionView {
    Open { baud_rate: u32, timeout_ms: u64 },
    Sleep { millis: u64 },
    Write(Seq<u8>),
    Read { len: usize },
    Receive { timeout_ms: u64 },
    Finish(Result<(), ErrorView>),
}

impl View for Action {
    type V = ActionView;

    open spec fn view(&self) -> ActionView {
        match self {
            Action::Open { baud_rate, timeout_ms } => ActionView::Open {
                baud_rate: *baud_rate,
                timeout_ms: *timeout_ms,
            },
            Action::Sleep { millis } => ActionView::Sleep { millis: *millis },
            Action::Write(bytes) => ActionView::Write(bytes@),
            Action::Read { len } => ActionView::Read { len: *len },
            Action::Receive { timeout_ms } => ActionView::Receive { timeout_ms: *timeout_ms },
            Action::Finish(Ok(())) => ActionView::Finish(Ok(())),
            Action::Finish(Err(e)) => ActionView::Finish(Err(e@)),
        }
    }
}

/// Whether an event is a read of exactly `len` bytes.
pub open spec fn read_of(event: EventView, len: usize) -> bool {
    event matches EventView::Bytes(bytes) && bytes.len() == len
}

/// Whether an event can end the action that is pending in a state.
///
/// Opening ends in `Done` or `OpenFailed`, the pause in `Done`, a write in
/// `Done` or `IoFailed`, a read in `IoFailed` or in as many bytes as were
/// asked for, the wait for a command in `Command`, `Timeout` or `Closed`.
/// Nothing is pending once the engine has finished.
pub open spec fn expects(state: State, event: EventView) -> bool {
    match state {
        State::Opening => event is Done || event is OpenFailed,
        State::Settling => event is Done,
        State::IdentitySent | State::Accepting | State::Rejecting(_) | State::SpeedSent(_)
        | State::HeartbeatSent => event is Done || event is IoFailed,
        State::IdentityCheck => event is IoFailed || read_of(event, IDENTITY_LEN),
        State::VersionCheck => event is IoFailed || read_of(event, VERSION_LEN),
        State::SpeedCheck | State::HeartbeatCheck => event is IoFailed || read_of(
            event,
            STATUS_LEN,
        ),
        State::Ready => event is Command || event is Timeout || event is Closed,
        State::Finished => false,
    }
}

/// The action that is pending in a state. Nothing is pending once the
/// engine has finished: there the result that ended it is not kept, and this
/// gives a clean stop.
pub open spec fn pending(state: State) -> ActionView {
    match state {
        State::Opening => ActionView::Open { baud_rate: BAUD_RATE, timeout_ms: IO_TIMEOUT_MS },
        State::Settling => ActionView::Sleep { millis: SETTLE_MS },
        State::IdentitySent => ActionView::Write(magic()),
        State::IdentityCheck => ActionView::Read { len: IDENTITY_LEN },
        State::VersionCheck => ActionView::Read { len: VERSION_LEN },
        State::Accepting => ActionView::Write(seq![VERSION_ACCEPTED]),
        State::Rejecting(_) => ActionView::Write(seq![VERSION_REJECTED]),
        State::Ready => ActionView::Receive { timeout_ms: POLL_MS },
        State::SpeedSent(speed) => ActionView::Write(speed_frame(speed)),
        State::SpeedCheck => ActionView::Read { len: STATUS_LEN },
        State::HeartbeatSent => ActionView::Write(heartbeat_frame()),
        State::HeartbeatCheck => ActionView::Read { len: STATUS_LEN },
        State::Finished => ActionView::Finish(Ok(())),
    }
}

/// The result with which the engine ends on an event, if it ends on it.
pub open spec fn verdict(state: State, event: EventView) -> Option<Result<(), ErrorView>> {
    match (state, event) {
        (State::Opening, EventView::OpenFailed(reason)) => Some(Err(ErrorView::Open(reason))),
        (_, EventView::IoFailed(code, description)) => Some(
            Err(ErrorView::Other(code, description)),
        ),
        (State::IdentityCheck, EventView::Bytes(bytes)) => if bytes == magic() {
            None
        } else {
            Some(Err(ErrorView::WrongDevice))
        },
        (State::Rejecting(version), EventView::Done) => Some(
            Err(ErrorView::UnsupportedVersion(version)),
        ),
        (State::SpeedCheck, EventView::Bytes(bytes)) => if bytes[0] == STATUS_OK {
            None
        } else {
            Some(Err(ErrorView::InvalidSpeed))
        },
        (State::HeartbeatCheck, EventView::Bytes(bytes)) => if bytes[0] == STATUS_OK {
            None
        } else {
            Some(Err(ErrorView::Disconnected))
        },
        (State::Ready, EventView::Closed) => Some(Ok(())),
        _ => None,
    }
}

/// The state that follows an event.
pub open spec fn next_state(state: State, event: EventView) -> State
    recommends
        expects(state, event),
{
    if verdict(state, event) is Some {
        State::Finished
    } else {
        match state {
            State::Opening => State::Settling,
            State::Settling => State::IdentitySent,
            State::IdentitySent => State::IdentityCheck,
            State::IdentityCheck => State::VersionCheck,
            State::VersionCheck => {
                let version = version_of(event->Bytes_0);
                if version == SUPPORTED_VERSION {
                    State::Accepting
                } else {
                    State::Rejecting(version)
                }
            },
            State::Accepting => State::Ready,
            State::Rejecting(_) => State::Finished,
            State::Ready => match event {
                EventView::Command(speed) => State::SpeedSent(speed),
                _ => State::HeartbeatSent,
            },
            State::SpeedSent(_) => State::SpeedCheck,
            State::SpeedCheck => State::Ready,
            State::HeartbeatSent => State::HeartbeatCheck,
            State::HeartbeatCheck => State::Ready,
            State::Finished => State::Finished,
        }
    }
}

/// The action that is asked for after an event.
pub open spec fn next_action(state: State, event: EventView) -> ActionView
    recommends
        expects(state, event),
{
    match verdict(state, event) {
        Some(result) => ActionView::Finish(result),
        None => pending(next_state(state, event)),
    }
}

/// The state in which every connection starts, and its first action.
pub fn start() -> (out: (State, Action))
    ensures
        out.0 == State::Opening,
        out.1@ == pending(State::Opening),
{
    (State::Opening, Action::Open { baud_rate: BAUD_RATE, timeout_ms: IO_TIMEOUT_MS })
}

/// Tells whether an event can end the action that is pending in a state.
pub fn accepts(state: State, event: &Event) -> (fits: bool)
    ensures
        fits == expects(state, event@),
{
    match state {
        State::Opening => matches!(event, Event::Done | Event::OpenFailed(_)),
        State::Settling => matches!(event, Event::Done),
        State::IdentitySent | State::Accepting | State::Rejecting(_) | State::SpeedSent(_)
        | State::HeartbeatSent => matches!(event, Event::Done | Event::IoFailed(_)),
        State::IdentityCheck => match event {
            Event::IoFailed(_) => true,
            Event::Bytes(bytes) => bytes.len() == IDENTITY_LEN,
            _ => false,
        },
        State::VersionCheck => match event {
            Event::IoFailed(_) => true,
            Event::Bytes(bytes) => bytes.len() == VERSION_LEN,
            _ => false,
        },
        State::SpeedCheck | State::HeartbeatCheck => match event {
            Event::IoFailed(_) => true,
            Event::Bytes(bytes) => bytes.len() == STATUS_LEN,
            _ => false,
        },
        State::Ready => matches!(event, Event::Command(_) | Event::Timeout | Event::Closed),
        State::Finished => false,
    }
}

/// Takes the engine one step: from a state and the event that ended its
/// pending action to the next state and the next action.
pub fn step(state: State, event: Event) -> (out: (State, Action))
    requires
        expects(state, event@),
    ensures
        out.0 == next_state(state, event@),
        out.1@ == next_action(state, event@),
{
    match event {
        Event::OpenFailed(reason) => (State::Finished, Action::Finish(Err(Error::Open(reason)))),
        Event::IoFailed(failure) => (State::Finished, Action::Finish(Err(Error::Other(failure)))),
        Event::Closed => (State::Finished, Action::Finish(Ok(()))),
        Event::Command(speed) => (State::SpeedSent(speed), Action::Write(encode_speed(speed))),
        Event::Timeout => (State::HeartbeatSent, Action::Write(encode_heartbeat())),
        Event::Done => match state {
            State::Opening => (State::Settling, Action::Sleep { millis: SETTLE_MS }),
            State::Settling => (State::IdentitySent, Action::Write(magic_bytes())),
            State::IdentitySent => (State::IdentityCheck, Action::Read { len: IDENTITY_LEN }),
            State::Accepting => (State::Ready, Action::Receive { timeout_ms: POLL_MS }),
            State::Rejecting(version) => (
                State::Finished,
                Action::Finish(Err(Error::UnsupportedVersion(version))),
            ),
            State::SpeedSent(_) => (State::SpeedCheck, Action::Read { len: STATUS_LEN }),
            _ => (State::HeartbeatCheck, Action::Read { len: STATUS_LEN }),
        },
        Event::Bytes(bytes) => match state {
            State::IdentityCheck => if is_magic(bytes.as_slice()) {
                (State::VersionCheck, Action::Read { len: VERSION_LEN })
            } else {
                (State::Finished, Action::Finish(Err(Error::WrongDevice)))
            },
            State::VersionCheck => {
                let version = decode_version(bytes.as_slice());
                if version == SUPPORTED_VERSION {
                    let reply = vec![VERSION_ACCEPTED];
                    assert(reply@ =~= seq![VERSION_ACCEPTED]);
                    (State::Accepting, Action::Write(reply))
                } else {
                    let reply = vec![VERSION_REJECTED];
                    assert(reply@ =~= seq![VERSION_REJECTED]);
                    (State::Rejecting(version), Action::Write(reply))
                }
            },
            State::SpeedCheck => if bytes[0] == STATUS_OK {
                (State::Ready, Action::Receive { timeout_ms: POLL_MS })
            } else {
                (State::Finished, Action::Finish(Err(Error::InvalidSpeed)))
            },
            _ => if bytes[0] == STATUS_OK {
                (State::Ready, Action::Receive { timeout_ms: POLL_MS })
            } else {
                (State::Finished, Action::Finish(Err(Error::Disconnected)))
            },
        },
    }
}

/// Takes the engine one step if the event ends the pending action, and
/// gives `None`, without a step, if it does not.
pub fn try_step(state: State, event: Event) -> (out: Option<(State, Action)>)
    ensures
        out is Some == expects(state, event@),
        out matches Some(taken) ==> taken.0 == next_state(state, event@) && taken.1@
            == next_action(state, event@),
{
    if accepts(state, &event) {
        Some(step(state, event))
    } else {
        None
    }
}

} // verus!
