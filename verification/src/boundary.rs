//! The boundary towards callers that manage memory by hand: a fixed error
//! vocabulary, its string table, and the command sender.

use vstd::prelude::*;
use crate::engine::{Event, EventView};
use crate::error::{Error, ErrorView};
use std::sync::mpsc::{RecvTimeoutError, Sender};

verus! {

/// The tag of an error code.
#[allow(non_camel_case_types)]
#[derive(Clone, Copy, Debug, PartialEq, Eq, Structural)]
pub enum error_type {
    OK,
    WRONG_DEVICE,
    DISCONNECTED,
    UNSUPPORTED_VERSION,
    INVALID_SPEED,
    OPEN,
    COMMUNICATION,
    /// The worker ended without a result: it did not run to its end.
    ABNORMAL_TERMINATION,
}

/// An error code of fixed shape: a tag and a number that goes with it.
///
/// The number is the refused version under `UNSUPPORTED_VERSION`, the
/// platform's error code under `COMMUNICATION` where there is one, and zero
/// otherwise. `ABNORMAL_TERMINATION` is the code of a worker that ended
/// without a result; no error of a connection has it.
#[allow(non_camel_case_types)]
#[derive(Clone, Copy, Debug, PartialEq, Eq, Structural)]
pub struct error_t {
    pub tag: error_type,
    pub payload: i32,
}

/// The command sender that a caller holds while a connection lives.
#[allow(non_camel_case_types)]
pub struct sender_t(pub Sender<i16>);

/// The sending half of std's channel, carried through as an opaque value.
#[verifier::external_type_specification]
#[verifier::external_body]
#[verifier::reject_recursive_types(T)]
pub struct ExSender<T>(Sender<T>);

/// Why std's `recv_timeout` gave no value: no value in time, or no sender
/// left.
#[verifier::external_type_specification]
pub struct ExRecvTimeoutError(RecvTimeoutError);

/// The code of a clean end.
pub open spec fn ok_code() -> error_t {
    error_t { tag: error_type::OK, payload: 0 }
}

/// The code that stands for an error.
pub open spec fn code_of(e: ErrorView) -> error_t {
    match e {
        ErrorView::WrongDevice => error_t { tag: error_type::WRONG_DEVICE, payload: 0 },
        ErrorView::Disconnected => error_t { tag: error_type::DISCONNECTED, payload: 0 },
        ErrorView::UnsupportedVersion(version) => error_t {
            tag: error_type::UNSUPPORTED_VERSION,
            payload: version as i32,
        },
        ErrorView::InvalidSpeed => error_t { tag: error_type::INVALID_SPEED, payload: 0 },
        ErrorView::Open(_) => error_t { tag: error_type::OPEN, payload: 0 },
        ErrorView::Other(code, _) => error_t {
            tag: error_type::COMMUNICATION,
            payload: match code {
                Some(raw) => raw,
                None => 0,
            },
        },
    }
}

/// The code of a worker that ended abnormally, without a result. Its tag
/// stands for nothing else.
pub open spec fn abnormal_code() -> error_t {
    error_t { tag: error_type::ABNORMAL_TERMINATION, payload: 0 }
}

/// The code that stands for the way a worker ended: `None` where it ended
/// abnormally, without a result.
pub open spec fn completion_code(joined: Option<Result<(), ErrorView>>) -> error_t {
    match joined {
        Some(Ok(())) => ok_code(),
        Some(Err(e)) => code_of(e),
        None => abnormal_code(),
    }
}

/// The text of each tag, ending in a NUL so that it can be handed out as a
/// C string.
pub open spec fn text_of(tag: error_type) -> Seq<char> {
    match tag {
        error_type::OK => "Everything ok\0"@,
        error_type::WRONG_DEVICE =>
            "Connected to a device that does not respect the protocol. Try a reset?\0"@,
        error_type::DISCONNECTED => "The device disconnected unexpectedly\0"@,
        error_type::UNSUPPORTED_VERSION => "The device has an unsupported version\0"@,
        error_type::INVALID_SPEED => "Could not set the speed on the device\0"@,
        error_type::OPEN => "Could not open the device\0"@,
        error_type::COMMUNICATION => "Communication failure\0"@,
        error_type::ABNORMAL_TERMINATION => "The communication worker ended abnormally\0"@,
    }
}

impl error_t {
    /// The code of a clean end.
    pub fn ok() -> (code: error_t)
        ensures
            code == ok_code(),
    {
        error_t { tag: error_type::OK, payload: 0 }
    }
}

/// Turns an error into its code.
pub fn convert_err(e: Error) -> (code: error_t)
    ensures
        code == code_of(e@),
{
    match e {
        Error::WrongDevice => error_t { tag: error_type::WRONG_DEVICE, payload: 0 },
        Error::Disconnected => error_t { tag: error_type::DISCONNECTED, payload: 0 },
        Error::UnsupportedVersion(version) => error_t {
            tag: error_type::UNSUPPORTED_VERSION,
            payload: version as i32,
        },
        Error::InvalidSpeed => error_t { tag: error_type::INVALID_SPEED, payload: 0 },
        Error::Open(_) => error_t { tag: error_type::OPEN, payload: 0 },
        Error::Other(failure) => error_t {
            tag: error_type::COMMUNICATION,
            payload: match failure.raw_os_error {
                Some(raw) => raw,
                None => 0,
            },
        },
    }
}

/// The code for the way a worker ended. `joined` is what waiting for the
/// worker gave: its result, or `None` where it ended without one. That
/// abnormal end has a code of its own, which no error and no clean end has.
pub fn smov_get_error(joined: Option<Result<(), Error>>) -> (code: error_t)
    ensures
        code == completion_code(
            match joined {
                Some(Ok(())) => Some(Ok(())),
                Some(Err(e)) => Some(Err(e@)),
                None => None,
            },
        ),
{
    match joined {
        Some(Ok(())) => error_t::ok(),
        Some(Err(e)) => convert_err(e),
        None => error_t { tag: error_type::ABNORMAL_TERMINATION, payload: 0 },
    }
}

/// The text that describes a code. It depends on the tag alone and ends in a
/// NUL, so its bytes can be handed out as a C string.
pub fn smov_strerror(error: error_t) -> (text: &'static str)
    ensures
        text@ == text_of(error.tag),
        text@.len() > 0,
        text@.last() == '\0',
{
    proof {
        reveal_strlit("Everything ok\0");
        reveal_strlit("Connected to a device that does not respect the protocol. Try a reset?\0");
        reveal_strlit("The device disconnected unexpectedly\0");
        reveal_strlit("The device has an unsupported version\0");
        reveal_strlit("Could not set the speed on the device\0");
        reveal_strlit("Could not open the device\0");
        reveal_strlit("Communication failure\0");
        reveal_strlit("The communication worker ended abnormally\0");
    }
    match error.tag {
        error_type::OK => "Everything ok\0",
        error_type::WRONG_DEVICE =>
            "Connected to a device that does not respect the protocol. Try a reset?\0",
        error_type::DISCONNECTED => "The device disconnected unexpectedly\0",
        error_type::UNSUPPORTED_VERSION => "The device has an unsupported version\0",
        error_type::INVALID_SPEED => "Could not set the speed on the device\0",
        error_type::OPEN => "Could not open the device\0",
        error_type::COMMUNICATION => "Communication failure\0",
        error_type::ABNORMAL_TERMINATION => "The communication worker ended abnormally\0",
    }
}

/// Whether a send queued the speed: it did unless the speed came back.
pub fn speed_delivered(outcome: Result<(), i16>) -> (delivered: bool)
    ensures
        delivered == outcome is Ok,
{
    outcome.is_ok()
}

/// Queues a speed for the worker, without waiting. `false` means that the
/// worker has ended and the sender is of no more use.
pub fn smov_set_speed(sender: &sender_t, val: i16) -> (delivered: bool) {
    speed_delivered(send_speed(&sender.0, val))
}

/// `std::sync::mpsc::Sender::send` on the command channel, which hands the
/// value back where it could not be sent. Whether it is sent is not claimed:
/// that depends on whether the receiving worker still lives. What is claimed
/// is that a value that comes back is the one that was handed in.
#[verifier::external_body]
fn send_speed(sender: &Sender<i16>, speed: i16) -> (outcome: Result<(), i16>)
    ensures
        outcome matches Err(back) ==> back == speed,
{
    match sender.send(speed) {
        Ok(()) => Ok(()),
        Err(refused) => Err(refused.0),
    }
}

/// The event that the wait for a command ended in: the command, a timeout,
/// or the loss of the sender.
pub open spec fn received_event(received: Result<i16, RecvTimeoutError>) -> EventView {
    match received {
        Ok(speed) => EventView::Command(speed),
        Err(RecvTimeoutError::Timeout) => EventView::Timeout,
        Err(RecvTimeoutError::Disconnected) => EventView::Closed,
    }
}

/// Turns what the wait for a command gave into the engine's event.
pub fn command_event(received: Result<i16, RecvTimeoutError>) -> (event: Event)
    ensures
        event@ == received_event(received),
{
    match received {
        Ok(speed) => Event::Command(speed),
        Err(RecvTimeoutError::Timeout) => Event::Timeout,
        Err(RecvTimeoutError::Disconnected) => Event::Closed,
    }
}

/// A worker that ended abnormally is told apart from every other end: its
/// code is not `OK`, and no error of a connection has that code or its tag,
/// an I/O failure without a platform code included.
pub proof fn abnormal_end_is_distinct()
    ensures
        completion_code(None).tag != error_type::OK,
        completion_code(None) != ok_code(),
        forall|e: ErrorView| completion_code(None) != #[trigger] code_of(e),
        forall|e: ErrorView| completion_code(None).tag != (#[trigger] code_of(e)).tag,
        forall|joined: Option<Result<(), ErrorView>>|
            #[trigger] completion_code(joined) == completion_code(None) <==> joined is None,
{
    assert forall|joined: Option<Result<(), ErrorView>>|
        #[trigger] completion_code(joined) == completion_code(None) <==> joined is None by {
        match joined {
            Some(Ok(_)) => {},
            Some(Err(e)) => {
                assert(code_of(e).tag != error_type::ABNORMAL_TERMINATION);
            },
            None => {},
        }
    }
}

/// A code says `OK` only of a clean end: every error, and a worker that
/// ended without a result, has another tag.
pub proof fn ok_means_clean_end(joined: Option<Result<(), ErrorView>>)
    ensures
        completion_code(joined).tag == error_type::OK <==> joined matches Some(Ok(_)),
        completion_code(joined).tag == error_type::OK ==> completion_code(joined).payload == 0,
{
}

/// The tag of a code tells which kind of error it stands for, and the
/// number carries the refused version in full.
pub proof fn codes_keep_the_kind(e: ErrorView)
    ensures
        code_of(e).tag == error_type::WRONG_DEVICE <==> e is WrongDevice,
        code_of(e).tag == error_type::DISCONNECTED <==> e is Disconnected,
        code_of(e).tag == error_type::UNSUPPORTED_VERSION <==> e is UnsupportedVersion,
        code_of(e).tag == error_type::INVALID_SPEED <==> e is InvalidSpeed,
        code_of(e).tag == error_type::OPEN <==> e is Open,
        code_of(e).tag == error_type::COMMUNICATION <==> e is Other,
        code_of(e).tag != error_type::OK,
        code_of(e).tag != error_type::ABNORMAL_TERMINATION,
        e matches ErrorView::UnsupportedVersion(version) ==> code_of(e).payload == version,
{
}

} // verus!
