use smov::boundary::{error_type, smov_get_error};
use smov::engine::{accepts, start, step, try_step, Action, Event, State};
use smov::error::{Error, IoFailure};

fn broken_pipe() -> IoFailure {
    IoFailure { raw_os_error: Some(32), description: String::from("Broken pipe") }
}

fn drive(mut state: State, events: Vec<Event>) -> (State, Vec<Action>) {
    let mut actions = Vec::new();
    for event in events {
        assert!(accepts(state, &event), "{:?} does not fit {:?}", event, state);
        let (next, action) = step(state, event);
        state = next;
        actions.push(action);
    }
    (state, actions)
}

fn handshake(version: [u8; 2]) -> Vec<Event> {
    vec![
        Event::Done,
        Event::Done,
        Event::Done,
        Event::Bytes(b"smov".to_vec()),
        Event::Bytes(version.to_vec()),
        Event::Done,
    ]
}

#[test]
fn starts_by_opening_the_link() {
    let (state, action) = start();
    assert_eq!(state, State::Opening);
    assert_eq!(action, Action::Open { baud_rate: 115200, timeout_ms: 1000 });
}

#[test]
fn open_failure_gives_open_error() {
    let (state, _) = start();
    let (state, action) = step(state, Event::OpenFailed(String::from("No such file")));
    assert_eq!(state, State::Finished);
    assert_eq!(action, Action::Finish(Err(Error::Open(String::from("No such file")))));
    assert!(!accepts(state, &Event::Done));
}

#[test]
fn handshake_with_version_zero_gets_ready() {
    let (state, _) = start();
    let (state, actions) = drive(state, handshake([0, 0]));
    assert_eq!(state, State::Ready);
    assert_eq!(
        actions,
        vec![
            Action::Sleep { millis: 2000 },
            Action::Write(b"smov".to_vec()),
            Action::Read { len: 4 },
            Action::Read { len: 2 },
            Action::Write(vec![0x00]),
            Action::Receive { timeout_ms: 100 },
        ]
    );
}

#[test]
fn wrong_identity_stops_after_the_identity_write() {
    let (state, _) = start();
    let (state, actions) = drive(
        state,
        vec![Event::Done, Event::Done, Event::Done, Event::Bytes(b"smow".to_vec())],
    );
    assert_eq!(state, State::Finished);
    assert_eq!(
        actions,
        vec![
            Action::Sleep { millis: 2000 },
            Action::Write(b"smov".to_vec()),
            Action::Read { len: 4 },
            Action::Finish(Err(Error::WrongDevice)),
        ]
    );
    assert!(!accepts(state, &Event::Done));
    assert!(!accepts(state, &Event::Bytes(vec![0, 0])));
    assert!(!accepts(state, &Event::Timeout));
}

#[test]
fn other_version_is_rejected_with_its_number() {
    let (state, _) = start();
    let (state, actions) = drive(state, handshake([0x01, 0x02]));
    assert_eq!(state, State::Finished);
    assert_eq!(actions[4], Action::Write(vec![0x01]));
    assert_eq!(actions[5], Action::Finish(Err(Error::UnsupportedVersion(258))));
}

#[test]
fn version_one_is_rejected() {
    let (state, _) = start();
    let (state, actions) = drive(state, handshake([0x00, 0x01]));
    assert_eq!(state, State::Finished);
    assert_eq!(actions[4], Action::Write(vec![0x01]));
    assert_eq!(actions[5], Action::Finish(Err(Error::UnsupportedVersion(1))));
}

#[test]
fn failed_rejection_write_is_a_communication_error() {
    let (state, _) = start();
    let mut events = handshake([0x00, 0x07]);
    events.pop();
    events.push(Event::IoFailed(broken_pipe()));
    let (state, actions) = drive(state, events);
    assert_eq!(state, State::Finished);
    assert_eq!(actions[5], Action::Finish(Err(Error::Other(broken_pipe()))));
}

#[test]
fn io_failure_during_handshake_is_fatal() {
    let (state, _) = start();
    let (state, actions) = drive(
        state,
        vec![Event::Done, Event::Done, Event::Done, Event::IoFailed(broken_pipe())],
    );
    assert_eq!(state, State::Finished);
    assert_eq!(actions[3], Action::Finish(Err(Error::Other(broken_pipe()))));
}

#[test]
fn accepted_speeds_keep_the_worker_waiting() {
    let mut state = State::Ready;
    for speed in [0i16, 1, -1, 300, i16::MIN, i16::MAX] {
        let bytes = speed.to_be_bytes();
        let (next, actions) = drive(
            state,
            vec![Event::Command(speed), Event::Done, Event::Bytes(vec![0x00])],
        );
        assert_eq!(
            actions,
            vec![
                Action::Write(vec![0x01, bytes[0], bytes[1]]),
                Action::Read { len: 1 },
                Action::Receive { timeout_ms: 100 },
            ]
        );
        assert_eq!(next, State::Ready);
        state = next;
    }
}

#[test]
fn refused_speed_is_invalid_speed() {
    let (state, actions) = drive(
        State::Ready,
        vec![Event::Command(12), Event::Done, Event::Bytes(vec![0x01])],
    );
    assert_eq!(state, State::Finished);
    assert_eq!(actions[2], Action::Finish(Err(Error::InvalidSpeed)));
}

#[test]
fn timeout_is_one_heartbeat_exchange() {
    let (state, actions) = drive(
        State::Ready,
        vec![Event::Timeout, Event::Done, Event::Bytes(vec![0x00])],
    );
    assert_eq!(state, State::Ready);
    assert_eq!(
        actions,
        vec![
            Action::Write(vec![0x00]),
            Action::Read { len: 1 },
            Action::Receive { timeout_ms: 100 },
        ]
    );
}

#[test]
fn refused_heartbeat_is_disconnected() {
    let (state, actions) = drive(
        State::Ready,
        vec![Event::Timeout, Event::Done, Event::Bytes(vec![0xFF])],
    );
    assert_eq!(state, State::Finished);
    assert_eq!(actions[2], Action::Finish(Err(Error::Disconnected)));
    match actions.into_iter().last() {
        Some(Action::Finish(result)) => {
            assert_eq!(smov_get_error(Some(result)).tag, error_type::DISCONNECTED)
        }
        other => panic!("the worker did not end: {:?}", other),
    }
}

#[test]
fn released_sender_ends_cleanly() {
    let (state, action) = step(State::Ready, Event::Closed);
    assert_eq!(state, State::Finished);
    assert_eq!(action, Action::Finish(Ok(())));
}

#[test]
fn three_heartbeats_then_the_device_closes() {
    let (state, first) = start();
    assert_eq!(first, Action::Open { baud_rate: 115200, timeout_ms: 1000 });
    let (mut state, _) = drive(state, handshake([0, 0]));
    assert_eq!(state, State::Ready);
    for _ in 0..3 {
        let (next, actions) = drive(
            state,
            vec![Event::Timeout, Event::Done, Event::Bytes(vec![0x00])],
        );
        assert_eq!(actions[0], Action::Write(vec![0x00]));
        assert_eq!(next, State::Ready);
        state = next;
    }
    let closed = IoFailure { raw_os_error: None, description: String::from("device closed") };
    let (state, mut actions) = drive(state, vec![Event::Timeout, Event::IoFailed(closed.clone())]);
    assert_eq!(state, State::Finished);
    let last = actions.pop();
    assert_eq!(last, Some(Action::Finish(Err(Error::Other(closed)))));
    match last {
        Some(Action::Finish(result)) => {
            let code = smov_get_error(Some(result));
            assert_eq!(code.tag, error_type::COMMUNICATION);
            assert_eq!(code.payload, 0);
        }
        other => panic!("the worker did not end: {:?}", other),
    }
}

#[test]
fn events_fit_only_the_action_they_end() {
    assert!(accepts(State::Opening, &Event::Done));
    assert!(accepts(State::Opening, &Event::OpenFailed(String::new())));
    assert!(!accepts(State::Opening, &Event::IoFailed(broken_pipe())));
    assert!(!accepts(State::Opening, &Event::Command(1)));
    assert!(accepts(State::Settling, &Event::Done));
    assert!(!accepts(State::Settling, &Event::IoFailed(broken_pipe())));
    assert!(accepts(State::IdentitySent, &Event::Done));
    assert!(accepts(State::IdentitySent, &Event::IoFailed(broken_pipe())));
    assert!(!accepts(State::IdentitySent, &Event::Bytes(vec![0; 4])));
    assert!(accepts(State::IdentityCheck, &Event::Bytes(vec![0; 4])));
    assert!(!accepts(State::IdentityCheck, &Event::Bytes(vec![0; 3])));
    assert!(accepts(State::VersionCheck, &Event::Bytes(vec![0; 2])));
    assert!(!accepts(State::VersionCheck, &Event::Bytes(vec![0; 1])));
    assert!(accepts(State::SpeedCheck, &Event::Bytes(vec![9])));
    assert!(!accepts(State::SpeedCheck, &Event::Bytes(vec![])));
    assert!(accepts(State::HeartbeatCheck, &Event::IoFailed(broken_pipe())));
    assert!(accepts(State::Ready, &Event::Command(-5)));
    assert!(accepts(State::Ready, &Event::Timeout));
    assert!(accepts(State::Ready, &Event::Closed));
    assert!(!accepts(State::Ready, &Event::Done));
    assert!(!accepts(State::SpeedSent(3), &Event::Command(4)));
    assert!(accepts(State::Rejecting(3), &Event::Done));
    assert!(accepts(State::Accepting, &Event::Done));
    assert!(!accepts(State::Finished, &Event::Closed));
}

#[test]
fn try_step_refuses_what_does_not_fit() {
    assert_eq!(try_step(State::Finished, Event::Done), None);
    assert_eq!(try_step(State::Ready, Event::Bytes(vec![0])), None);
    assert_eq!(try_step(State::VersionCheck, Event::Bytes(vec![0])), None);
    assert_eq!(
        try_step(State::Ready, Event::Command(-1)),
        Some((State::SpeedSent(-1), Action::Write(vec![0x01, 0xFF, 0xFF])))
    );
    assert_eq!(
        try_step(State::SpeedSent(-1), Event::Done),
        Some((State::SpeedCheck, Action::Read { len: 1 }))
    );
}
