use ua4f::relay::{
    is_graceful, peer, IoFailure, ReadOutcome, RelayAction, RelayEvent, RelayState, Side,
    WriteOutcome, RELAY_BUFFER_SIZE,
};

/// Pumps `input` from the client to a target that echoes every byte, and
/// returns what the client gets back, with the relay's final state.
fn echo_through_relay(input: &[u8]) -> (Vec<u8>, RelayState) {
    let mut state = RelayState::new();
    let mut sent = 0usize;
    let mut at_target: Vec<u8> = Vec::new();
    let mut echoed = 0usize;
    let mut at_client: Vec<u8> = Vec::new();
    let mut target_got_eof = false;
    let mut rounds = 0usize;
    while !state.is_finished() {
        rounds += 1;
        assert!(rounds < 10_000);
        if state.wants_read(Side::Client) {
            let n = (input.len() - sent).min(RELAY_BUFFER_SIZE);
            let chunk = &input[sent..sent + n];
            match state.on_read(Side::Client, ReadOutcome::Data(n)) {
                RelayAction::Forward { to, len } => {
                    assert_eq!(to, Side::Target);
                    at_target.extend_from_slice(&chunk[..len]);
                    sent += len;
                    assert_eq!(state.on_write(Side::Target, WriteOutcome::Done), RelayAction::Continue);
                }
                RelayAction::ShutdownWrite(side) => {
                    assert_eq!(side, Side::Target);
                    assert_eq!(n, 0);
                    target_got_eof = true;
                }
                other => panic!("{:?}", other),
            }
        }
        if state.wants_read(Side::Target) {
            let n = (at_target.len() - echoed).min(RELAY_BUFFER_SIZE);
            if n == 0 && !target_got_eof {
                continue;
            }
            let chunk = at_target[echoed..echoed + n].to_vec();
            match state.on_read(Side::Target, ReadOutcome::Data(n)) {
                RelayAction::Forward { to, len } => {
                    assert_eq!(to, Side::Client);
                    at_client.extend_from_slice(&chunk[..len]);
                    echoed += len;
                    assert_eq!(state.on_write(Side::Client, WriteOutcome::Done), RelayAction::Continue);
                }
                RelayAction::ShutdownWrite(side) => assert_eq!(side, Side::Client),
                other => panic!("{:?}", other),
            }
        }
    }
    (at_client, state)
}

#[test]
fn echo_of_nothing() {
    let (back, state) = echo_through_relay(b"");
    assert_eq!(back, Vec::<u8>::new());
    assert_eq!(state.byte_counts(), (0, 0));
    assert!(!state.aborted);
}

#[test]
fn echo_of_one_byte() {
    let (back, state) = echo_through_relay(b"x");
    assert_eq!(back, b"x".to_vec());
    assert_eq!(state.byte_counts(), (1, 1));
}

#[test]
fn echo_of_more_than_one_buffer() {
    assert_eq!(RELAY_BUFFER_SIZE, 5 * 1024);
    let input: Vec<u8> = (0..3 * RELAY_BUFFER_SIZE + 7).map(|i| (i % 251) as u8).collect();
    let (back, state) = echo_through_relay(&input);
    assert_eq!(back, input);
    assert_eq!(state.byte_counts(), (15367, 15367));
    assert!(state.is_finished());
}

#[test]
fn new_relay_has_both_directions_open() {
    let state = RelayState::new();
    assert!(state.wants_read(Side::Client));
    assert!(state.wants_read(Side::Target));
    assert!(!state.is_finished());
    assert_eq!(state.byte_counts(), (0, 0));
}

#[test]
fn data_is_forwarded_to_the_peer_and_counted() {
    let mut state = RelayState::new();
    assert_eq!(
        state.on_read(Side::Client, ReadOutcome::Data(10)),
        RelayAction::Forward { to: Side::Target, len: 10 }
    );
    assert_eq!(
        state.on_read(Side::Target, ReadOutcome::Data(3)),
        RelayAction::Forward { to: Side::Client, len: 3 }
    );
    assert_eq!(
        state.on_read(Side::Client, ReadOutcome::Data(5)),
        RelayAction::Forward { to: Side::Target, len: 5 }
    );
    assert_eq!(state.byte_counts(), (15, 3));
    assert!(state.wants_read(Side::Client) && state.wants_read(Side::Target));
}

#[test]
fn end_of_stream_stops_one_direction() {
    let mut state = RelayState::new();
    assert_eq!(state.on_read(Side::Client, ReadOutcome::Data(0)), RelayAction::ShutdownWrite(Side::Target));
    assert!(!state.wants_read(Side::Client));
    assert!(state.wants_read(Side::Target));
    assert!(!state.is_finished());
    assert_eq!(state.on_read(Side::Target, ReadOutcome::Data(0)), RelayAction::ShutdownWrite(Side::Client));
    assert!(state.is_finished());
    assert!(!state.aborted);
}

#[test]
fn reset_and_broken_pipe_on_read_stop_one_direction() {
    for failure in [IoFailure::ConnectionReset, IoFailure::BrokenPipe] {
        let mut state = RelayState::new();
        assert_eq!(
            state.on_read(Side::Target, ReadOutcome::Failed(failure)),
            RelayAction::ShutdownWrite(Side::Client)
        );
        assert!(!state.wants_read(Side::Target));
        assert!(state.wants_read(Side::Client));
        assert!(!state.aborted);
    }
}

#[test]
fn other_read_failure_is_fatal() {
    let mut state = RelayState::new();
    assert_eq!(state.on_read(Side::Client, ReadOutcome::Failed(IoFailure::Other)), RelayAction::Abort);
    assert!(state.aborted);
    assert!(state.is_finished());
    assert!(!state.wants_read(Side::Client));
    assert!(!state.wants_read(Side::Target));
}

#[test]
fn write_failures() {
    let mut state = RelayState::new();
    state.on_read(Side::Client, ReadOutcome::Data(4));
    assert_eq!(
        state.on_write(Side::Target, WriteOutcome::Failed(IoFailure::BrokenPipe)),
        RelayAction::Continue
    );
    assert!(!state.wants_read(Side::Client));
    assert!(state.wants_read(Side::Target));
    assert_eq!(state.byte_counts(), (4, 0));
    assert_eq!(
        state.on_write(Side::Client, WriteOutcome::Failed(IoFailure::ConnectionReset)),
        RelayAction::Continue
    );
    assert!(state.is_finished());
    assert!(!state.aborted);

    let mut state = RelayState::new();
    assert_eq!(state.on_write(Side::Client, WriteOutcome::Failed(IoFailure::Other)), RelayAction::Abort);
    assert!(state.aborted && state.is_finished());
}

#[test]
fn counters_stop_at_the_largest_value() {
    let mut state = RelayState::new();
    state.client_to_target = u64::MAX - 2;
    state.on_read(Side::Client, ReadOutcome::Data(2));
    assert_eq!(state.byte_counts(), (u64::MAX, 0));
    state.on_read(Side::Client, ReadOutcome::Data(100));
    assert_eq!(state.byte_counts(), (u64::MAX, 0));
}

#[test]
fn events_are_applied_like_outcomes() {
    let mut by_event = RelayState::new();
    let mut by_call = RelayState::new();
    assert_eq!(
        by_event.apply(RelayEvent::Read { from: Side::Target, read: ReadOutcome::Data(9) }),
        by_call.on_read(Side::Target, ReadOutcome::Data(9))
    );
    assert_eq!(
        by_event.apply(RelayEvent::Written { to: Side::Client, written: WriteOutcome::Failed(IoFailure::BrokenPipe) }),
        by_call.on_write(Side::Client, WriteOutcome::Failed(IoFailure::BrokenPipe))
    );
    assert_eq!(by_event, by_call);
    assert_eq!(by_event.byte_counts(), (0, 9));
}

#[test]
fn peers_and_graceful_failures() {
    assert_eq!(peer(Side::Client), Side::Target);
    assert_eq!(peer(Side::Target), Side::Client);
    assert!(is_graceful(IoFailure::ConnectionReset));
    assert!(is_graceful(IoFailure::BrokenPipe));
    assert!(!is_graceful(IoFailure::Other));
}
