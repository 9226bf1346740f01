use sshfwd::addr::{contains_port_separator, with_default_port};
use sshfwd::auth::{auth_outcome, auth_step, AuthAction, AuthEvent, AuthState};
use sshfwd::broker::{direct_channel_request, StreamIdAllocator};
use sshfwd::pump::{
    pump_payload, pump_stream, split_into_chunks, ConnectionLifecycle, Direction, DirectionPump,
    PumpCommand, ReadOutcome, StopReason, ACTIVE_SESSION_TIMEOUT_MS, COPY_BUFFER_LEN,
    IDLE_SESSION_TIMEOUT_MS,
};

#[test]
fn address_with_port_is_kept() {
    assert!(contains_port_separator("10.0.0.1:22"));
    let normalized = with_default_port(String::from("10.0.0.1:2022"));
    assert_eq!(normalized, "10.0.0.1:2022");
}

#[test]
fn address_without_port_gets_default() {
    assert!(!contains_port_separator("example.org"));
    let normalized = with_default_port(String::from("example.org"));
    assert_eq!(normalized, "example.org:22");
    assert_eq!(with_default_port(String::from("10.0.0.1")), "10.0.0.1:22");
}

#[test]
fn stream_ids_are_distinct_and_increasing() {
    let mut allocator = StreamIdAllocator::new();
    assert_eq!(allocator.peek_next(), 0);
    let a = allocator.allocate();
    let b = allocator.allocate();
    let c = allocator.allocate();
    assert_eq!((a, b, c), (0, 1, 2));
    assert!(a != b && a != c && b != c);
    assert_eq!(allocator.peek_next(), 3);
}

#[test]
fn channel_request_originator_equals_target() {
    let request = direct_channel_request("localhost", 8080);
    assert_eq!(request.target_host, "localhost");
    assert_eq!(request.target_port, 8080);
    assert_eq!(request.originator_host, request.target_host);
    assert_eq!(request.originator_port, request.target_port);
}

#[test]
fn agent_success_authenticates_directly() {
    let events = vec![AuthEvent::AgentOk];
    assert_eq!(
        auth_outcome(AuthState::Unauthenticated, &events),
        AuthState::Authenticated
    );
}

#[test]
fn failed_passwords_then_success_authenticate() {
    let events = vec![
        AuthEvent::AgentFailed,
        AuthEvent::PasswordFailed,
        AuthEvent::PasswordFailed,
        AuthEvent::PasswordFailed,
        AuthEvent::PasswordOk,
    ];
    assert_eq!(
        auth_outcome(AuthState::Unauthenticated, &events),
        AuthState::Authenticated
    );
}

#[test]
fn auth_actions_follow_failures() {
    let (state, action) = auth_step(AuthState::Unauthenticated, AuthEvent::AgentFailed);
    assert_eq!(state, AuthState::AgentAttempted);
    assert_eq!(action, AuthAction::PromptPassword);
    let (state, action) = auth_step(state, AuthEvent::PasswordFailed);
    assert_eq!(state, AuthState::PasswordRetry);
    assert_eq!(action, AuthAction::BackOffThenPrompt);
    let (state, action) = auth_step(state, AuthEvent::PasswordOk);
    assert_eq!(state, AuthState::Authenticated);
    assert_eq!(action, AuthAction::Proceed);
}

#[test]
fn ping_reaches_remote_and_echoes_back() {
    let ping: Vec<u8> = b"PING".to_vec();
    let (remote_received, local_to_remote) = pump_payload(&ping, COPY_BUFFER_LEN);
    assert_eq!(remote_received, ping);
    assert_eq!(
        local_to_remote.stop_reason(),
        Some(StopReason::SourceClosed)
    );
    let (client_received, _remote_to_local) = pump_payload(&remote_received, COPY_BUFFER_LEN);
    assert_eq!(client_received, b"PING".to_vec());
}

#[test]
fn chunks_split_on_buffer_boundary() {
    let payload: Vec<u8> = vec![7u8; 2000];
    let chunks = split_into_chunks(&payload, 1024);
    assert_eq!(chunks.len(), 2);
    assert_eq!(chunks[0].len(), 1024);
    assert_eq!(chunks[1].len(), 976);
    let rebuilt: Vec<u8> = chunks.concat();
    assert_eq!(rebuilt, payload);
}

#[test]
fn empty_payload_yields_no_chunks() {
    let chunks = split_into_chunks(&Vec::new(), 1024);
    assert!(chunks.is_empty());
}

#[test]
fn short_payload_is_one_chunk() {
    let chunks = split_into_chunks(&b"PING".to_vec(), 1024);
    assert_eq!(chunks.len(), 1);
    assert_eq!(chunks[0], b"PING".to_vec());
}

#[test]
fn stream_of_chunks_is_delivered_in_order() {
    let chunks = vec![b"one".to_vec(), b"two".to_vec(), b"three".to_vec()];
    let (delivered, pump) = pump_stream(chunks);
    assert_eq!(delivered, b"onetwothree".to_vec());
    assert!(pump.is_stopped());
}

#[test]
fn concurrent_connections_stay_unmixed() {
    let payload_a: Vec<u8> = vec![b'A'; 2000];
    let payload_b: Vec<u8> = vec![b'B'; 2000];
    let chunks_a = split_into_chunks(&payload_a, 1024);
    let chunks_b = split_into_chunks(&payload_b, 1024);
    assert!(chunks_a.len() > 1 && chunks_b.len() > 1);

    // Interleave the two connections' pump steps, as concurrent scheduling
    // would, and collect what each remote side receives.
    let mut pump_a = DirectionPump::new();
    let mut pump_b = DirectionPump::new();
    let mut remote_a: Vec<u8> = Vec::new();
    let mut remote_b: Vec<u8> = Vec::new();
    let steps: Vec<(bool, Vec<u8>)> = chunks_a
        .into_iter()
        .map(|c| (true, c))
        .zip(chunks_b.into_iter().map(|c| (false, c)))
        .flat_map(|(a, b)| vec![a, b])
        .collect();
    for (is_a, chunk) in steps {
        let (pump, remote) = if is_a {
            (&mut pump_a, &mut remote_a)
        } else {
            (&mut pump_b, &mut remote_b)
        };
        match pump.on_read(ReadOutcome::Data(chunk)) {
            PumpCommand::Forward(bytes) => {
                remote.extend_from_slice(&bytes);
                pump.on_write_result(true);
            }
            _ => panic!("a non-empty chunk must be forwarded"),
        }
    }
    pump_a.on_read(ReadOutcome::Data(Vec::new()));
    pump_b.on_read(ReadOutcome::Data(Vec::new()));
    assert_eq!(remote_a, payload_a);
    assert_eq!(remote_b, payload_b);
    assert!(pump_a.is_stopped() && pump_b.is_stopped());
}

#[test]
fn local_close_stops_only_that_direction() {
    let mut local_to_remote = DirectionPump::new();
    let mut remote_to_local = DirectionPump::new();
    let command = local_to_remote.on_read(ReadOutcome::Data(Vec::new()));
    assert!(matches!(
        command,
        PumpCommand::Stop(StopReason::SourceClosed)
    ));
    assert!(local_to_remote.is_stopped());
    assert_eq!(
        local_to_remote.stop_reason(),
        Some(StopReason::SourceClosed)
    );
    // The opposite direction keeps forwarding.
    match remote_to_local.on_read(ReadOutcome::Data(b"still".to_vec())) {
        PumpCommand::Forward(bytes) => {
            assert_eq!(bytes, b"still".to_vec());
            remote_to_local.on_write_result(true);
        }
        _ => panic!("the other direction must keep forwarding"),
    }
    assert!(!remote_to_local.is_stopped());
    // An unrelated connection's pump is untouched as well.
    let other_connection = DirectionPump::new();
    assert!(!other_connection.is_stopped());
}

#[test]
fn write_failure_stops_the_direction() {
    let mut pump = DirectionPump::new();
    match pump.on_read(ReadOutcome::Data(b"data".to_vec())) {
        PumpCommand::Forward(_) => pump.on_write_result(false),
        _ => panic!("a non-empty chunk must be forwarded"),
    }
    assert!(pump.is_stopped());
    assert_eq!(pump.stop_reason(), Some(StopReason::WriteFailed));
}

#[test]
fn read_error_stops_the_direction() {
    let mut pump = DirectionPump::new();
    let command = pump.on_read(ReadOutcome::Failed);
    assert!(matches!(command, PumpCommand::Stop(StopReason::ReadFailed)));
    assert!(pump.is_stopped());
}

#[test]
fn timeout_is_retried_not_fatal() {
    let mut pump = DirectionPump::new();
    let command = pump.on_read(ReadOutcome::TimedOut);
    assert!(matches!(command, PumpCommand::Retry));
    assert!(!pump.is_stopped());
    // Data after a timeout is still forwarded unchanged.
    match pump.on_read(ReadOutcome::Data(b"late".to_vec())) {
        PumpCommand::Forward(bytes) => assert_eq!(bytes, b"late".to_vec()),
        _ => panic!("data after a timeout must be forwarded"),
    }
}

#[test]
fn timeout_restored_only_after_both_directions_finish() {
    let (mut lifecycle, active_timeout) = ConnectionLifecycle::start();
    assert_eq!(active_timeout, ACTIVE_SESSION_TIMEOUT_MS);
    assert_eq!(lifecycle.direction_finished(Direction::LocalToRemote), None);
    assert_eq!(
        lifecycle.direction_finished(Direction::RemoteToLocal),
        Some(IDLE_SESSION_TIMEOUT_MS)
    );

    let (mut lifecycle, _) = ConnectionLifecycle::start();
    assert_eq!(lifecycle.direction_finished(Direction::RemoteToLocal), None);
    assert_eq!(
        lifecycle.direction_finished(Direction::LocalToRemote),
        Some(IDLE_SESSION_TIMEOUT_MS)
    );
}

#[test]
fn timeout_policy_values() {
    assert_eq!(ACTIVE_SESSION_TIMEOUT_MS, 20);
    assert_eq!(IDLE_SESSION_TIMEOUT_MS, 3000);
    assert_eq!(COPY_BUFFER_LEN, 1024);
}
