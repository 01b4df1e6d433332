use raw_speed::connection::client_plan;
use raw_speed::connection::server_plan;
use raw_speed::connection::ClientPlan;
use raw_speed::connection::Flow;
use raw_speed::connection::Handle;
use raw_speed::connection::ServerPlan;
use raw_speed::connection::ServerState;
use raw_speed::mode::Mode;
use raw_speed::protocol::encode_handshake;
use raw_speed::protocol::HandshakeError;

#[test]
fn client_with_one_direction_keeps_the_primary_handle() {
    assert_eq!(
        client_plan(Mode::up()),
        Some(ClientPlan { upstream: Some(Handle::Primary), downstream: None })
    );
    assert_eq!(
        client_plan(Mode::down()),
        Some(ClientPlan { upstream: None, downstream: Some(Handle::Primary) })
    );
}

#[test]
fn client_with_both_directions_duplicates_for_upstream() {
    assert_eq!(
        client_plan(Mode::both()),
        Some(ClientPlan { upstream: Some(Handle::Duplicate), downstream: Some(Handle::Primary) })
    );
}

#[test]
fn client_has_no_plan_for_the_empty_mode() {
    assert_eq!(client_plan(Mode::empty()), None);
}

#[test]
fn server_receives_upstream_and_sends_downstream() {
    assert_eq!(server_plan(Mode::up()), Some(ServerPlan { inline: Flow::Receive, spawned: None }));
    assert_eq!(server_plan(Mode::down()), Some(ServerPlan { inline: Flow::Send, spawned: None }));
}

#[test]
fn server_with_both_directions_receives_on_a_second_task() {
    assert_eq!(
        server_plan(Mode::both()),
        Some(ServerPlan { inline: Flow::Send, spawned: Some(Flow::Receive) })
    );
}

#[test]
fn server_has_no_plan_for_the_empty_mode() {
    assert_eq!(server_plan(Mode::empty()), None);
}

#[test]
fn server_reads_four_bytes_then_one() {
    let state = ServerState::start();
    assert_eq!(state, ServerState::ExpectMagic);
    assert_eq!(state.wants(), 4);
    let state = state.receive(b"SPED");
    assert_eq!(state, ServerState::ExpectMode);
    assert_eq!(state.wants(), 1);
    let state = state.receive(&[3]);
    assert_eq!(state, ServerState::Streaming(Mode::both()));
    assert_eq!(state.wants(), 0);
    assert_eq!(state.plan(), server_plan(Mode::both()));
    let state = state.finish();
    assert_eq!(state, ServerState::Closed);
    assert_eq!(state.wants(), 0);
    assert_eq!(state.plan(), None);
}

#[test]
fn server_follows_an_encoded_handshake() {
    for mode in [Mode::up(), Mode::down(), Mode::both()] {
        let frame = encode_handshake(mode);
        let state = ServerState::start().receive(&frame[..4]).receive(&frame[4..]);
        assert_eq!(state, ServerState::Streaming(mode));
    }
}

#[test]
fn server_turns_down_a_wrong_token_and_reads_no_more() {
    let state = ServerState::start().receive(b"SPEX");
    assert_eq!(state, ServerState::Faulted(HandshakeError::BadMagic));
    assert_eq!(state.wants(), 0);
    assert_eq!(state.plan(), None);
    assert_eq!(state.receive(&[1]), state);
    assert_eq!(state.finish(), state);
}

#[test]
fn server_turns_down_a_token_of_the_wrong_length() {
    assert_eq!(ServerState::start().receive(b"SPE"), ServerState::Faulted(HandshakeError::BadMagic));
    assert_eq!(
        ServerState::start().receive(b"SPEDX"),
        ServerState::Faulted(HandshakeError::BadMagic)
    );
    assert_eq!(ServerState::start().receive(&[]), ServerState::Faulted(HandshakeError::BadMagic));
}

#[test]
fn server_turns_down_an_empty_or_unknown_mode() {
    let ready = ServerState::start().receive(b"SPED");
    assert_eq!(ready.receive(&[0]), ServerState::Faulted(HandshakeError::InvalidMode));
    assert_eq!(ready.receive(&[4]), ServerState::Faulted(HandshakeError::InvalidMode));
    assert_eq!(ready.receive(&[0x83]), ServerState::Faulted(HandshakeError::InvalidMode));
    assert_eq!(ready.receive(&[]), ServerState::Faulted(HandshakeError::InvalidMode));
    assert_eq!(ready.receive(&[1, 2]), ServerState::Faulted(HandshakeError::InvalidMode));
}

#[test]
fn streaming_and_closed_ignore_input() {
    let streaming = ServerState::Streaming(Mode::up());
    assert_eq!(streaming.receive(b"SPED"), streaming);
    assert_eq!(ServerState::Closed.receive(b"SPED"), ServerState::Closed);
    assert_eq!(ServerState::ExpectMagic.finish(), ServerState::ExpectMagic);
    assert_eq!(ServerState::ExpectMode.finish(), ServerState::ExpectMode);
}
