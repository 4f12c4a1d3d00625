use fling::crypto::SharedSecret;
use fling::error::FlingError;
use fling::fsm::receiver_fsm::{ReceiverAction, ReceiverEvent, ReceiverState};
use fling::bluetooth::discovery::DeviceInfo;
use fling::fsm::sender_fsm::SenderState;
use fling::fsm::Session;
use fling::tunnel::transfer::Role;

fn key_bytes() -> Vec<u8> {
    (0u8..32).collect()
}

fn identity() -> ReceiverEvent {
    ReceiverEvent::Identity("laptop".to_string(), Some("AA:BB:CC:DD:EE:FF".to_string()))
}

fn joining() -> ReceiverState {
    ReceiverState::start()
        .advance(ReceiverEvent::Discoverable)
        .advance(ReceiverEvent::KeyReceived(key_bytes()))
        .advance(identity())
}

#[test]
fn receiver_starts_by_listening() {
    let state = ReceiverState::start();
    assert!(matches!(state, ReceiverState::Listening));
    assert!(!state.is_terminal());
    assert!(matches!(state.next_action(), ReceiverAction::BecomeDiscoverable));
}

#[test]
fn receiver_walks_through_every_state() {
    let mut state = ReceiverState::start();
    state = state.advance(ReceiverEvent::Discoverable);
    assert!(matches!(state, ReceiverState::ExchangingKey));
    assert!(matches!(state.next_action(), ReceiverAction::ConsumeKey));

    state = state.advance(ReceiverEvent::KeyReceived(key_bytes()));
    assert!(matches!(&state, ReceiverState::DerivingCredentials(secret) if secret.as_bytes() == key_bytes()));
    assert!(matches!(state.next_action(), ReceiverAction::ReadIdentity));

    state = state.advance(identity());
    match &state {
        ReceiverState::JoiningNetwork(credentials) => {
            assert_eq!(credentials.password, "fling-la-1b1c1d1e1f");
            assert_eq!(credentials.ssid, "fling-laptop-eeff-1f");
        }
        other => panic!("unexpected state {:?}", other),
    }
    assert!(matches!(
        state.next_action(),
        ReceiverAction::JoinNetwork(credentials) if credentials.ssid == "fling-laptop-eeff-1f"
    ));

    state = state.advance(ReceiverEvent::Joined(true));
    assert!(matches!(state, ReceiverState::Receiving));
    assert!(matches!(state.next_action(), ReceiverAction::ReceiveFile));

    state = state.advance(ReceiverEvent::FileReceived);
    assert!(matches!(state, ReceiverState::ReceiveSuccess));
    assert!(state.is_terminal());
    assert_eq!(state.exit_code(), 0);
    assert!(matches!(state.next_action(), ReceiverAction::Teardown));
}

#[test]
fn a_secret_is_taken_while_listening() {
    let state = ReceiverState::start().advance(ReceiverEvent::KeyReceived(key_bytes()));
    assert!(matches!(state, ReceiverState::DerivingCredentials(_)));
}

#[test]
fn key_exchange_timeout_fails_the_connection() {
    let state = ReceiverState::start()
        .advance(ReceiverEvent::Discoverable)
        .advance(ReceiverEvent::Failed(FlingError::DiscoveryTimeout));
    assert!(matches!(state, ReceiverState::ConnectionFailed));
    assert!(state.is_terminal());
    assert_eq!(state.exit_code(), 1);
    assert!(matches!(state.next_action(), ReceiverAction::Teardown));
    let state = state.advance(ReceiverEvent::KeyReceived(key_bytes()));
    assert!(matches!(state, ReceiverState::ConnectionFailed));
}

#[test]
fn failure_while_listening_fails_the_connection() {
    let state = ReceiverState::start().advance(ReceiverEvent::Failed(FlingError::AdapterUnavailable));
    assert!(matches!(state, ReceiverState::ConnectionFailed));
}

#[test]
fn bytes_of_the_wrong_length_are_no_secret() {
    for len in [0usize, 1, 31, 33, 64] {
        let state = ReceiverState::start()
            .advance(ReceiverEvent::Discoverable)
            .advance(ReceiverEvent::KeyReceived(vec![1u8; len]));
        assert!(matches!(state, ReceiverState::ConnectionFailed));
    }
}

#[test]
fn missing_adapter_address_fails_the_connection() {
    let state = ReceiverState::start()
        .advance(ReceiverEvent::KeyReceived(key_bytes()))
        .advance(ReceiverEvent::Identity("laptop".to_string(), None));
    assert!(matches!(state, ReceiverState::ConnectionFailed));
}

#[test]
fn refused_join_fails_the_connection() {
    let state = joining().advance(ReceiverEvent::Joined(false));
    assert!(matches!(state, ReceiverState::ConnectionFailed));
    assert!(matches!(state.next_action(), ReceiverAction::Teardown));
    let state = state.advance(ReceiverEvent::FileReceived);
    assert!(matches!(state, ReceiverState::ConnectionFailed));
}

#[test]
fn failure_during_the_transfer_is_a_receive_failure() {
    let state = joining()
        .advance(ReceiverEvent::Joined(true))
        .advance(ReceiverEvent::Failed(FlingError::TransferIOError));
    assert!(matches!(state, ReceiverState::ReceiveFailed));
    assert!(state.is_terminal());
    assert_eq!(state.exit_code(), 1);
}

#[test]
fn receiver_event_out_of_turn_fails_the_session() {
    assert!(matches!(
        ReceiverState::start().advance(ReceiverEvent::FileReceived),
        ReceiverState::ConnectionFailed
    ));
    assert!(matches!(joining().advance(ReceiverEvent::Discoverable), ReceiverState::ConnectionFailed));
    assert!(matches!(
        joining().advance(ReceiverEvent::Joined(true)).advance(ReceiverEvent::Joined(true)),
        ReceiverState::ReceiveFailed
    ));
}

#[test]
fn session_knows_its_role_and_what_it_holds() {
    let sending = Session::sender();
    assert_eq!(sending.role(), Role::Sender);
    assert!(sending.peer().is_none());
    assert!(sending.credentials().is_none());
    assert!(sending.secret().is_none());
    assert!(!sending.is_terminal());
    assert_eq!(sending.exit_code(), 1);

    let receiving = Session::receiver();
    assert_eq!(receiving.role(), Role::Receiver);
    assert!(receiving.secret().is_none());

    let offering = Session::Sending(SenderState::ExchangingKey(
        DeviceInfo::new(Some("laptop".to_string()), "AA:BB:CC:DD:EE:FF".to_string()),
        SharedSecret::from_bytes(key_bytes()).unwrap(),
    ));
    assert_eq!(offering.secret().unwrap().as_bytes(), key_bytes().as_slice());
    assert_eq!(offering.peer().unwrap().name, "laptop");
    assert!(offering.credentials().is_none());

    let holding = Session::Receiving(ReceiverState::DerivingCredentials(
        SharedSecret::from_bytes(key_bytes()).unwrap(),
    ));
    assert_eq!(holding.secret().unwrap().as_bytes(), key_bytes().as_slice());
    assert!(holding.peer().is_none());

    let joining = Session::Receiving(joining());
    assert_eq!(joining.credentials().unwrap().ssid, "fling-laptop-eeff-1f");
    assert!(joining.secret().is_none());

    let finished = Session::Receiving(ReceiverState::ReceiveSuccess);
    assert!(finished.is_terminal());
    assert_eq!(finished.exit_code(), 0);
}
