use fling::bluetooth::discovery::DeviceInfo;
use fling::crypto::{NetworkCredentials, SharedSecret};
use fling::error::FlingError;
use fling::fsm::sender_fsm::{SenderAction, SenderEvent, SenderState, SCAN_WINDOW_SECS};

fn device(name: &str, address: &str) -> DeviceInfo {
    DeviceInfo { name: name.to_string(), address: address.to_string() }
}

fn secret() -> SharedSecret {
    SharedSecret::from_bytes((0u8..32).collect()).unwrap()
}

fn failures() -> Vec<FlingError> {
    vec![
        FlingError::AdapterUnavailable,
        FlingError::DiscoveryTimeout,
        FlingError::ConnectionFailed,
        FlingError::AuthenticationFailed,
        FlingError::ProtocolMismatch,
        FlingError::NetworkFormationFailed,
        FlingError::NetworkJoinFailed,
        FlingError::PeerJoinTimeout,
        FlingError::TransferIOError,
    ]
}

fn forming_network() -> SenderState {
    SenderState::start()
        .advance(SenderEvent::Scanned(vec![device("laptop", "AA:BB:CC:DD:EE:FF")], None))
        .advance_with(SenderEvent::Connected, secret())
        .advance(SenderEvent::KeyPublished)
}

#[test]
fn sender_starts_by_scanning() {
    let state = SenderState::start();
    assert!(matches!(state, SenderState::Scanning));
    assert!(!state.is_terminal());
    assert!(matches!(state.next_action(), SenderAction::Scan(window) if window == SCAN_WINDOW_SECS));
    assert_eq!(SCAN_WINDOW_SECS, 5);
}

#[test]
fn empty_scan_ends_in_no_devices_found() {
    let state = SenderState::start().advance(SenderEvent::Scanned(Vec::new(), None));
    assert!(matches!(state, SenderState::NoDevicesFound));
    assert!(state.is_terminal());
    assert!(matches!(state.next_action(), SenderAction::Teardown));
    assert_eq!(state.exit_code(), 1);
}

#[test]
fn empty_scan_with_a_choice_still_finds_no_devices() {
    let state = SenderState::start().advance(SenderEvent::Scanned(Vec::new(), Some(0)));
    assert!(matches!(state, SenderState::NoDevicesFound));
}

#[test]
fn failed_scan_ends_in_no_devices_found() {
    for error in failures() {
        let state = SenderState::start().advance(SenderEvent::Failed(error));
        assert!(matches!(state, SenderState::NoDevicesFound));
    }
}

#[test]
fn no_devices_found_stays_whatever_follows() {
    let mut state = SenderState::start().advance(SenderEvent::Scanned(Vec::new(), None));
    state = state.advance(SenderEvent::Scanned(vec![device("late", "01:02:03:04:05:06")], Some(0)));
    assert!(matches!(state, SenderState::NoDevicesFound));
    state = state.advance(SenderEvent::Connected);
    assert!(matches!(state, SenderState::NoDevicesFound));
    state = state.advance(SenderEvent::FileSent);
    assert!(matches!(state, SenderState::NoDevicesFound));
}

#[test]
fn scan_picks_the_chosen_device() {
    let devices = vec![
        device("one", "00:00:00:00:00:01"),
        device("two", "00:00:00:00:00:02"),
        device("three", "00:00:00:00:00:03"),
    ];
    let state = SenderState::start().advance(SenderEvent::Scanned(devices, Some(1)));
    match state {
        SenderState::Connecting(peer) => {
            assert_eq!(peer.name, "two");
            assert_eq!(peer.address, "00:00:00:00:00:02");
        }
        other => panic!("unexpected state {:?}", other),
    }
}

#[test]
fn scan_without_a_usable_choice_picks_the_first_device() {
    let devices = || vec![device("one", "00:00:00:00:00:01"), device("two", "00:00:00:00:00:02")];
    for choice in [None, Some(2), Some(usize::MAX)] {
        let state = SenderState::start().advance(SenderEvent::Scanned(devices(), choice));
        assert!(matches!(state, SenderState::Connecting(peer) if peer.name == "one"));
    }
}

#[test]
fn sender_walks_through_every_state() {
    let mut state = SenderState::start();
    state = state.advance(SenderEvent::Scanned(vec![device("laptop", "AA:BB:CC:DD:EE:FF")], Some(0)));
    assert!(matches!(&state, SenderState::Connecting(peer) if peer.name == "laptop"));
    assert!(matches!(state.next_action(), SenderAction::Connect(peer) if peer.address == "AA:BB:CC:DD:EE:FF"));

    state = state.advance_with(SenderEvent::Connected, secret());
    assert!(matches!(
        &state,
        SenderState::ExchangingKey(peer, held) if peer.name == "laptop" && held.as_bytes() == secret().as_bytes()
    ));
    match state.next_action() {
        SenderAction::PublishKey(offered, peer) => {
            assert_eq!(offered.as_bytes(), secret().as_bytes());
            assert_eq!(peer.address, "AA:BB:CC:DD:EE:FF");
        }
        _ => panic!("expected the key to be published"),
    }

    state = state.advance(SenderEvent::KeyPublished);
    match &state {
        SenderState::FormingNetwork(peer, credentials) => {
            assert_eq!(peer.name, "laptop");
            assert_eq!(credentials.password, "fling-la-1b1c1d1e1f");
            assert_eq!(credentials.ssid, "fling-laptop-eeff-1f");
        }
        other => panic!("unexpected state {:?}", other),
    }
    assert!(matches!(
        state.next_action(),
        SenderAction::CreateNetwork(credentials) if credentials.ssid == "fling-laptop-eeff-1f"
    ));

    state = state.advance(SenderEvent::NetworkCreated);
    assert!(matches!(&state, SenderState::AwaitingPeerJoin(peer) if peer.name == "laptop"));
    assert!(matches!(state.next_action(), SenderAction::AwaitPeer));

    state = state.advance(SenderEvent::PeerJoined);
    assert!(matches!(state, SenderState::Sending));
    assert!(matches!(state.next_action(), SenderAction::SendFile));
    assert!(!state.is_terminal());

    state = state.advance(SenderEvent::FileSent);
    assert!(matches!(state, SenderState::SendSuccess));
    assert!(state.is_terminal());
    assert_eq!(state.exit_code(), 0);
    assert!(matches!(state.next_action(), SenderAction::Teardown));
}

#[test]
fn a_session_takes_on_one_fresh_secret() {
    let state = SenderState::start()
        .advance(SenderEvent::Scanned(vec![device("laptop", "AA:BB:CC:DD:EE:FF")], None))
        .advance(SenderEvent::Connected);
    let held = match &state {
        SenderState::ExchangingKey(_, held) => held.as_bytes().to_vec(),
        other => panic!("unexpected state {:?}", other),
    };
    assert_eq!(held.len(), 32);
    for _ in 0..3 {
        match state.next_action() {
            SenderAction::PublishKey(offered, peer) => {
                assert_eq!(offered.as_bytes(), held.as_slice());
                assert_eq!(peer.name, "laptop");
            }
            _ => panic!("expected the key to be published"),
        }
    }
    let derived = NetworkCredentials::derive("laptop", &held, "AA:BB:CC:DD:EE:FF");
    match state.advance(SenderEvent::KeyPublished) {
        SenderState::FormingNetwork(_, credentials) => {
            assert_eq!(credentials.ssid, derived.ssid);
            assert_eq!(credentials.password, derived.password);
        }
        other => panic!("unexpected state {:?}", other),
    }
}

#[test]
fn two_sessions_take_on_different_secrets() {
    let exchanging = || {
        SenderState::start()
            .advance(SenderEvent::Scanned(vec![device("laptop", "AA:BB:CC:DD:EE:FF")], None))
            .advance(SenderEvent::Connected)
    };
    match (exchanging(), exchanging()) {
        (SenderState::ExchangingKey(_, one), SenderState::ExchangingKey(_, other)) => {
            assert_ne!(one.as_bytes(), other.as_bytes());
        }
        _ => panic!("expected two key exchanges"),
    }
}

#[test]
fn a_secret_that_comes_too_early_or_too_late_is_dropped() {
    let state = SenderState::start().advance_with(
        SenderEvent::Scanned(vec![device("laptop", "AA:BB:CC:DD:EE:FF")], None),
        SharedSecret::from_bytes(vec![9u8; 32]).unwrap(),
    );
    assert!(matches!(state, SenderState::Connecting(_)));
    let state = state.advance_with(SenderEvent::Connected, secret());
    let state = state.advance_with(SenderEvent::KeyPublished, SharedSecret::from_bytes(vec![9u8; 32]).unwrap());
    assert!(matches!(
        state,
        SenderState::FormingNetwork(_, credentials) if credentials.password == "fling-la-1b1c1d1e1f"
    ));
}

#[test]
fn failure_before_the_transfer_is_a_connection_failure() {
    let connecting = || {
        SenderState::start().advance(SenderEvent::Scanned(vec![device("laptop", "AA:BB:CC:DD:EE:FF")], None))
    };
    for error in failures() {
        assert!(matches!(connecting().advance(SenderEvent::Failed(error)), SenderState::ConnectionFailed));
        assert!(matches!(
            connecting().advance(SenderEvent::Connected).advance(SenderEvent::Failed(error)),
            SenderState::ConnectionFailed
        ));
        assert!(matches!(forming_network().advance(SenderEvent::Failed(error)), SenderState::ConnectionFailed));
        assert!(matches!(
            forming_network().advance(SenderEvent::NetworkCreated).advance(SenderEvent::Failed(error)),
            SenderState::ConnectionFailed
        ));
    }
}

#[test]
fn failure_during_the_transfer_is_a_send_failure() {
    for error in failures() {
        let state = forming_network()
            .advance(SenderEvent::NetworkCreated)
            .advance(SenderEvent::PeerJoined)
            .advance(SenderEvent::Failed(error));
        assert!(matches!(state, SenderState::SendFailed));
        assert!(state.is_terminal());
        assert_eq!(state.exit_code(), 1);
    }
}

#[test]
fn an_event_out_of_turn_fails_the_session() {
    let state = SenderState::start()
        .advance(SenderEvent::Scanned(vec![device("laptop", "AA:BB:CC:DD:EE:FF")], None))
        .advance(SenderEvent::FileSent);
    assert!(matches!(state, SenderState::ConnectionFailed));
    let state = forming_network().advance(SenderEvent::PeerJoined);
    assert!(matches!(state, SenderState::ConnectionFailed));
    let state = SenderState::start().advance(SenderEvent::Connected);
    assert!(matches!(state, SenderState::NoDevicesFound));
}

#[test]
fn terminal_states_do_not_move() {
    let done = forming_network()
        .advance(SenderEvent::NetworkCreated)
        .advance(SenderEvent::PeerJoined)
        .advance(SenderEvent::FileSent);
    let done = done.advance(SenderEvent::Failed(FlingError::TransferIOError));
    assert!(matches!(done, SenderState::SendSuccess));
    let failed = forming_network().advance(SenderEvent::Failed(FlingError::NetworkFormationFailed));
    let failed = failed.advance(SenderEvent::NetworkCreated);
    assert!(matches!(failed, SenderState::ConnectionFailed));
}

#[test]
fn sender_credentials_match_the_derivation() {
    let derived = NetworkCredentials::derive("laptop", secret().as_bytes(), "AA:BB:CC:DD:EE:FF");
    match forming_network() {
        SenderState::FormingNetwork(_, credentials) => {
            assert_eq!(credentials.ssid, derived.ssid);
            assert_eq!(credentials.password, derived.password);
        }
        other => panic!("unexpected state {:?}", other),
    }
}

#[test]
fn a_peer_without_a_well_formed_address_fails_the_connection() {
    for address in ["", "laptop", "AA:BB:CC:DD:EE", "AA:BB:CC:DD:EE:FF:00", "GG:BB:CC:DD:EE:FF", "AA-BB-CC-DD-EE-FF"] {
        let state = SenderState::start()
            .advance(SenderEvent::Scanned(vec![device("laptop", address)], None))
            .advance(SenderEvent::Connected);
        assert!(matches!(state, SenderState::ConnectionFailed), "{:?}", address);
    }
}

#[test]
fn an_address_is_read_as_six_bytes() {
    assert_eq!(
        device("laptop", "AA:BB:CC:DD:EE:FF").link_address(),
        Some([0xaa, 0xbb, 0xcc, 0xdd, 0xee, 0xff])
    );
    assert_eq!(
        device("laptop", "00:1a:7d:DA:71:13").link_address(),
        Some([0x00, 0x1a, 0x7d, 0xda, 0x71, 0x13])
    );
    assert_eq!(device("laptop", "AA:BB:CC:DD:EE").link_address(), None);
    assert_eq!(device("laptop", "").link_address(), None);
    assert_eq!(device("laptop", "AA:BB:CC:DD:EE:FG").link_address(), None);
}

#[test]
fn the_exchange_starts_only_with_an_address() {
    let peer = device("laptop", "AA:BB:CC:DD:EE:FF");
    assert!(matches!(
        SenderState::begin_exchange(peer.clone(), secret(), Some([1, 2, 3, 4, 5, 6])),
        SenderState::ExchangingKey(held, fresh) if held.name == "laptop" && fresh.as_bytes() == secret().as_bytes()
    ));
    assert!(matches!(
        SenderState::begin_exchange(peer, secret(), None),
        SenderState::ConnectionFailed
    ));
}
