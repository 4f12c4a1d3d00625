use fling::bluetooth::discovery::DeviceInfo;
use fling::bluetooth::key_exchange::{
    ConsumerAction, ConsumerEvent, ConsumerState, ExchangeIds, KeyPublisher,
};
use fling::crypto::NetworkCredentials;
use fling::error::FlingError;
use fling::fsm::receiver_fsm::{ReceiverAction, ReceiverEvent, ReceiverState};
use fling::fsm::sender_fsm::{SenderAction, SenderEvent, SenderState};
use fling::linux::connection::{wait_for_receiver, PeerWait};
use fling::tunnel::connection::{
    cleanup_wifi, create_wifi_direct_network, creation_plan, join_plan, join_wifi_direct_network,
};
use fling::tunnel::transfer::{receive_file, send_file, TransferAction, TransferEvent, BUF_SIZE, OUTPUT_DIR};

/// A stand-in for the air between two hosts: what one side offers over
/// Bluetooth and sends over the network, the other side finds there.
struct Air {
    devices: Vec<DeviceInfo>,
    offered: Option<KeyPublisher>,
    network: Option<NetworkCredentials>,
    join_succeeds: bool,
    wire: Vec<u8>,
    scans: u32,
    networks_created: u32,
    joins: u32,
    files_sent: u32,
    files_received: u32,
    teardowns: u32,
}

fn air(devices: Vec<DeviceInfo>) -> Air {
    Air {
        devices,
        offered: None,
        network: None,
        join_succeeds: true,
        wire: Vec::new(),
        scans: 0,
        networks_created: 0,
        joins: 0,
        files_sent: 0,
        files_received: 0,
        teardowns: 0,
    }
}

fn receiver_device() -> DeviceInfo {
    DeviceInfo { name: "laptop".to_string(), address: "AA:BB:CC:DD:EE:FF".to_string() }
}

fn stream_out(path: &str, payload: &[u8], wire: &mut Vec<u8>) -> Result<u64, FlingError> {
    let mut buffer = vec![0u8; BUF_SIZE];
    let mut offset = 0;
    let (mut record, mut action) = send_file(path, 0);
    loop {
        let event = match action {
            TransferAction::Bind(_) | TransferAction::Archive | TransferAction::Accept => TransferEvent::Completed,
            TransferAction::Open => TransferEvent::Opened(Some(payload.len() as u64)),
            TransferAction::Read(most) => {
                let n = most.min(payload.len() - offset);
                buffer[..n].copy_from_slice(&payload[offset..offset + n]);
                offset += n;
                TransferEvent::Read(n)
            }
            TransferAction::Write(n) => {
                wire.extend_from_slice(&buffer[..n]);
                TransferEvent::Completed
            }
            TransferAction::Stop => return record.outcome().unwrap(),
            _ => TransferEvent::Failed,
        };
        action = record.step(event);
    }
}

fn stream_in(wire: &[u8], file: &mut Vec<u8>) -> Result<u64, FlingError> {
    let mut buffer = vec![0u8; BUF_SIZE];
    let mut offset = 0;
    let (mut record, mut action) = receive_file(OUTPUT_DIR, 0);
    loop {
        let event = match action {
            TransferAction::Settle(_)
            | TransferAction::Dial(_)
            | TransferAction::Create
            | TransferAction::Flush
            | TransferAction::Unpack => TransferEvent::Completed,
            TransferAction::Read(most) => {
                let n = most.min(wire.len() - offset);
                buffer[..n].copy_from_slice(&wire[offset..offset + n]);
                offset += n;
                TransferEvent::Read(n)
            }
            TransferAction::Write(n) => {
                file.extend_from_slice(&buffer[..n]);
                TransferEvent::Completed
            }
            TransferAction::Stop => return record.outcome().unwrap(),
            _ => TransferEvent::Failed,
        };
        action = record.step(event);
    }
}

/// Drives a sending session against the stand-in until the secret is on
/// offer, then returns so that the receiver can read it.
fn sender_until_offer(air: &mut Air) -> SenderState {
    let mut state = SenderState::start();
    loop {
        let event = match state.next_action() {
            SenderAction::Scan(_) => {
                air.scans += 1;
                SenderEvent::Scanned(air.devices.clone(), Some(0))
            }
            SenderAction::Connect(_) => SenderEvent::Connected,
            SenderAction::PublishKey(secret, peer) => {
                air.offered = Some(KeyPublisher::new(secret, Some(peer.address)));
                return state;
            }
            SenderAction::Teardown => {
                air.teardowns += 1;
                cleanup_wifi(&[true, true, true]);
                return state;
            }
            _ => panic!("the sender ran ahead of the key exchange"),
        };
        state = state.advance(event);
    }
}

/// Drives the rest of a sending session once the offer has ended.
fn sender_after_offer(mut state: SenderState, air: &mut Air, payload: &[u8]) -> SenderState {
    let mut publisher = air.offered.take().unwrap();
    let published = match publisher.poll().outcome() {
        Some(Ok(())) => SenderEvent::KeyPublished,
        Some(Err(error)) => SenderEvent::Failed(error),
        None => SenderEvent::Failed(FlingError::DiscoveryTimeout),
    };
    state = state.advance(published);
    loop {
        let event = match state.next_action() {
            SenderAction::CreateNetwork(credentials) => {
                air.networks_created += 1;
                let ran: Vec<bool> = creation_plan().iter().map(|_| true).collect();
                match create_wifi_direct_network(&credentials.ssid, &credentials.password, &ran) {
                    Ok(_) => {
                        air.network = Some(credentials);
                        SenderEvent::NetworkCreated
                    }
                    Err(error) => SenderEvent::Failed(error),
                }
            }
            SenderAction::AwaitPeer => {
                let table = "10.42.0.23 dev wlan0 lladdr aa:bb:cc:dd:ee:ff REACHABLE\n";
                match wait_for_receiver(0, table) {
                    PeerWait::Joined(_) => SenderEvent::PeerJoined,
                    _ => SenderEvent::Failed(FlingError::PeerJoinTimeout),
                }
            }
            SenderAction::SendFile => {
                air.files_sent += 1;
                match stream_out("big.bin", payload, &mut air.wire) {
                    Ok(_) => SenderEvent::FileSent,
                    Err(error) => SenderEvent::Failed(error),
                }
            }
            SenderAction::Teardown => {
                air.teardowns += 1;
                cleanup_wifi(&[true, true, true]);
                return state;
            }
            _ => panic!("the sender went back"),
        };
        state = state.advance(event);
    }
}

/// Reads the secret that is on offer, through the consumer's machine.
fn consume(air: &mut Air) -> Result<Vec<u8>, FlingError> {
    let ids = ExchangeIds::fixed().unwrap();
    let (mut state, mut action) = ConsumerState::start();
    loop {
        let event = match action {
            ConsumerAction::PowerOn => ConsumerEvent::Ready,
            ConsumerAction::AwaitEvent(_) => match air.offered {
                Some(_) => ConsumerEvent::DeviceSeen(vec![ids.service]),
                None => ConsumerEvent::StreamEnded,
            },
            ConsumerAction::Connect(_) => ConsumerEvent::Connected,
            ConsumerAction::CheckLink(_) => ConsumerEvent::LinkState(true),
            ConsumerAction::ListServices => ConsumerEvent::Services(vec![ids.service]),
            ConsumerAction::ListCharacteristics(_) => ConsumerEvent::Characteristics(vec![ids.characteristic]),
            ConsumerAction::Read(_) => match air.offered.as_mut().unwrap().handle_read("AA:BB:CC:DD:EE:FF") {
                Ok(bytes) => ConsumerEvent::Value(bytes),
                Err(_) => ConsumerEvent::Failed,
            },
            ConsumerAction::Disconnect => ConsumerEvent::Disconnected,
            ConsumerAction::Stop => return state.into_result().unwrap(),
        };
        let next = state.step(event, 0, &ids);
        state = next.0;
        action = next.1;
    }
}

/// Drives a receiving session against the stand-in up to the transfer.
fn receiver_until_transfer(air: &mut Air) -> (ReceiverState, Option<Vec<u8>>) {
    let mut state = ReceiverState::start();
    let mut secret = None;
    loop {
        let event = match state.next_action() {
            ReceiverAction::BecomeDiscoverable => ReceiverEvent::Discoverable,
            ReceiverAction::ConsumeKey => match consume(air) {
                Ok(bytes) => {
                    secret = Some(bytes.clone());
                    ReceiverEvent::KeyReceived(bytes)
                }
                Err(error) => ReceiverEvent::Failed(error),
            },
            ReceiverAction::ReadIdentity => {
                ReceiverEvent::Identity("laptop".to_string(), Some("AA:BB:CC:DD:EE:FF".to_string()))
            }
            ReceiverAction::JoinNetwork(_) | ReceiverAction::ReceiveFile => return (state, secret),
            ReceiverAction::Teardown => {
                air.teardowns += 1;
                return (state, secret);
            }
        };
        state = state.advance(event);
    }
}

/// Drives the rest of a receiving session: joining and receiving.
fn receiver_from_join(mut state: ReceiverState, air: &mut Air, file: &mut Vec<u8>) -> (ReceiverState, u64) {
    let mut moved = 0;
    loop {
        let event = match state.next_action() {
            ReceiverAction::JoinNetwork(credentials) => {
                air.joins += 1;
                let there = match &air.network {
                    Some(network) => {
                        network.ssid == credentials.ssid && network.password == credentials.password
                    }
                    None => false,
                };
                let ran: Vec<bool> = join_plan().iter().map(|_| there && air.join_succeeds).collect();
                ReceiverEvent::Joined(join_wifi_direct_network(&credentials.ssid, &credentials.password, &ran))
            }
            ReceiverAction::ReceiveFile => {
                air.files_received += 1;
                match stream_in(&air.wire, file) {
                    Ok(bytes) => {
                        moved = bytes;
                        ReceiverEvent::FileReceived
                    }
                    Err(error) => ReceiverEvent::Failed(error),
                }
            }
            ReceiverAction::Teardown => {
                air.teardowns += 1;
                return (state, moved);
            }
            _ => panic!("the receiver went back"),
        };
        state = state.advance(event);
    }
}

#[test]
fn scenario_ten_megabytes_go_through() {
    let payload: Vec<u8> = (0..10_000_000u32).map(|i| (i % 251) as u8).collect();
    let mut air = air(vec![receiver_device()]);

    let sender = sender_until_offer(&mut air);
    let offered = match &sender {
        SenderState::ExchangingKey(_, secret) => secret.as_bytes().to_vec(),
        other => panic!("unexpected state {:?}", other),
    };

    let (receiver, received) = receiver_until_transfer(&mut air);
    assert!(matches!(receiver, ReceiverState::JoiningNetwork(_)));
    assert_eq!(received, Some(offered));

    let sender = sender_after_offer(sender, &mut air, &payload);
    assert!(matches!(sender, SenderState::SendSuccess));
    assert_eq!(sender.exit_code(), 0);

    let mut file = Vec::new();
    let (receiver, moved) = receiver_from_join(receiver, &mut air, &mut file);
    assert!(matches!(receiver, ReceiverState::ReceiveSuccess));
    assert_eq!(receiver.exit_code(), 0);
    assert_eq!(moved, 10_000_000);
    assert_eq!(file.len(), 10_000_000);
    assert!(file == payload);

    assert_eq!(air.scans, 1);
    assert_eq!(air.networks_created, 1);
    assert_eq!(air.joins, 1);
    assert_eq!(air.files_sent, 1);
    assert_eq!(air.files_received, 1);
    assert_eq!(air.teardowns, 2);
}

#[test]
fn scenario_nobody_in_range() {
    let mut air = air(Vec::new());
    let sender = sender_until_offer(&mut air);
    assert!(matches!(sender, SenderState::NoDevicesFound));
    assert_eq!(sender.exit_code(), 1);
    assert_eq!(air.scans, 1);
    assert_eq!(air.networks_created, 0);
    assert_eq!(air.files_sent, 0);
    assert!(air.offered.is_none());
    assert!(air.network.is_none());
    assert_eq!(air.teardowns, 1);
}

#[test]
fn scenario_the_network_cannot_be_joined() {
    let payload = vec![7u8; 1000];
    let mut air = air(vec![receiver_device()]);
    air.join_succeeds = false;

    let sender = sender_until_offer(&mut air);
    let (receiver, received) = receiver_until_transfer(&mut air);
    assert!(matches!(receiver, ReceiverState::JoiningNetwork(_)));
    assert!(received.is_some());
    let sender = sender_after_offer(sender, &mut air, &payload);
    assert!(matches!(sender, SenderState::SendSuccess));

    let mut file = Vec::new();
    let (receiver, moved) = receiver_from_join(receiver, &mut air, &mut file);
    assert!(matches!(receiver, ReceiverState::ConnectionFailed));
    assert_eq!(receiver.exit_code(), 1);
    assert_eq!(air.joins, 1);
    assert_eq!(air.files_received, 0);
    assert_eq!(moved, 0);
    assert!(file.is_empty());
}

#[test]
fn scenario_the_key_exchange_times_out() {
    let mut air = air(Vec::new());
    let (receiver, secret) = receiver_until_transfer(&mut air);
    assert!(matches!(receiver, ReceiverState::ConnectionFailed));
    assert!(secret.is_none());
    assert_eq!(air.joins, 0);
    assert_eq!(air.files_received, 0);
    assert_eq!(air.teardowns, 1);
}

#[test]
fn scenario_a_stranger_cannot_read_the_secret() {
    let mut air = air(vec![DeviceInfo { name: "laptop".to_string(), address: "11:22:33:44:55:66".to_string() }]);
    let sender = sender_until_offer(&mut air);
    assert!(matches!(sender, SenderState::ExchangingKey(_, _)));
    assert_eq!(consume(&mut air), Err(FlingError::AuthenticationFailed));
    assert!(!air.offered.as_ref().unwrap().was_read());
}
