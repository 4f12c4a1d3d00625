//! The sender's state machine.

use crate::bluetooth::discovery::{address_of, parsed_address, peers_of, DeviceInfo, PeerView};
use crate::crypto::{credentials_for, CredentialsView, NetworkCredentials, SharedSecret, KEY_LEN};
use crate::error::FlingError;
use vstd::prelude::*;

verus! {

/// How long the sender scans for receivers, in seconds.
pub const SCAN_WINDOW_SECS: u64 = 5;

/// Where a sending session stands.
#[derive(Debug)]
pub enum SenderState {
    /// Looking for receivers nearby.
    Scanning,
    /// A receiver was picked; the Bluetooth link to it is being confirmed.
    Connecting(DeviceInfo),
    /// The session secret is on offer to the receiver.
    ExchangingKey(DeviceInfo, SharedSecret),
    /// The ephemeral network is being brought up.
    FormingNetwork(DeviceInfo, NetworkCredentials),
    /// The network is up; the receiver has yet to join it.
    AwaitingPeerJoin(DeviceInfo),
    /// The file is being streamed.
    Sending,
    /// Terminal: the file went out.
    SendSuccess,
    /// Terminal: the transfer broke.
    SendFailed,
    /// Terminal: nobody to send to.
    NoDevicesFound,
    /// Terminal: a step before the transfer failed.
    ConnectionFailed,
}

/// A [`SenderState`] with its texts as character sequences.
pub enum SenderStateView {
    Scanning,
    Connecting(PeerView),
    ExchangingKey(PeerView, Seq<u8>),
    FormingNetwork(PeerView, CredentialsView),
    AwaitingPeerJoin(PeerView),
    Sending,
    SendSuccess,
    SendFailed,
    NoDevicesFound,
    ConnectionFailed,
}

impl View for SenderState {
    type V = SenderStateView;

    open spec fn view(&self) -> SenderStateView {
        match *self {
            SenderState::Scanning => SenderStateView::Scanning,
            SenderState::Connecting(peer) => SenderStateView::Connecting(peer@),
            SenderState::ExchangingKey(peer, secret) => SenderStateView::ExchangingKey(peer@, secret@),
            SenderState::FormingNetwork(peer, credentials) => SenderStateView::FormingNetwork(
                peer@,
                credentials@,
            ),
            SenderState::AwaitingPeerJoin(peer) => SenderStateView::AwaitingPeerJoin(peer@),
            SenderState::Sending => SenderStateView::Sending,
            SenderState::SendSuccess => SenderStateView::SendSuccess,
            SenderState::SendFailed => SenderStateView::SendFailed,
            SenderState::NoDevicesFound => SenderStateView::NoDevicesFound,
            SenderState::ConnectionFailed => SenderStateView::ConnectionFailed,
        }
    }
}

/// What the driver reports once the operation of the current state is over.
pub enum SenderEvent {
    /// The scan is over. These devices were seen, and the operator picked
    /// the one at the given position.
    Scanned(Vec<DeviceInfo>, Option<usize>),
    /// The link to the chosen receiver stands.
    Connected,
    /// The receiver has read the secret.
    KeyPublished,
    /// The ephemeral network is up.
    NetworkCreated,
    /// The receiver has joined the network.
    PeerJoined,
    /// The whole file went out.
    FileSent,
    /// The operation failed.
    Failed(FlingError),
}

/// A [`SenderEvent`] with its texts as character sequences.
pub enum SenderEventView {
    Scanned(Seq<PeerView>, Option<usize>),
    Connected,
    KeyPublished,
    NetworkCreated,
    PeerJoined,
    FileSent,
    Failed(FlingError),
}

impl View for SenderEvent {
    type V = SenderEventView;

    open spec fn view(&self) -> SenderEventView {
        match *self {
            SenderEvent::Scanned(devices, choice) => SenderEventView::Scanned(peers_of(devices@), choice),
            SenderEvent::Connected => SenderEventView::Connected,
            SenderEvent::KeyPublished => SenderEventView::KeyPublished,
            SenderEvent::NetworkCreated => SenderEventView::NetworkCreated,
            SenderEvent::PeerJoined => SenderEventView::PeerJoined,
            SenderEvent::FileSent => SenderEventView::FileSent,
            SenderEvent::Failed(e) => SenderEventView::Failed(e),
        }
    }
}

/// What the driver has to do next.
pub enum SenderAction {
    /// Scan for receivers for this many seconds and let the operator pick.
    Scan(u64),
    /// Confirm the link to this receiver.
    Connect(DeviceInfo),
    /// Offer the secret over Bluetooth, readable by this receiver only.
    PublishKey(SharedSecret, DeviceInfo),
    /// Bring up the ephemeral network with these credentials.
    CreateNetwork(NetworkCredentials),
    /// Wait for the receiver to join the network.
    AwaitPeer,
    /// Stream the file.
    SendFile,
    /// Restore the host's networking; the session is over.
    Teardown,
}

/// A [`SenderAction`] with its texts as character sequences.
pub enum SenderActionView {
    Scan(u64),
    Connect(PeerView),
    PublishKey(Seq<u8>, PeerView),
    CreateNetwork(CredentialsView),
    AwaitPeer,
    SendFile,
    Teardown,
}

impl View for SenderAction {
    type V = SenderActionView;

    open spec fn view(&self) -> SenderActionView {
        match *self {
            SenderAction::Scan(window) => SenderActionView::Scan(window),
            SenderAction::Connect(peer) => SenderActionView::Connect(peer@),
            SenderAction::PublishKey(secret, peer) => SenderActionView::PublishKey(secret@, peer@),
            SenderAction::CreateNetwork(credentials) => SenderActionView::CreateNetwork(credentials@),
            SenderAction::AwaitPeer => SenderActionView::AwaitPeer,
            SenderAction::SendFile => SenderActionView::SendFile,
            SenderAction::Teardown => SenderActionView::Teardown,
        }
    }
}

/// The device the operator picked: the one at the chosen position, or the
/// first one where no usable choice was made.
pub open spec fn picked(devices: Seq<PeerView>, choice: Option<usize>) -> PeerView {
    match choice {
        Some(i) => if i < devices.len() {
            devices[i as int]
        } else {
            devices[0]
        },
        None => devices[0],
    }
}

/// Where a session goes once the link to its peer stands: into the key
/// exchange, with the secret it takes on, if the peer's address is well
/// formed, and to failure if it is not.
pub open spec fn after_connect(peer: PeerView, fresh: Seq<u8>, address: Option<Seq<u8>>) -> SenderStateView {
    match address {
        Some(_) => SenderStateView::ExchangingKey(peer, fresh),
        None => SenderStateView::ConnectionFailed,
    }
}

/// Whether a state is one of the four in which a session ends.
pub open spec fn sender_terminal(state: SenderStateView) -> bool {
    state is SendSuccess || state is SendFailed || state is NoDevicesFound
        || state is ConnectionFailed
}

/// The transition function of the sender. `fresh` is the secret that a
/// session takes on when it starts its key exchange.
///
/// Each state has one event that moves it forward; every other event sends
/// it to its terminal failure, and so does a peer whose address is not well
/// formed once the key exchange is to start. Terminal states stay where
/// they are. The secret is taken on once, on the way into the key exchange,
/// and the credentials are derived from that secret and no other.
pub open spec fn sender_next(state: SenderStateView, event: SenderEventView, fresh: Seq<u8>) -> SenderStateView {
    match state {
        SenderStateView::Scanning => match event {
            SenderEventView::Scanned(devices, choice) => if devices.len() == 0 {
                SenderStateView::NoDevicesFound
            } else {
                SenderStateView::Connecting(picked(devices, choice))
            },
            _ => SenderStateView::NoDevicesFound,
        },
        SenderStateView::Connecting(peer) => match event {
            SenderEventView::Connected => after_connect(peer, fresh, parsed_address(peer.address)),
            _ => SenderStateView::ConnectionFailed,
        },
        SenderStateView::ExchangingKey(peer, secret) => match event {
            SenderEventView::KeyPublished => SenderStateView::FormingNetwork(
                peer,
                credentials_for(peer.name, secret, peer.address),
            ),
            _ => SenderStateView::ConnectionFailed,
        },
        SenderStateView::FormingNetwork(peer, _) => match event {
            SenderEventView::NetworkCreated => SenderStateView::AwaitingPeerJoin(peer),
            _ => SenderStateView::ConnectionFailed,
        },
        SenderStateView::AwaitingPeerJoin(_) => match event {
            SenderEventView::PeerJoined => SenderStateView::Sending,
            _ => SenderStateView::ConnectionFailed,
        },
        SenderStateView::Sending => match event {
            SenderEventView::FileSent => SenderStateView::SendSuccess,
            _ => SenderStateView::SendFailed,
        },
        SenderStateView::SendSuccess => state,
        SenderStateView::SendFailed => state,
        SenderStateView::NoDevicesFound => state,
        SenderStateView::ConnectionFailed => state,
    }
}

/// What the driver is asked to do in `state`.
pub open spec fn sender_action(state: SenderStateView) -> SenderActionView {
    match state {
        SenderStateView::Scanning => SenderActionView::Scan(SCAN_WINDOW_SECS),
        SenderStateView::Connecting(peer) => SenderActionView::Connect(peer),
        SenderStateView::ExchangingKey(peer, secret) => SenderActionView::PublishKey(secret, peer),
        SenderStateView::FormingNetwork(_, credentials) => SenderActionView::CreateNetwork(credentials),
        SenderStateView::AwaitingPeerJoin(_) => SenderActionView::AwaitPeer,
        SenderStateView::Sending => SenderActionView::SendFile,
        _ => SenderActionView::Teardown,
    }
}

/// The state a session is in after `events`, starting from `state`, with
/// `fresh` as the secret it takes on if it gets to exchange keys.
pub open spec fn sender_run(state: SenderStateView, events: Seq<SenderEventView>, fresh: Seq<u8>) -> SenderStateView
    decreases events.len(),
{
    if events.len() == 0 {
        state
    } else {
        sender_run(sender_next(state, events[0], fresh), events.drop_first(), fresh)
    }
}

impl SenderState {
    /// The state every sending session starts in.
    pub fn start() -> (state: SenderState)
        ensures
            state@ == SenderStateView::Scanning,
    {
        SenderState::Scanning
    }

    /// Whether the session has ended.
    pub fn is_terminal(&self) -> (terminal: bool)
        ensures
            terminal == sender_terminal(self@),
    {
        match self {
            SenderState::SendSuccess => true,
            SenderState::SendFailed => true,
            SenderState::NoDevicesFound => true,
            SenderState::ConnectionFailed => true,
            _ => false,
        }
    }

    /// The status with which the process exits from this state: zero after
    /// a successful send, one otherwise.
    pub fn exit_code(&self) -> (code: i32)
        ensures
            code == (if self@ is SendSuccess { 0i32 } else { 1i32 }),
    {
        match self {
            SenderState::SendSuccess => 0,
            _ => 1,
        }
    }

    /// Starts the key exchange with a peer whose address was read as
    /// `address`. A peer without a well-formed address cannot be restricted
    /// to, so the session fails instead.
    pub fn begin_exchange(peer: DeviceInfo, fresh: SharedSecret, address: Option<[u8; 6]>) -> (next:
        SenderState)
        ensures
            next@ == after_connect(peer@, fresh@, address_of(address)),
    {
        match address {
            Some(_) => SenderState::ExchangingKey(peer, fresh),
            None => SenderState::ConnectionFailed,
        }
    }

    /// Takes the outcome of the outstanding operation and moves on, with
    /// `fresh` as the secret to take on if the key exchange starts now.
    pub fn advance_with(self, event: SenderEvent, fresh: SharedSecret) -> (next: SenderState)
        ensures
            next@ == sender_next(self@, event@, fresh@),
    {
        match self {
            SenderState::Scanning => match event {
                SenderEvent::Scanned(devices, choice) => {
                    if devices.len() == 0 {
                        SenderState::NoDevicesFound
                    } else {
                        let index = match choice {
                            Some(i) => if i < devices.len() {
                                i
                            } else {
                                0
                            },
                            None => 0,
                        };
                        SenderState::Connecting(devices[index].clone())
                    }
                },
                _ => SenderState::NoDevicesFound,
            },
            SenderState::Connecting(peer) => match event {
                SenderEvent::Connected => {
                    let address = peer.link_address();
                    SenderState::begin_exchange(peer, fresh, address)
                },
                _ => SenderState::ConnectionFailed,
            },
            SenderState::ExchangingKey(peer, secret) => match event {
                SenderEvent::KeyPublished => {
                    let credentials = NetworkCredentials::derive(
                        peer.name.as_str(),
                        secret.as_bytes(),
                        peer.address.as_str(),
                    );
                    SenderState::FormingNetwork(peer, credentials)
                },
                _ => SenderState::ConnectionFailed,
            },
            SenderState::FormingNetwork(peer, _) => match event {
                SenderEvent::NetworkCreated => SenderState::AwaitingPeerJoin(peer),
                _ => SenderState::ConnectionFailed,
            },
            SenderState::AwaitingPeerJoin(_) => match event {
                SenderEvent::PeerJoined => SenderState::Sending,
                _ => SenderState::ConnectionFailed,
            },
            SenderState::Sending => match event {
                SenderEvent::FileSent => SenderState::SendSuccess,
                _ => SenderState::SendFailed,
            },
            SenderState::SendSuccess => SenderState::SendSuccess,
            SenderState::SendFailed => SenderState::SendFailed,
            SenderState::NoDevicesFound => SenderState::NoDevicesFound,
            SenderState::ConnectionFailed => SenderState::ConnectionFailed,
        }
    }

    /// Takes the outcome of the outstanding operation and moves on. A
    /// session that starts its key exchange takes on a secret that is
    /// generated for it now.
    pub fn advance(self, event: SenderEvent) -> (next: SenderState)
        ensures
            exists|fresh: Seq<u8>| fresh.len() == KEY_LEN && next@ == #[trigger] sender_next(self@, event@, fresh),
    {
        let fresh = SharedSecret::generate();
        self.advance_with(event, fresh)
    }

    /// The operation that is outstanding in this state.
    pub fn next_action(&self) -> (action: SenderAction)
        ensures
            action@ == sender_action(self@),
    {
        match self {
            SenderState::Scanning => SenderAction::Scan(SCAN_WINDOW_SECS),
            SenderState::Connecting(peer) => SenderAction::Connect(peer.clone()),
            SenderState::ExchangingKey(peer, secret) => SenderAction::PublishKey(secret.clone(), peer.clone()),
            SenderState::FormingNetwork(_, credentials) => SenderAction::CreateNetwork(
                credentials.clone(),
            ),
            SenderState::AwaitingPeerJoin(_) => SenderAction::AwaitPeer,
            SenderState::Sending => SenderAction::SendFile,
            _ => SenderAction::Teardown,
        }
    }
}

/// A session that has ended stays in the state it ended in, whatever is
/// reported to it afterwards.
pub proof fn sender_terminal_is_final(state: SenderStateView, events: Seq<SenderEventView>, fresh: Seq<u8>)
    requires
        sender_terminal(state),
    ensures
        sender_run(state, events, fresh) == state,
    decreases events.len(),
{
    if events.len() > 0 {
        sender_terminal_is_final(state, events.drop_first(), fresh);
    }
}

/// A scan that finds no device ends the session in `NoDevicesFound`: that is
/// the state after the scan and after anything that follows, so no
/// connection is ever attempted.
pub proof fn empty_scan_finds_no_devices(choice: Option<usize>, later: Seq<SenderEventView>, fresh: Seq<u8>)
    ensures
        sender_run(
            SenderStateView::Scanning,
            seq![SenderEventView::Scanned(Seq::empty(), choice)] + later,
            fresh,
        ) == SenderStateView::NoDevicesFound,
{
    let events = seq![SenderEventView::Scanned(Seq::empty(), choice)] + later;
    assert(events.drop_first() =~= later);
    sender_terminal_is_final(SenderStateView::NoDevicesFound, later, fresh);
}

/// The secret that is offered is the secret that the credentials are
/// derived from: a session that exchanges keys asks for the secret it
/// holds to be published, and once that secret was read it forms the
/// network whose credentials follow from it.
pub proof fn offered_secret_makes_the_credentials(peer: PeerView, secret: Seq<u8>, fresh: Seq<u8>)
    ensures
        sender_action(SenderStateView::ExchangingKey(peer, secret)) == SenderActionView::PublishKey(
            secret,
            peer,
        ),
        sender_next(SenderStateView::ExchangingKey(peer, secret), SenderEventView::KeyPublished, fresh)
            == SenderStateView::FormingNetwork(peer, credentials_for(peer.name, secret, peer.address)),
{
}

/// The machine routes a failure without looking into it: whatever went
/// wrong, the session ends up in the same state.
pub proof fn sender_ignores_failure_detail(
    state: SenderStateView,
    one: FlingError,
    other: FlingError,
    fresh: Seq<u8>,
)
    ensures
        sender_next(state, SenderEventView::Failed(one), fresh) == sender_next(
            state,
            SenderEventView::Failed(other),
            fresh,
        ),
        sender_terminal(sender_next(state, SenderEventView::Failed(one), fresh)),
{
}

/// The network is torn down at the end of every session and at no other
/// time: tearing down is what is asked for in the terminal states, and in
/// those only.
pub proof fn sender_tears_down_at_the_end(state: SenderStateView)
    ensures
        sender_action(state) is Teardown <==> sender_terminal(state),
{
}

/// Whether a state holds this secret, or none yet.
pub open spec fn holds_no_other(state: SenderStateView, secret: Seq<u8>) -> bool {
    match state {
        SenderStateView::ExchangingKey(_, held) => held == secret,
        SenderStateView::FormingNetwork(peer, credentials) => credentials == credentials_for(
            peer.name,
            secret,
            peer.address,
        ),
        _ => true,
    }
}

/// A session has one secret: whatever it holds after any run from the
/// start is the secret it took on, or what follows from it.
pub proof fn session_has_one_secret(events: Seq<SenderEventView>, fresh: Seq<u8>)
    ensures
        holds_no_other(sender_run(SenderStateView::Scanning, events, fresh), fresh),
{
    one_secret_from(SenderStateView::Scanning, events, fresh);
}

proof fn one_secret_from(state: SenderStateView, events: Seq<SenderEventView>, fresh: Seq<u8>)
    requires
        holds_no_other(state, fresh),
    ensures
        holds_no_other(sender_run(state, events, fresh), fresh),
    decreases events.len(),
{
    if events.len() > 0 {
        one_secret_from(sender_next(state, events[0], fresh), events.drop_first(), fresh);
    }
}

/// Running a session from `state` starts with the step for the first event.
proof fn sender_run_unfolds(state: SenderStateView, events: Seq<SenderEventView>, fresh: Seq<u8>)
    requires
        events.len() > 0,
    ensures
        sender_run(state, events, fresh) == sender_run(
            sender_next(state, events[0], fresh),
            events.drop_first(),
            fresh,
        ),
{
}

/// No step is skipped on the way to `SendSuccess`: a session that ends there
/// has seen a scan that found a device, then the link confirmed, the secret
/// read, the network created, the receiver joined and the file sent, in
/// this order and with nothing in between.
pub proof fn send_success_takes_every_step(events: Seq<SenderEventView>, fresh: Seq<u8>)
    requires
        sender_run(SenderStateView::Scanning, events, fresh) is SendSuccess,
    ensures
        events.len() >= 6,
        events[0] matches SenderEventView::Scanned(devices, _) && devices.len() > 0,
        events[1] is Connected,
        events[2] is KeyPublished,
        events[3] is NetworkCreated,
        events[4] is PeerJoined,
        events[5] is FileSent,
{
    let s0 = SenderStateView::Scanning;
    assert(events.len() > 0);
    let r1 = events.drop_first();
    let s1 = sender_next(s0, events[0], fresh);
    sender_run_unfolds(s0, events, fresh);
    if sender_terminal(s1) {
        sender_terminal_is_final(s1, r1, fresh);
    }
    assert(s1 is Connecting);
    assert(r1.len() > 0);
    let r2 = r1.drop_first();
    let s2 = sender_next(s1, r1[0], fresh);
    sender_run_unfolds(s1, r1, fresh);
    if sender_terminal(s2) {
        sender_terminal_is_final(s2, r2, fresh);
    }
    assert(s2 is ExchangingKey);
    assert(r2.len() > 0);
    let r3 = r2.drop_first();
    let s3 = sender_next(s2, r2[0], fresh);
    sender_run_unfolds(s2, r2, fresh);
    if sender_terminal(s3) {
        sender_terminal_is_final(s3, r3, fresh);
    }
    assert(s3 is FormingNetwork);
    assert(r3.len() > 0);
    let r4 = r3.drop_first();
    let s4 = sender_next(s3, r3[0], fresh);
    sender_run_unfolds(s3, r3, fresh);
    if sender_terminal(s4) {
        sender_terminal_is_final(s4, r4, fresh);
    }
    assert(s4 is AwaitingPeerJoin);
    assert(r4.len() > 0);
    let r5 = r4.drop_first();
    let s5 = sender_next(s4, r4[0], fresh);
    sender_run_unfolds(s4, r4, fresh);
    if sender_terminal(s5) {
        sender_terminal_is_final(s5, r5, fresh);
    }
    assert(s5 is Sending);
    assert(r5.len() > 0);
    let r6 = r5.drop_first();
    let s6 = sender_next(s5, r5[0], fresh);
    sender_run_unfolds(s5, r5, fresh);
    if sender_terminal(s6) {
        sender_terminal_is_final(s6, r6, fresh);
    }
    assert(r1[0] == events[1]);
    assert(r2[0] == events[2]);
    assert(r3[0] == events[3]);
    assert(r4[0] == events[4]);
    assert(r5[0] == events[5]);
}

} // verus!
