//! The receiver's state machine.

use crate::bluetooth::discovery::text_of;
use crate::crypto::{credentials_for, CredentialsView, NetworkCredentials, SharedSecret, KEY_LEN};
use crate::error::FlingError;
use vstd::prelude::*;

verus! {

/// Where a receiving session stands.
#[derive(Debug)]
pub enum ReceiverState {
    /// Making this host discoverable over Bluetooth.
    Listening,
    /// Looking for the sender and reading the secret it offers.
    ExchangingKey,
    /// The secret is here; this host's own name and address are being read.
    DerivingCredentials(SharedSecret),
    /// Associating with the sender's network.
    JoiningNetwork(NetworkCredentials),
    /// The file is coming in.
    Receiving,
    /// Terminal: the file arrived.
    ReceiveSuccess,
    /// Terminal: the transfer broke.
    ReceiveFailed,
    /// Terminal: a step before the transfer failed.
    ConnectionFailed,
}

/// A [`ReceiverState`] with its payloads as sequences.
pub enum ReceiverStateView {
    Listening,
    ExchangingKey,
    DerivingCredentials(Seq<u8>),
    JoiningNetwork(CredentialsView),
    Receiving,
    ReceiveSuccess,
    ReceiveFailed,
    ConnectionFailed,
}

impl View for ReceiverState {
    type V = ReceiverStateView;

    open spec fn view(&self) -> ReceiverStateView {
        match *self {
            ReceiverState::Listening => ReceiverStateView::Listening,
            ReceiverState::ExchangingKey => ReceiverStateView::ExchangingKey,
            ReceiverState::DerivingCredentials(secret) => ReceiverStateView::DerivingCredentials(secret@),
            ReceiverState::JoiningNetwork(credentials) => ReceiverStateView::JoiningNetwork(credentials@),
            ReceiverState::Receiving => ReceiverStateView::Receiving,
            ReceiverState::ReceiveSuccess => ReceiverStateView::ReceiveSuccess,
            ReceiverState::ReceiveFailed => ReceiverStateView::ReceiveFailed,
            ReceiverState::ConnectionFailed => ReceiverStateView::ConnectionFailed,
        }
    }
}

/// What the driver reports once the operation of the current state is over.
pub enum ReceiverEvent {
    /// This host can now be seen and paired with.
    Discoverable,
    /// These bytes were read from the sender's characteristic.
    KeyReceived(Vec<u8>),
    /// This host's name and, if it could be found, the address of its
    /// Bluetooth adapter.
    Identity(String, Option<String>),
    /// The attempt to associate with the network ended, well or not.
    Joined(bool),
    /// The whole file came in.
    FileReceived,
    /// The operation failed.
    Failed(FlingError),
}

/// A [`ReceiverEvent`] with its payloads as sequences.
pub enum ReceiverEventView {
    Discoverable,
    KeyReceived(Seq<u8>),
    Identity(Seq<char>, Option<Seq<char>>),
    Joined(bool),
    FileReceived,
    Failed(FlingError),
}

impl View for ReceiverEvent {
    type V = ReceiverEventView;

    open spec fn view(&self) -> ReceiverEventView {
        match *self {
            ReceiverEvent::Discoverable => ReceiverEventView::Discoverable,
            ReceiverEvent::KeyReceived(bytes) => ReceiverEventView::KeyReceived(bytes@),
            ReceiverEvent::Identity(name, address) => ReceiverEventView::Identity(name@, text_of(address)),
            ReceiverEvent::Joined(ok) => ReceiverEventView::Joined(ok),
            ReceiverEvent::FileReceived => ReceiverEventView::FileReceived,
            ReceiverEvent::Failed(e) => ReceiverEventView::Failed(e),
        }
    }
}

/// What the driver has to do next.
pub enum ReceiverAction {
    /// Power the adapter and make this host discoverable and pairable.
    BecomeDiscoverable,
    /// Find the sender, connect, read the secret once, disconnect.
    ConsumeKey,
    /// Read this host's name and the address of its Bluetooth adapter.
    ReadIdentity,
    /// Associate with the network that has these credentials.
    JoinNetwork(NetworkCredentials),
    /// Receive the file into the output directory.
    ReceiveFile,
    /// Restore the host's networking; the session is over.
    Teardown,
}

/// A [`ReceiverAction`] with its payloads as sequences.
pub enum ReceiverActionView {
    BecomeDiscoverable,
    ConsumeKey,
    ReadIdentity,
    JoinNetwork(CredentialsView),
    ReceiveFile,
    Teardown,
}

impl View for ReceiverAction {
    type V = ReceiverActionView;

    open spec fn view(&self) -> ReceiverActionView {
        match *self {
            ReceiverAction::BecomeDiscoverable => ReceiverActionView::BecomeDiscoverable,
            ReceiverAction::ConsumeKey => ReceiverActionView::ConsumeKey,
            ReceiverAction::ReadIdentity => ReceiverActionView::ReadIdentity,
            ReceiverAction::JoinNetwork(credentials) => ReceiverActionView::JoinNetwork(credentials@),
            ReceiverAction::ReceiveFile => ReceiverActionView::ReceiveFile,
            ReceiverAction::Teardown => ReceiverActionView::Teardown,
        }
    }
}

/// Whether a state is one of the three in which a session ends.
pub open spec fn receiver_terminal(state: ReceiverStateView) -> bool {
    state is ReceiveSuccess || state is ReceiveFailed || state is ConnectionFailed
}

/// Where the receiver goes once bytes have been read from the sender:
/// on to the derivation if they are a secret, to failure if they are not.
pub open spec fn after_key(bytes: Seq<u8>) -> ReceiverStateView {
    if bytes.len() == KEY_LEN {
        ReceiverStateView::DerivingCredentials(bytes)
    } else {
        ReceiverStateView::ConnectionFailed
    }
}

/// The transition function of the receiver.
///
/// Each state has one event that moves it forward; every other event sends
/// it to its terminal failure. A secret that arrives while the host is still
/// `Listening` is taken as well, so a driver may run discovery and key
/// exchange as one operation. Terminal states stay where they are.
pub open spec fn receiver_next(state: ReceiverStateView, event: ReceiverEventView) -> ReceiverStateView {
    match state {
        ReceiverStateView::Listening => match event {
            ReceiverEventView::Discoverable => ReceiverStateView::ExchangingKey,
            ReceiverEventView::KeyReceived(bytes) => after_key(bytes),
            _ => ReceiverStateView::ConnectionFailed,
        },
        ReceiverStateView::ExchangingKey => match event {
            ReceiverEventView::KeyReceived(bytes) => after_key(bytes),
            _ => ReceiverStateView::ConnectionFailed,
        },
        ReceiverStateView::DerivingCredentials(secret) => match event {
            ReceiverEventView::Identity(name, Some(address)) => ReceiverStateView::JoiningNetwork(
                credentials_for(name, secret, address),
            ),
            _ => ReceiverStateView::ConnectionFailed,
        },
        ReceiverStateView::JoiningNetwork(_) => match event {
            ReceiverEventView::Joined(true) => ReceiverStateView::Receiving,
            _ => ReceiverStateView::ConnectionFailed,
        },
        ReceiverStateView::Receiving => match event {
            ReceiverEventView::FileReceived => ReceiverStateView::ReceiveSuccess,
            _ => ReceiverStateView::ReceiveFailed,
        },
        ReceiverStateView::ReceiveSuccess => state,
        ReceiverStateView::ReceiveFailed => state,
        ReceiverStateView::ConnectionFailed => state,
    }
}

/// What the driver is asked to do in `state`.
pub open spec fn receiver_action(state: ReceiverStateView) -> ReceiverActionView {
    match state {
        ReceiverStateView::Listening => ReceiverActionView::BecomeDiscoverable,
        ReceiverStateView::ExchangingKey => ReceiverActionView::ConsumeKey,
        ReceiverStateView::DerivingCredentials(_) => ReceiverActionView::ReadIdentity,
        ReceiverStateView::JoiningNetwork(credentials) => ReceiverActionView::JoinNetwork(credentials),
        ReceiverStateView::Receiving => ReceiverActionView::ReceiveFile,
        _ => ReceiverActionView::Teardown,
    }
}

/// The state a session is in after `events`, starting from `state`.
pub open spec fn receiver_run(state: ReceiverStateView, events: Seq<ReceiverEventView>) -> ReceiverStateView
    decreases events.len(),
{
    if events.len() == 0 {
        state
    } else {
        receiver_run(receiver_next(state, events[0]), events.drop_first())
    }
}

/// Where the receiver goes once bytes have been read from the sender.
fn accept_key(bytes: Vec<u8>) -> (next: ReceiverState)
    ensures
        next@ == after_key(bytes@),
{
    match SharedSecret::from_bytes(bytes) {
        Some(secret) => ReceiverState::DerivingCredentials(secret),
        None => ReceiverState::ConnectionFailed,
    }
}

impl ReceiverState {
    /// The state every receiving session starts in.
    pub fn start() -> (state: ReceiverState)
        ensures
            state@ == ReceiverStateView::Listening,
    {
        ReceiverState::Listening
    }

    /// Whether the session has ended.
    pub fn is_terminal(&self) -> (terminal: bool)
        ensures
            terminal == receiver_terminal(self@),
    {
        match self {
            ReceiverState::ReceiveSuccess => true,
            ReceiverState::ReceiveFailed => true,
            ReceiverState::ConnectionFailed => true,
            _ => false,
        }
    }

    /// The status with which the process exits from this state: zero after
    /// a successful receive, one otherwise.
    pub fn exit_code(&self) -> (code: i32)
        ensures
            code == (if self@ is ReceiveSuccess { 0i32 } else { 1i32 }),
    {
        match self {
            ReceiverState::ReceiveSuccess => 0,
            _ => 1,
        }
    }

    /// Takes the outcome of the outstanding operation and moves on.
    pub fn advance(self, event: ReceiverEvent) -> (next: ReceiverState)
        ensures
            next@ == receiver_next(self@, event@),
    {
        match self {
            ReceiverState::Listening => match event {
                ReceiverEvent::Discoverable => ReceiverState::ExchangingKey,
                ReceiverEvent::KeyReceived(bytes) => accept_key(bytes),
                _ => ReceiverState::ConnectionFailed,
            },
            ReceiverState::ExchangingKey => match event {
                ReceiverEvent::KeyReceived(bytes) => accept_key(bytes),
                _ => ReceiverState::ConnectionFailed,
            },
            ReceiverState::DerivingCredentials(secret) => match event {
                ReceiverEvent::Identity(name, Some(address)) => ReceiverState::JoiningNetwork(
                    NetworkCredentials::derive(name.as_str(), secret.as_bytes(), address.as_str()),
                ),
                _ => ReceiverState::ConnectionFailed,
            },
            ReceiverState::JoiningNetwork(_) => match event {
                ReceiverEvent::Joined(true) => ReceiverState::Receiving,
                _ => ReceiverState::ConnectionFailed,
            },
            ReceiverState::Receiving => match event {
                ReceiverEvent::FileReceived => ReceiverState::ReceiveSuccess,
                _ => ReceiverState::ReceiveFailed,
            },
            ReceiverState::ReceiveSuccess => ReceiverState::ReceiveSuccess,
            ReceiverState::ReceiveFailed => ReceiverState::ReceiveFailed,
            ReceiverState::ConnectionFailed => ReceiverState::ConnectionFailed,
        }
    }

    /// The operation that is outstanding in this state.
    pub fn next_action(&self) -> (action: ReceiverAction)
        ensures
            action@ == receiver_action(self@),
    {
        match self {
            ReceiverState::Listening => ReceiverAction::BecomeDiscoverable,
            ReceiverState::ExchangingKey => ReceiverAction::ConsumeKey,
            ReceiverState::DerivingCredentials(_) => ReceiverAction::ReadIdentity,
            ReceiverState::JoiningNetwork(credentials) => ReceiverAction::JoinNetwork(credentials.clone()),
            ReceiverState::Receiving => ReceiverAction::ReceiveFile,
            _ => ReceiverAction::Teardown,
        }
    }
}

/// A session that has ended stays in the state it ended in, whatever is
/// reported to it afterwards.
pub proof fn receiver_terminal_is_final(state: ReceiverStateView, events: Seq<ReceiverEventView>)
    requires
        receiver_terminal(state),
    ensures
        receiver_run(state, events) == state,
    decreases events.len(),
{
    if events.len() > 0 {
        receiver_terminal_is_final(state, events.drop_first());
    }
}

/// The machine routes a failure without looking into it: whatever went
/// wrong, the session ends up in the same state.
pub proof fn receiver_ignores_failure_detail(state: ReceiverStateView, one: FlingError, other: FlingError)
    ensures
        receiver_next(state, ReceiverEventView::Failed(one)) == receiver_next(
            state,
            ReceiverEventView::Failed(other),
        ),
        receiver_terminal(receiver_next(state, ReceiverEventView::Failed(one))),
{
}

/// The network is torn down at the end of every session and at no other
/// time: tearing down is what is asked for in the terminal states, and in
/// those only.
pub proof fn receiver_tears_down_at_the_end(state: ReceiverStateView)
    ensures
        receiver_action(state) is Teardown <==> receiver_terminal(state),
{
}

/// Whether a state lies before the derivation of credentials, or is the
/// failure that a broken key exchange leads to.
pub open spec fn before_derivation(state: ReceiverStateView) -> bool {
    state is Listening || state is ExchangingKey || state is ConnectionFailed
}

/// As long as no secret is reported, a receiver that has not derived
/// credentials never will: after any such events it is still waiting or has
/// failed the connection.
pub proof fn no_key_no_derivation(state: ReceiverStateView, events: Seq<ReceiverEventView>)
    requires
        before_derivation(state),
        forall|i: int| 0 <= i < events.len() ==> !(#[trigger] events[i] is KeyReceived),
    ensures
        before_derivation(receiver_run(state, events)),
    decreases events.len(),
{
    if events.len() > 0 {
        let rest = events.drop_first();
        assert(forall|i: int| 0 <= i < rest.len() ==> rest[i] == events[i + 1]);
        no_key_no_derivation(receiver_next(state, events[0]), rest);
    }
}

/// A key exchange that fails, by timeout or otherwise, ends the session in
/// `ConnectionFailed`, whatever is reported afterwards.
pub proof fn failed_key_exchange_fails_connection(
    state: ReceiverStateView,
    error: FlingError,
    later: Seq<ReceiverEventView>,
)
    requires
        state is Listening || state is ExchangingKey,
    ensures
        receiver_run(state, seq![ReceiverEventView::Failed(error)] + later)
            == ReceiverStateView::ConnectionFailed,
{
    let events = seq![ReceiverEventView::Failed(error)] + later;
    assert(events.drop_first() =~= later);
    receiver_terminal_is_final(ReceiverStateView::ConnectionFailed, later);
}

/// A network that cannot be joined ends the session in `ConnectionFailed`,
/// whatever is reported afterwards: the transfer is never started.
pub proof fn refused_join_fails_connection(credentials: CredentialsView, later: Seq<ReceiverEventView>)
    ensures
        receiver_run(
            ReceiverStateView::JoiningNetwork(credentials),
            seq![ReceiverEventView::Joined(false)] + later,
        ) == ReceiverStateView::ConnectionFailed,
{
    let events = seq![ReceiverEventView::Joined(false)] + later;
    assert(events.drop_first() =~= later);
    receiver_terminal_is_final(ReceiverStateView::ConnectionFailed, later);
}

/// Running a session from `state` starts with the step for the first event.
proof fn receiver_run_unfolds(state: ReceiverStateView, events: Seq<ReceiverEventView>)
    requires
        events.len() > 0,
    ensures
        receiver_run(state, events) == receiver_run(receiver_next(state, events[0]), events.drop_first()),
{
}

/// No step is skipped on the way to `ReceiveSuccess`: a session that ends
/// there has, after becoming discoverable if that was reported at all, seen
/// a secret of the right length arrive, then its own name and address, then
/// the network joined and the file received, in this order and with
/// nothing in between.
pub proof fn receive_success_takes_every_step(events: Seq<ReceiverEventView>)
    requires
        receiver_run(ReceiverStateView::Listening, events) is ReceiveSuccess,
    ensures
        ({
            let first = if events.len() > 0 && events[0] is Discoverable {
                1int
            } else {
                0int
            };
            &&& events.len() >= first + 4
            &&& events[first] matches ReceiverEventView::KeyReceived(bytes) && bytes.len() == KEY_LEN
            &&& events[first + 1] matches ReceiverEventView::Identity(_, Some(_))
            &&& events[first + 2] == ReceiverEventView::Joined(true)
            &&& events[first + 3] is FileReceived
        }),
{
    let s0 = ReceiverStateView::Listening;
    assert(events.len() > 0);
    receiver_run_unfolds(s0, events);
    if events[0] is Discoverable {
        let r0 = events.drop_first();
        assert(r0.len() > 0);
        assert(forall|i: int| 0 <= i < r0.len() ==> r0[i] == events[i + 1]);
        receive_success_after_listening(ReceiverStateView::ExchangingKey, r0);
    } else {
        receive_success_after_listening(s0, events);
    }
}

/// The steps from the arrival of the secret to `ReceiveSuccess`.
proof fn receive_success_after_listening(state: ReceiverStateView, events: Seq<ReceiverEventView>)
    requires
        state is Listening || state is ExchangingKey,
        receiver_run(state, events) is ReceiveSuccess,
        state is Listening ==> events.len() > 0 && !(events[0] is Discoverable),
    ensures
        events.len() >= 4,
        events[0] matches ReceiverEventView::KeyReceived(bytes) && bytes.len() == KEY_LEN,
        events[1] matches ReceiverEventView::Identity(_, Some(_)),
        events[2] == ReceiverEventView::Joined(true),
        events[3] is FileReceived,
{
    assert(events.len() > 0);
    let r1 = events.drop_first();
    let s1 = receiver_next(state, events[0]);
    receiver_run_unfolds(state, events);
    if receiver_terminal(s1) {
        receiver_terminal_is_final(s1, r1);
    }
    assert(s1 is DerivingCredentials);
    assert(r1.len() > 0);
    let r2 = r1.drop_first();
    let s2 = receiver_next(s1, r1[0]);
    receiver_run_unfolds(s1, r1);
    if receiver_terminal(s2) {
        receiver_terminal_is_final(s2, r2);
    }
    assert(s2 is JoiningNetwork);
    assert(r2.len() > 0);
    let r3 = r2.drop_first();
    let s3 = receiver_next(s2, r2[0]);
    receiver_run_unfolds(s2, r2);
    if receiver_terminal(s3) {
        receiver_terminal_is_final(s3, r3);
    }
    assert(s3 is Receiving);
    assert(r3.len() > 0);
    let r4 = r3.drop_first();
    let s4 = receiver_next(s3, r3[0]);
    receiver_run_unfolds(s3, r3);
    if receiver_terminal(s4) {
        receiver_terminal_is_final(s4, r4);
    }
    assert(r1[0] == events[1]);
    assert(r2[0] == events[2]);
    assert(r3[0] == events[3]);
}

} // verus!
