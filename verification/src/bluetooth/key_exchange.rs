//! The key exchange: one side offers the session secret in a readable
//! characteristic, the other finds it, reads it once and leaves.
//!
//! Both sides are written as machines that a driver steps. The machines hold
//! the limits (how long to scan, how often to retry) and the routing of
//! every outcome; the driver holds the adapter.

use crate::bluetooth::discovery::text_of;
use crate::crypto::{outcome_of, SharedSecret};
use crate::error::FlingError;
use crate::text::same_text;
use vstd::prelude::*;
use vstd::slice::slice_to_vec;

verus! {

/// Identifier of the service that carries the key exchange.
pub const SERVICE_UUID: &'static str = "12345678-1234-5678-1234-56789abcdef0";

/// Identifier of the characteristic whose value is the secret.
pub const CHARACTERISTIC_UUID: &'static str = "abcdef12-3456-7890-abcd-ef1234567890";

/// The name under which the sender advertises.
pub const ADVERTISED_NAME: &'static str = "fling-sender";

/// How many seconds the secret stays on offer.
pub const PUBLISH_WINDOW_SECS: u32 = 30;

/// Pause between two looks at whether the secret was read, in milliseconds.
pub const PUBLISH_POLL_MS: u64 = 1000;

/// How long the offer is kept up after the secret was read, so that the
/// reader can finish, in milliseconds.
pub const PUBLISH_LINGER_MS: u64 = 4000;

/// How long the receiver scans for the sender, in milliseconds.
pub const SCAN_WINDOW_MS: u64 = 30000;

/// How long the receiver waits for one discovery event, in milliseconds.
pub const SCAN_POLL_MS: u64 = 2000;

/// How often the receiver tries to connect before it gives up.
pub const CONNECT_ATTEMPTS: u32 = 3;

/// Pause before a repeated connection attempt, in milliseconds.
pub const CONNECT_BACKOFF_MS: u64 = 500;

/// How often the receiver asks whether the link is up before it gives up.
pub const LINK_POLLS: u32 = 50;

/// Pause between two such questions, in milliseconds.
pub const LINK_POLL_MS: u64 = 200;

/// The 128-bit value that `text` denotes as a UUID, if it denotes one.
pub uninterp spec fn parsed_uuid(text: Seq<char>) -> Option<u128>;

/// The error of the `uuid` crate: why a text is no UUID.
#[verifier::external_type_specification]
#[verifier::external_body]
pub struct ExUuidError(uuid::Error);

/// What the parser gave, without its error.
pub open spec fn uuid_output(result: Result<u128, uuid::Error>) -> Option<u128> {
    match result {
        Ok(value) => Some(value),
        Err(_) => None,
    }
}

/// `Uuid::parse_str` of the `uuid` crate, followed by `Uuid::as_u128`.
/// Believed of it: whether and to what a text parses depends on the text
/// alone.
#[verifier::external_body]
fn parse_uuid(text: &str) -> (value: Result<u128, uuid::Error>)
    ensures
        uuid_output(value) == parsed_uuid(text@),
{
    match uuid::Uuid::parse_str(text) {
        Ok(id) => Ok(id.as_u128()),
        Err(error) => Err(error),
    }
}

/// Reads an identifier; a text that is none gives none.
fn read_uuid(text: &str) -> (value: Option<u128>)
    ensures
        value == parsed_uuid(text@),
{
    match parse_uuid(text) {
        Ok(value) => Some(value),
        Err(_) => None,
    }
}

/// The two identifiers of the key exchange, as numbers.
#[derive(Clone, Copy, Debug, PartialEq, Eq, Structural)]
pub struct ExchangeIds {
    pub service: u128,
    pub characteristic: u128,
}

/// The identifiers made of two parsed texts; there are none unless both
/// parsed.
pub open spec fn ids_of(service: Option<u128>, characteristic: Option<u128>) -> Option<ExchangeIds> {
    match (service, characteristic) {
        (Some(s), Some(c)) => Some(ExchangeIds { service: s, characteristic: c }),
        _ => None,
    }
}

impl ExchangeIds {
    /// Pairs up two parsed identifiers.
    pub fn from_parsed(service: Option<u128>, characteristic: Option<u128>) -> (ids: Option<ExchangeIds>)
        ensures
            ids == ids_of(service, characteristic),
    {
        match (service, characteristic) {
            (Some(s), Some(c)) => Some(ExchangeIds { service: s, characteristic: c }),
            _ => None,
        }
    }

    /// The identifiers under which every key exchange runs.
    pub fn fixed() -> (ids: Option<ExchangeIds>)
        ensures
            ids == ids_of(parsed_uuid(SERVICE_UUID@), parsed_uuid(CHARACTERISTIC_UUID@)),
    {
        ExchangeIds::from_parsed(read_uuid(SERVICE_UUID), read_uuid(CHARACTERISTIC_UUID))
    }
}

/// The offer of a secret to one peer, or to anyone.
pub struct KeyPublisher {
    secret: SharedSecret,
    allowed: Option<String>,
    was_read: bool,
    polls: u32,
}

/// What a [`KeyPublisher`] holds.
pub struct PublisherView {
    /// The secret on offer.
    pub secret: Seq<u8>,
    /// The address of the only peer that may read it; anyone may if there is
    /// none.
    pub allowed: Option<Seq<char>>,
    /// Whether the secret has been read.
    pub was_read: bool,
    /// How many pauses have been taken while waiting for a read.
    pub polls: nat,
}

impl View for KeyPublisher {
    type V = PublisherView;

    closed spec fn view(&self) -> PublisherView {
        PublisherView {
            secret: self.secret@,
            allowed: text_of(self.allowed),
            was_read: self.was_read,
            polls: self.polls as nat,
        }
    }
}

/// What the driver of a [`KeyPublisher`] does next.
#[derive(Clone, Copy, Debug, PartialEq, Eq, Structural)]
pub enum PublishStep {
    /// Pause for so many milliseconds, then ask again.
    Wait(u64),
    /// The secret was read. Keep the offer up for so many milliseconds, then
    /// withdraw it and report success.
    Linger(u64),
    /// The secret was read as the window closed. Withdraw the offer and
    /// report success.
    Complete,
    /// Nobody read the secret in time. Withdraw the offer and report the
    /// timeout.
    TimedOut,
}

/// What an offer that has ended reports. An offer that still stands reports
/// nothing yet.
pub open spec fn publish_outcome(step: PublishStep) -> Option<Result<(), FlingError>> {
    match step {
        PublishStep::Wait(_) => None,
        PublishStep::Linger(_) => Some(Ok(())),
        PublishStep::Complete => Some(Ok(())),
        PublishStep::TimedOut => Some(Err(FlingError::DiscoveryTimeout)),
    }
}

impl PublishStep {
    /// What the offer reports once it has ended: success where the secret
    /// was read, the timeout where it was not.
    pub fn outcome(self) -> (outcome: Option<Result<(), FlingError>>)
        ensures
            outcome == publish_outcome(self),
    {
        match self {
            PublishStep::Wait(_) => None,
            PublishStep::Linger(_) => Some(Ok(())),
            PublishStep::Complete => Some(Ok(())),
            PublishStep::TimedOut => Some(Err(FlingError::DiscoveryTimeout)),
        }
    }
}

/// Whether a read from `from` is let through.
pub open spec fn may_read(allowed: Option<Seq<char>>, from: Seq<char>) -> bool {
    match allowed {
        Some(address) => address == from,
        None => true,
    }
}

/// The offer after a read from `from`: the read is recorded if it was let
/// through, and nothing else changes.
pub open spec fn after_read(publisher: PublisherView, from: Seq<char>) -> PublisherView {
    PublisherView { was_read: publisher.was_read || may_read(publisher.allowed, from), ..publisher }
}

/// What a read from `from` is answered with: the secret if the read is let
/// through, a refusal if it is not.
pub open spec fn read_reply(publisher: PublisherView, from: Seq<char>) -> Result<Seq<u8>, FlingError> {
    if may_read(publisher.allowed, from) {
        Ok(publisher.secret)
    } else {
        Err(FlingError::AuthenticationFailed)
    }
}

/// What the driver is told when it asks how to go on.
pub open spec fn publish_step(publisher: PublisherView) -> PublishStep {
    if publisher.polls >= PUBLISH_WINDOW_SECS {
        if publisher.was_read {
            PublishStep::Complete
        } else {
            PublishStep::TimedOut
        }
    } else if publisher.was_read {
        PublishStep::Linger(PUBLISH_LINGER_MS)
    } else {
        PublishStep::Wait(PUBLISH_POLL_MS)
    }
}

/// The offer after the driver has asked how to go on: one more pause is
/// counted if it is told to wait.
pub open spec fn after_poll(publisher: PublisherView) -> PublisherView {
    if publish_step(publisher) is Wait {
        PublisherView { polls: publisher.polls + 1, ..publisher }
    } else {
        publisher
    }
}

/// Reading is idempotent: a second read by the same peer is answered like
/// the first and leaves the offer as the first left it. No read, permitted
/// or not, changes what any later read is answered with.
pub proof fn reads_are_idempotent(publisher: PublisherView, from: Seq<char>, other: Seq<char>)
    ensures
        after_read(after_read(publisher, from), from) == after_read(publisher, from),
        read_reply(after_read(publisher, from), from) == read_reply(publisher, from),
        read_reply(after_read(publisher, other), from) == read_reply(publisher, from),
{
}

/// A timeout does not revoke the secret: asking how to go on changes
/// neither the secret nor who may read it, so a read after the window has
/// closed is answered like one before.
pub proof fn timeout_keeps_the_secret(publisher: PublisherView, from: Seq<char>)
    ensures
        read_reply(after_poll(publisher), from) == read_reply(publisher, from),
{
}

impl KeyPublisher {
    /// Puts `secret` on offer. With `allowed` set, only the peer with that
    /// address may read it.
    pub fn new(secret: SharedSecret, allowed: Option<String>) -> (publisher: KeyPublisher)
        ensures
            publisher@ == (PublisherView {
                secret: secret@,
                allowed: text_of(allowed),
                was_read: false,
                polls: 0,
            }),
    {
        KeyPublisher { secret, allowed, was_read: false, polls: 0 }
    }

    /// Whether the secret has been read.
    pub fn was_read(&self) -> (read: bool)
        ensures
            read == self@.was_read,
    {
        self.was_read
    }

    /// Answers a read of the characteristic by the peer at `from`.
    ///
    /// A peer that may read gets the secret, and the read is recorded. Any
    /// other peer is refused and leaves no trace.
    pub fn handle_read(&mut self, from: &str) -> (reply: Result<Vec<u8>, FlingError>)
        ensures
            final(self)@ == after_read(old(self)@, from@),
            outcome_of(reply) == read_reply(old(self)@, from@),
    {
        let permitted = match &self.allowed {
            Some(address) => same_text(address.as_str(), from),
            None => true,
        };
        if permitted {
            self.was_read = true;
            Ok(slice_to_vec(self.secret.as_bytes()))
        } else {
            Err(FlingError::AuthenticationFailed)
        }
    }

    /// Tells the driver how to go on, and counts the pause if one is taken.
    ///
    /// The offer stands for [`PUBLISH_WINDOW_SECS`] pauses at most.
    pub fn poll(&mut self) -> (step: PublishStep)
        ensures
            step == publish_step(old(self)@),
            final(self)@ == after_poll(old(self)@),
    {
        if self.polls >= PUBLISH_WINDOW_SECS {
            if self.was_read {
                PublishStep::Complete
            } else {
                PublishStep::TimedOut
            }
        } else if self.was_read {
            PublishStep::Linger(PUBLISH_LINGER_MS)
        } else {
            self.polls = self.polls + 1;
            PublishStep::Wait(PUBLISH_POLL_MS)
        }
    }
}

/// Where the reading side of a key exchange stands.
#[derive(Debug)]
pub enum ConsumerState {
    /// The adapter is being powered.
    Starting,
    /// Discovery runs; the sender has not been seen yet.
    Scanning,
    /// A connection attempt is under way, after so many failed ones.
    Connecting(u32),
    /// The connection was requested; the link was found down so many times.
    AwaitingLink(u32),
    /// The services of the sender are being listed.
    ListingServices,
    /// The characteristics of the exchange service are being listed.
    ListingCharacteristics,
    /// The one read of the secret is under way.
    Reading,
    /// The secret is here; the link is being closed.
    Closing(Vec<u8>),
    /// The sender lacks what the exchange needs; the link is being closed.
    Aborting(FlingError),
    /// Terminal: the bytes that were read.
    Done(Vec<u8>),
    /// Terminal: why the exchange failed.
    Failed(FlingError),
}

/// A [`ConsumerState`] with its bytes as a sequence.
pub enum ConsumerStateView {
    Starting,
    Scanning,
    Connecting(u32),
    AwaitingLink(u32),
    ListingServices,
    ListingCharacteristics,
    Reading,
    Closing(Seq<u8>),
    Aborting(FlingError),
    Done(Seq<u8>),
    Failed(FlingError),
}

impl View for ConsumerState {
    type V = ConsumerStateView;

    open spec fn view(&self) -> ConsumerStateView {
        match *self {
            ConsumerState::Starting => ConsumerStateView::Starting,
            ConsumerState::Scanning => ConsumerStateView::Scanning,
            ConsumerState::Connecting(n) => ConsumerStateView::Connecting(n),
            ConsumerState::AwaitingLink(n) => ConsumerStateView::AwaitingLink(n),
            ConsumerState::ListingServices => ConsumerStateView::ListingServices,
            ConsumerState::ListingCharacteristics => ConsumerStateView::ListingCharacteristics,
            ConsumerState::Reading => ConsumerStateView::Reading,
            ConsumerState::Closing(bytes) => ConsumerStateView::Closing(bytes@),
            ConsumerState::Aborting(e) => ConsumerStateView::Aborting(e),
            ConsumerState::Done(bytes) => ConsumerStateView::Done(bytes@),
            ConsumerState::Failed(e) => ConsumerStateView::Failed(e),
        }
    }
}

/// What the driver reports to the reading side.
pub enum ConsumerEvent {
    /// The adapter is powered and discovery has started.
    Ready,
    /// A device appeared; these are the services it advertises.
    DeviceSeen(Vec<u128>),
    /// No discovery event came within the poll interval.
    Quiet,
    /// Discovery ended by itself.
    StreamEnded,
    /// The connection request went through.
    Connected,
    /// Whether the link is up.
    LinkState(bool),
    /// The services of the connected device.
    Services(Vec<u128>),
    /// The characteristics of the service that was asked about.
    Characteristics(Vec<u128>),
    /// The value that was read.
    Value(Vec<u8>),
    /// The link is closed.
    Disconnected,
    /// The outstanding operation failed.
    Failed,
}

/// A [`ConsumerEvent`] with its lists as sequences.
pub enum ConsumerEventView {
    Ready,
    DeviceSeen(Seq<u128>),
    Quiet,
    StreamEnded,
    Connected,
    LinkState(bool),
    Services(Seq<u128>),
    Characteristics(Seq<u128>),
    Value(Seq<u8>),
    Disconnected,
    Failed,
}

impl View for ConsumerEvent {
    type V = ConsumerEventView;

    open spec fn view(&self) -> ConsumerEventView {
        match *self {
            ConsumerEvent::Ready => ConsumerEventView::Ready,
            ConsumerEvent::DeviceSeen(ids) => ConsumerEventView::DeviceSeen(ids@),
            ConsumerEvent::Quiet => ConsumerEventView::Quiet,
            ConsumerEvent::StreamEnded => ConsumerEventView::StreamEnded,
            ConsumerEvent::Connected => ConsumerEventView::Connected,
            ConsumerEvent::LinkState(up) => ConsumerEventView::LinkState(up),
            ConsumerEvent::Services(ids) => ConsumerEventView::Services(ids@),
            ConsumerEvent::Characteristics(ids) => ConsumerEventView::Characteristics(ids@),
            ConsumerEvent::Value(bytes) => ConsumerEventView::Value(bytes@),
            ConsumerEvent::Disconnected => ConsumerEventView::Disconnected,
            ConsumerEvent::Failed => ConsumerEventView::Failed,
        }
    }
}

/// What the driver of the reading side does next.
#[derive(Clone, Copy, Debug, PartialEq, Eq, Structural)]
pub enum ConsumerAction {
    /// Power the adapter and start discovery.
    PowerOn,
    /// Wait up to so many milliseconds for a discovery event.
    AwaitEvent(u64),
    /// Pause for so many milliseconds, then connect to the device that was
    /// seen last.
    Connect(u64),
    /// Pause for so many milliseconds, then ask whether the link is up.
    CheckLink(u64),
    /// List the services of the connected device.
    ListServices,
    /// List the characteristics of the service at this position.
    ListCharacteristics(usize),
    /// Read the characteristic at this position, once.
    Read(usize),
    /// Close the link.
    Disconnect,
    /// Nothing is left to do.
    Stop,
}

/// The position at or after `from` at which `wanted` first stands in `ids`.
pub open spec fn position_from(ids: Seq<u128>, wanted: u128, from: nat) -> Option<usize>
    decreases ids.len() - from,
{
    if from >= ids.len() {
        None
    } else if ids[from as int] == wanted {
        Some(from as usize)
    } else {
        position_from(ids, wanted, from + 1)
    }
}

/// The first position at which `wanted` stands in `ids`.
pub open spec fn position_of(ids: Seq<u128>, wanted: u128) -> Option<usize> {
    position_from(ids, wanted, 0)
}

/// Finds the first position at which `wanted` stands in `ids`.
pub fn find_id(ids: &Vec<u128>, wanted: u128) -> (at: Option<usize>)
    ensures
        at == position_of(ids@, wanted),
{
    let mut i: usize = 0;
    while i < ids.len()
        invariant
            i <= ids.len(),
            position_of(ids@, wanted) == position_from(ids@, wanted, i as nat),
        decreases ids.len() - i,
    {
        if ids[i] == wanted {
            return Some(i);
        }
        i += 1;
    }
    None
}

/// How a scan goes on after an event that did not show the sender: it keeps
/// waiting while the window is open and times out once it has closed.
pub open spec fn keep_scanning(elapsed_ms: u64) -> (ConsumerStateView, ConsumerAction) {
    if elapsed_ms < SCAN_WINDOW_MS {
        (ConsumerStateView::Scanning, ConsumerAction::AwaitEvent(SCAN_POLL_MS))
    } else {
        (ConsumerStateView::Failed(FlingError::DiscoveryTimeout), ConsumerAction::Stop)
    }
}

/// The end of an exchange that failed with `error`.
pub open spec fn fail_with(error: FlingError) -> (ConsumerStateView, ConsumerAction) {
    (ConsumerStateView::Failed(error), ConsumerAction::Stop)
}

/// The transition function of the reading side, with the action that the
/// new state asks for. `elapsed_ms` is the time since discovery started.
pub open spec fn consumer_next(
    state: ConsumerStateView,
    event: ConsumerEventView,
    elapsed_ms: u64,
    ids: ExchangeIds,
) -> (ConsumerStateView, ConsumerAction) {
    match state {
        ConsumerStateView::Starting => match event {
            ConsumerEventView::Ready => (
                ConsumerStateView::Scanning,
                ConsumerAction::AwaitEvent(SCAN_POLL_MS),
            ),
            _ => fail_with(FlingError::AdapterUnavailable),
        },
        ConsumerStateView::Scanning => match event {
            ConsumerEventView::DeviceSeen(services) => if position_of(services, ids.service) is Some {
                (ConsumerStateView::Connecting(0), ConsumerAction::Connect(0))
            } else {
                keep_scanning(elapsed_ms)
            },
            ConsumerEventView::Quiet => keep_scanning(elapsed_ms),
            ConsumerEventView::StreamEnded => fail_with(FlingError::DiscoveryTimeout),
            _ => fail_with(FlingError::AdapterUnavailable),
        },
        ConsumerStateView::Connecting(failed) => match event {
            ConsumerEventView::Connected => (
                ConsumerStateView::AwaitingLink(0),
                ConsumerAction::CheckLink(0),
            ),
            _ => if failed + 1 < CONNECT_ATTEMPTS {
                (
                    ConsumerStateView::Connecting((failed + 1) as u32),
                    ConsumerAction::Connect(CONNECT_BACKOFF_MS),
                )
            } else {
                fail_with(FlingError::ConnectionFailed)
            },
        },
        ConsumerStateView::AwaitingLink(down) => match event {
            ConsumerEventView::LinkState(true) => (
                ConsumerStateView::ListingServices,
                ConsumerAction::ListServices,
            ),
            ConsumerEventView::LinkState(false) => if down + 1 < LINK_POLLS {
                (
                    ConsumerStateView::AwaitingLink((down + 1) as u32),
                    ConsumerAction::CheckLink(LINK_POLL_MS),
                )
            } else {
                fail_with(FlingError::ConnectionFailed)
            },
            _ => fail_with(FlingError::ConnectionFailed),
        },
        ConsumerStateView::ListingServices => match event {
            ConsumerEventView::Services(found) => match position_of(found, ids.service) {
                Some(at) => (
                    ConsumerStateView::ListingCharacteristics,
                    ConsumerAction::ListCharacteristics(at),
                ),
                None => (
                    ConsumerStateView::Aborting(FlingError::ProtocolMismatch),
                    ConsumerAction::Disconnect,
                ),
            },
            _ => fail_with(FlingError::ConnectionFailed),
        },
        ConsumerStateView::ListingCharacteristics => match event {
            ConsumerEventView::Characteristics(found) => match position_of(found, ids.characteristic) {
                Some(at) => (ConsumerStateView::Reading, ConsumerAction::Read(at)),
                None => (
                    ConsumerStateView::Aborting(FlingError::ProtocolMismatch),
                    ConsumerAction::Disconnect,
                ),
            },
            _ => fail_with(FlingError::ConnectionFailed),
        },
        ConsumerStateView::Reading => match event {
            ConsumerEventView::Value(bytes) => (
                ConsumerStateView::Closing(bytes),
                ConsumerAction::Disconnect,
            ),
            _ => fail_with(FlingError::AuthenticationFailed),
        },
        ConsumerStateView::Closing(bytes) => match event {
            ConsumerEventView::Disconnected => (ConsumerStateView::Done(bytes), ConsumerAction::Stop),
            _ => fail_with(FlingError::ConnectionFailed),
        },
        ConsumerStateView::Aborting(error) => fail_with(error),
        ConsumerStateView::Done(_) => (state, ConsumerAction::Stop),
        ConsumerStateView::Failed(_) => (state, ConsumerAction::Stop),
    }
}

/// How far an exchange has come. No step ever lowers it.
pub open spec fn consumer_rank(state: ConsumerStateView) -> nat {
    match state {
        ConsumerStateView::Starting => 0,
        ConsumerStateView::Scanning => 1,
        ConsumerStateView::Connecting(_) => 2,
        ConsumerStateView::AwaitingLink(_) => 3,
        ConsumerStateView::ListingServices => 4,
        ConsumerStateView::ListingCharacteristics => 5,
        ConsumerStateView::Reading => 6,
        ConsumerStateView::Closing(_) => 7,
        ConsumerStateView::Aborting(_) => 7,
        ConsumerStateView::Done(_) => 8,
        ConsumerStateView::Failed(_) => 8,
    }
}

/// What a finished exchange hands to the session: the bytes that were read,
/// or the reason why none were.
pub open spec fn consumer_result(state: ConsumerStateView) -> Option<Result<Seq<u8>, FlingError>> {
    match state {
        ConsumerStateView::Done(bytes) => Some(Ok(bytes)),
        ConsumerStateView::Failed(error) => Some(Err(error)),
        _ => None,
    }
}

fn give_up(error: FlingError) -> (next: (ConsumerState, ConsumerAction))
    ensures
        (next.0@, next.1) == fail_with(error),
{
    (ConsumerState::Failed(error), ConsumerAction::Stop)
}

fn scan_on(elapsed_ms: u64) -> (next: (ConsumerState, ConsumerAction))
    ensures
        (next.0@, next.1) == keep_scanning(elapsed_ms),
{
    if elapsed_ms < SCAN_WINDOW_MS {
        (ConsumerState::Scanning, ConsumerAction::AwaitEvent(SCAN_POLL_MS))
    } else {
        give_up(FlingError::DiscoveryTimeout)
    }
}

impl ConsumerState {
    /// The state every exchange starts in, and what to do first.
    pub fn start() -> (first: (ConsumerState, ConsumerAction))
        ensures
            first.0@ == ConsumerStateView::Starting,
            first.1 == ConsumerAction::PowerOn,
    {
        (ConsumerState::Starting, ConsumerAction::PowerOn)
    }

    /// Whether the exchange is over.
    pub fn is_finished(&self) -> (finished: bool)
        ensures
            finished == consumer_result(self@) is Some,
    {
        match self {
            ConsumerState::Done(_) => true,
            ConsumerState::Failed(_) => true,
            _ => false,
        }
    }

    /// What a finished exchange hands to the session.
    pub fn into_result(self) -> (result: Option<Result<Vec<u8>, FlingError>>)
        ensures
            match result {
                Some(Ok(bytes)) => consumer_result(self@) == Some(Ok::<Seq<u8>, FlingError>(bytes@)),
                Some(Err(error)) => consumer_result(self@) == Some(Err::<Seq<u8>, FlingError>(error)),
                None => consumer_result(self@) is None,
            },
    {
        match self {
            ConsumerState::Done(bytes) => Some(Ok(bytes)),
            ConsumerState::Failed(error) => Some(Err(error)),
            _ => None,
        }
    }

    /// Takes the outcome of the outstanding operation, moves on, and says
    /// what to do next. `elapsed_ms` is the time since discovery started.
    pub fn step(self, event: ConsumerEvent, elapsed_ms: u64, ids: &ExchangeIds) -> (next: (
        ConsumerState,
        ConsumerAction,
    ))
        ensures
            (next.0@, next.1) == consumer_next(self@, event@, elapsed_ms, *ids),
    {
        match self {
            ConsumerState::Starting => match event {
                ConsumerEvent::Ready => (ConsumerState::Scanning, ConsumerAction::AwaitEvent(SCAN_POLL_MS)),
                _ => give_up(FlingError::AdapterUnavailable),
            },
            ConsumerState::Scanning => match event {
                ConsumerEvent::DeviceSeen(services) => {
                    if find_id(&services, ids.service).is_some() {
                        (ConsumerState::Connecting(0), ConsumerAction::Connect(0))
                    } else {
                        scan_on(elapsed_ms)
                    }
                },
                ConsumerEvent::Quiet => scan_on(elapsed_ms),
                ConsumerEvent::StreamEnded => give_up(FlingError::DiscoveryTimeout),
                _ => give_up(FlingError::AdapterUnavailable),
            },
            ConsumerState::Connecting(failed) => match event {
                ConsumerEvent::Connected => (ConsumerState::AwaitingLink(0), ConsumerAction::CheckLink(0)),
                _ => {
                    if failed < CONNECT_ATTEMPTS - 1 {
                        (
                            ConsumerState::Connecting(failed + 1),
                            ConsumerAction::Connect(CONNECT_BACKOFF_MS),
                        )
                    } else {
                        give_up(FlingError::ConnectionFailed)
                    }
                },
            },
            ConsumerState::AwaitingLink(down) => match event {
                ConsumerEvent::LinkState(true) => (
                    ConsumerState::ListingServices,
                    ConsumerAction::ListServices,
                ),
                ConsumerEvent::LinkState(false) => {
                    if down < LINK_POLLS - 1 {
                        (ConsumerState::AwaitingLink(down + 1), ConsumerAction::CheckLink(LINK_POLL_MS))
                    } else {
                        give_up(FlingError::ConnectionFailed)
                    }
                },
                _ => give_up(FlingError::ConnectionFailed),
            },
            ConsumerState::ListingServices => match event {
                ConsumerEvent::Services(found) => match find_id(&found, ids.service) {
                    Some(at) => (
                        ConsumerState::ListingCharacteristics,
                        ConsumerAction::ListCharacteristics(at),
                    ),
                    None => (
                        ConsumerState::Aborting(FlingError::ProtocolMismatch),
                        ConsumerAction::Disconnect,
                    ),
                },
                _ => give_up(FlingError::ConnectionFailed),
            },
            ConsumerState::ListingCharacteristics => match event {
                ConsumerEvent::Characteristics(found) => match find_id(&found, ids.characteristic) {
                    Some(at) => (ConsumerState::Reading, ConsumerAction::Read(at)),
                    None => (
                        ConsumerState::Aborting(FlingError::ProtocolMismatch),
                        ConsumerAction::Disconnect,
                    ),
                },
                _ => give_up(FlingError::ConnectionFailed),
            },
            ConsumerState::Reading => match event {
                ConsumerEvent::Value(bytes) => (ConsumerState::Closing(bytes), ConsumerAction::Disconnect),
                _ => give_up(FlingError::AuthenticationFailed),
            },
            ConsumerState::Closing(bytes) => match event {
                ConsumerEvent::Disconnected => (ConsumerState::Done(bytes), ConsumerAction::Stop),
                _ => give_up(FlingError::ConnectionFailed),
            },
            ConsumerState::Aborting(error) => give_up(error),
            ConsumerState::Done(bytes) => (ConsumerState::Done(bytes), ConsumerAction::Stop),
            ConsumerState::Failed(error) => (ConsumerState::Failed(error), ConsumerAction::Stop),
        }
    }
}

/// An exchange only moves forward, and the secret is read once at most: a
/// read is asked for only on the step from listing the characteristics to
/// reading, and no step leads back before reading.
pub proof fn consumer_reads_once(
    state: ConsumerStateView,
    event: ConsumerEventView,
    elapsed_ms: u64,
    ids: ExchangeIds,
)
    ensures
        consumer_rank(state) <= consumer_rank(consumer_next(state, event, elapsed_ms, ids).0),
        consumer_next(state, event, elapsed_ms, ids).1 is Read ==> state is ListingCharacteristics
            && consumer_next(state, event, elapsed_ms, ids).0 is Reading,
        consumer_next(state, event, elapsed_ms, ids).1 is Stop <==> consumer_result(
            consumer_next(state, event, elapsed_ms, ids).0,
        ) is Some,
{
}

/// The receiver's copy of the secret is the sender's: what a permitted read
/// is answered with, once delivered to a reading side that waits for it, is
/// what that side ends up with after it has closed the link.
pub proof fn exchange_hands_over_the_secret(
    publisher: PublisherView,
    reader: Seq<char>,
    elapsed_ms: u64,
    ids: ExchangeIds,
)
    requires
        may_read(publisher.allowed, reader),
    ensures
        read_reply(publisher, reader) == Ok::<Seq<u8>, FlingError>(publisher.secret),
        consumer_result(
            consumer_next(
                consumer_next(
                    ConsumerStateView::Reading,
                    ConsumerEventView::Value(publisher.secret),
                    elapsed_ms,
                    ids,
                ).0,
                ConsumerEventView::Disconnected,
                elapsed_ms,
                ids,
            ).0,
        ) == Some(Ok::<Seq<u8>, FlingError>(publisher.secret)),
{
}

/// Connection attempts and link polls are bounded: the counters that the
/// states carry never reach their limits.
pub proof fn consumer_retries_are_bounded(
    state: ConsumerStateView,
    event: ConsumerEventView,
    elapsed_ms: u64,
    ids: ExchangeIds,
)
    ensures
        consumer_next(state, event, elapsed_ms, ids).0 matches ConsumerStateView::Connecting(failed)
            ==> failed < CONNECT_ATTEMPTS,
        consumer_next(state, event, elapsed_ms, ids).0 matches ConsumerStateView::AwaitingLink(down)
            ==> down < LINK_POLLS,
{
}

} // verus!
