//! The bulk transfer engine.
//!
//! One TCP connection on one port carries the file as a raw byte stream; the
//! end of the stream is the end of the file. Sender and receiver run the same
//! loop: read a chunk, write it out, count it. The engine decides which
//! operation comes next and keeps the count; the driver owns the socket, the
//! file and the buffer.

use crate::crypto::{decrypt, decrypted, encrypt, outcome_of, sealed, SharedSecret, NONCE_LEN, TAG_LEN};
use crate::error::FlingError;
use vstd::prelude::*;

verus! {

/// The port the sender listens on.
pub const PORT: u16 = 8080;

/// Size of the buffer that chunks are read into, in bytes.
pub const BUF_SIZE: usize = 1048576;

/// The directory the receiver unpacks into.
pub const OUTPUT_DIR: &'static str = "Rec_Folder";

/// How long the receiver lets the network settle before it connects, in
/// milliseconds.
pub const SETTLE_MS: u64 = 2000;

/// Pause before the receiver tries again to connect, in milliseconds.
pub const DIAL_RETRY_MS: u64 = 500;

/// Which end of the transfer an engine runs.
#[derive(Clone, Copy, Debug, PartialEq, Eq, Structural)]
pub enum Role {
    Sender,
    Receiver,
}

/// The operation a transfer is waiting for.
#[derive(Clone, Copy, Debug, PartialEq, Eq, Structural)]
pub enum TransferPhase {
    /// Sender: binding the listening socket.
    Binding,
    /// Sender: packing the file into one archive.
    Archiving,
    /// Sender: waiting for the one connection.
    Accepting,
    /// Sender: opening the archive.
    Opening,
    /// Receiver: letting the network settle.
    Settling,
    /// Receiver: connecting to the sender.
    Dialing,
    /// Receiver: creating the file that takes the stream.
    Creating,
    /// Reading the next chunk.
    Reading,
    /// Writing out a chunk of this many bytes.
    Writing(usize),
    /// Receiver: flushing what was written.
    Flushing,
    /// Receiver: unpacking the archive.
    Unpacking,
    /// Terminal: the stream went through.
    Done,
    /// Terminal: an operation failed.
    Failed,
}

/// What the driver reports once the outstanding operation is over.
#[derive(Clone, Copy, Debug, PartialEq, Eq, Structural)]
pub enum TransferEvent {
    /// The operation succeeded.
    Completed,
    /// The source is open; this is its size, where it is known.
    Opened(Option<u64>),
    /// So many bytes were read into the buffer. Zero means the stream has
    /// ended.
    Read(usize),
    /// The operation failed.
    Failed,
}

/// What the driver does next.
#[derive(Clone, Copy, Debug, PartialEq, Eq, Structural)]
pub enum TransferAction {
    /// Listen on this port.
    Bind(u16),
    /// Pack the file into the archive.
    Archive,
    /// Accept one connection.
    Accept,
    /// Open the archive and find out its size.
    Open,
    /// Pause for so many milliseconds.
    Settle(u64),
    /// Pause for so many milliseconds, then connect to the sender.
    Dial(u64),
    /// Create the file that takes the stream.
    Create,
    /// Read at most so many bytes into the buffer.
    Read(usize),
    /// Write out the first so many bytes of the buffer, all of them.
    Write(usize),
    /// Flush what was written.
    Flush,
    /// Unpack the archive into the output directory.
    Unpack,
    /// Nothing is left to do.
    Stop,
}

/// The moving part of a transfer.
#[derive(Clone, Copy, Debug, PartialEq, Eq, Structural)]
pub struct Progress {
    pub role: Role,
    pub phase: TransferPhase,
    /// Size of the payload, where it is known.
    pub total_bytes: Option<u64>,
    /// How many bytes have been written out so far.
    pub bytes_moved: u64,
}

/// Where a transfer starts, and with which operation.
pub open spec fn transfer_start(role: Role) -> (Progress, TransferAction) {
    match role {
        Role::Sender => (
            Progress { role, phase: TransferPhase::Binding, total_bytes: None, bytes_moved: 0 },
            TransferAction::Bind(PORT),
        ),
        Role::Receiver => (
            Progress { role, phase: TransferPhase::Settling, total_bytes: None, bytes_moved: 0 },
            TransferAction::Settle(SETTLE_MS),
        ),
    }
}

/// The transfer in phase `phase`, all else unchanged.
pub open spec fn in_phase(p: Progress, phase: TransferPhase) -> Progress {
    Progress { phase, ..p }
}

/// The end of a transfer in which an operation failed.
pub open spec fn broken(p: Progress) -> (Progress, TransferAction) {
    (in_phase(p, TransferPhase::Failed), TransferAction::Stop)
}

/// The step that asks for the next chunk.
pub open spec fn read_on(p: Progress) -> (Progress, TransferAction) {
    (in_phase(p, TransferPhase::Reading), TransferAction::Read(BUF_SIZE))
}

/// The transition function of the engine, with the operation that the new
/// phase asks for.
///
/// A read of no bytes ends the stream cleanly. A failed operation ends the
/// transfer; only the receiver's attempt to connect is repeated, for as long
/// as it takes the network to come up.
pub open spec fn transfer_next(p: Progress, event: TransferEvent) -> (Progress, TransferAction) {
    match p.phase {
        TransferPhase::Binding => match event {
            TransferEvent::Completed => (in_phase(p, TransferPhase::Archiving), TransferAction::Archive),
            _ => broken(p),
        },
        TransferPhase::Archiving => match event {
            TransferEvent::Completed => (in_phase(p, TransferPhase::Accepting), TransferAction::Accept),
            _ => broken(p),
        },
        TransferPhase::Accepting => match event {
            TransferEvent::Completed => (in_phase(p, TransferPhase::Opening), TransferAction::Open),
            _ => broken(p),
        },
        TransferPhase::Opening => match event {
            TransferEvent::Opened(total) => read_on(Progress { total_bytes: total, ..p }),
            _ => broken(p),
        },
        TransferPhase::Settling => match event {
            TransferEvent::Completed => (in_phase(p, TransferPhase::Dialing), TransferAction::Dial(0)),
            _ => broken(p),
        },
        TransferPhase::Dialing => match event {
            TransferEvent::Completed => (in_phase(p, TransferPhase::Creating), TransferAction::Create),
            TransferEvent::Failed => (p, TransferAction::Dial(DIAL_RETRY_MS)),
            _ => broken(p),
        },
        TransferPhase::Creating => match event {
            TransferEvent::Completed => read_on(p),
            _ => broken(p),
        },
        TransferPhase::Reading => match event {
            TransferEvent::Read(n) => if n == 0 {
                match p.role {
                    Role::Sender => (in_phase(p, TransferPhase::Done), TransferAction::Stop),
                    Role::Receiver => (in_phase(p, TransferPhase::Flushing), TransferAction::Flush),
                }
            } else if n <= BUF_SIZE {
                (in_phase(p, TransferPhase::Writing(n)), TransferAction::Write(n))
            } else {
                broken(p)
            },
            _ => broken(p),
        },
        TransferPhase::Writing(n) => match event {
            TransferEvent::Completed => if p.bytes_moved + n <= u64::MAX {
                read_on(Progress { bytes_moved: (p.bytes_moved + n) as u64, ..p })
            } else {
                broken(p)
            },
            _ => broken(p),
        },
        TransferPhase::Flushing => match event {
            TransferEvent::Completed => (in_phase(p, TransferPhase::Unpacking), TransferAction::Unpack),
            _ => broken(p),
        },
        TransferPhase::Unpacking => match event {
            TransferEvent::Completed => (in_phase(p, TransferPhase::Done), TransferAction::Stop),
            _ => broken(p),
        },
        TransferPhase::Done => (p, TransferAction::Stop),
        TransferPhase::Failed => (p, TransferAction::Stop),
    }
}

/// What a finished transfer reports: the number of bytes that went through,
/// or the failure.
pub open spec fn transfer_outcome(p: Progress) -> Option<Result<u64, FlingError>> {
    match p.phase {
        TransferPhase::Done => Some(Ok(p.bytes_moved)),
        TransferPhase::Failed => Some(Err(FlingError::TransferIOError)),
        _ => None,
    }
}

/// The account of one transfer.
pub struct TransferRecord {
    path: String,
    started_at: u64,
    progress: Progress,
}

/// What a [`TransferRecord`] holds.
pub struct RecordView {
    /// What is being sent, or where it is received into.
    pub path: Seq<char>,
    /// When the transfer started, in milliseconds on the driver's clock.
    pub started_at: u64,
    pub progress: Progress,
}

impl View for TransferRecord {
    type V = RecordView;

    closed spec fn view(&self) -> RecordView {
        RecordView { path: self.path@, started_at: self.started_at, progress: self.progress }
    }
}

impl TransferRecord {
    /// What is being sent, or where it is received into.
    pub fn path(&self) -> (path: &str)
        ensures
            path@ == self@.path,
    {
        self.path.as_str()
    }

    /// Where the transfer stands.
    pub fn progress(&self) -> (progress: Progress)
        ensures
            progress == self@.progress,
    {
        self.progress
    }

    /// How many bytes have been written out so far.
    pub fn bytes_moved(&self) -> (moved: u64)
        ensures
            moved == self@.progress.bytes_moved,
    {
        self.progress.bytes_moved
    }

    /// Size of the payload, where it is known.
    pub fn total_bytes(&self) -> (total: Option<u64>)
        ensures
            total == self@.progress.total_bytes,
    {
        self.progress.total_bytes
    }

    /// Time spent on the transfer up to `now`, in milliseconds; zero where
    /// the clock went backwards.
    pub fn elapsed_ms(&self, now: u64) -> (elapsed: u64)
        ensures
            elapsed == (if now >= self@.started_at { now - self@.started_at } else { 0 }),
    {
        if now >= self.started_at {
            now - self.started_at
        } else {
            0
        }
    }

    /// What the transfer reports once it is over.
    pub fn outcome(&self) -> (outcome: Option<Result<u64, FlingError>>)
        ensures
            outcome == transfer_outcome(self@.progress),
    {
        match self.progress.phase {
            TransferPhase::Done => Some(Ok(self.progress.bytes_moved)),
            TransferPhase::Failed => Some(Err(FlingError::TransferIOError)),
            _ => None,
        }
    }

    /// Takes the outcome of the outstanding operation, moves on, and says
    /// which operation comes next.
    pub fn step(&mut self, event: TransferEvent) -> (action: TransferAction)
        ensures
            (final(self)@.progress, action) == transfer_next(old(self)@.progress, event),
            final(self)@.path == old(self)@.path,
            final(self)@.started_at == old(self)@.started_at,
    {
        let p = self.progress;
        let (next, action) = advance(p, event);
        self.progress = next;
        action
    }
}

/// Starts the sender's end of a transfer of the file at `filepath`, and says
/// which operation comes first. `started_at` is the time on the driver's
/// clock, in milliseconds.
pub fn send_file(filepath: &str, started_at: u64) -> (first: (TransferRecord, TransferAction))
    ensures
        first.0@ == (RecordView {
            path: filepath@,
            started_at,
            progress: transfer_start(Role::Sender).0,
        }),
        first.1 == transfer_start(Role::Sender).1,
{
    (
        TransferRecord {
            path: String::from_str(filepath),
            started_at,
            progress: Progress {
                role: Role::Sender,
                phase: TransferPhase::Binding,
                total_bytes: None,
                bytes_moved: 0,
            },
        },
        TransferAction::Bind(PORT),
    )
}

/// Starts the receiver's end of a transfer into the directory `output_dir`,
/// and says which operation comes first. `started_at` is the time on the
/// driver's clock, in milliseconds.
pub fn receive_file(output_dir: &str, started_at: u64) -> (first: (TransferRecord, TransferAction))
    ensures
        first.0@ == (RecordView {
            path: output_dir@,
            started_at,
            progress: transfer_start(Role::Receiver).0,
        }),
        first.1 == transfer_start(Role::Receiver).1,
{
    (
        TransferRecord {
            path: String::from_str(output_dir),
            started_at,
            progress: Progress {
                role: Role::Receiver,
                phase: TransferPhase::Settling,
                total_bytes: None,
                bytes_moved: 0,
            },
        },
        TransferAction::Settle(SETTLE_MS),
    )
}

/// The transition function of the engine, computed.
pub fn advance(p: Progress, event: TransferEvent) -> (next: (Progress, TransferAction))
    ensures
        next == transfer_next(p, event),
{
    let failed = (
        Progress {
            role: p.role,
            phase: TransferPhase::Failed,
            total_bytes: p.total_bytes,
            bytes_moved: p.bytes_moved,
        },
        TransferAction::Stop,
    );
    match p.phase {
        TransferPhase::Binding => match event {
            TransferEvent::Completed => (to_phase(p, TransferPhase::Archiving), TransferAction::Archive),
            _ => failed,
        },
        TransferPhase::Archiving => match event {
            TransferEvent::Completed => (to_phase(p, TransferPhase::Accepting), TransferAction::Accept),
            _ => failed,
        },
        TransferPhase::Accepting => match event {
            TransferEvent::Completed => (to_phase(p, TransferPhase::Opening), TransferAction::Open),
            _ => failed,
        },
        TransferPhase::Opening => match event {
            TransferEvent::Opened(total) => (
                Progress {
                    role: p.role,
                    phase: TransferPhase::Reading,
                    total_bytes: total,
                    bytes_moved: p.bytes_moved,
                },
                TransferAction::Read(BUF_SIZE),
            ),
            _ => failed,
        },
        TransferPhase::Settling => match event {
            TransferEvent::Completed => (to_phase(p, TransferPhase::Dialing), TransferAction::Dial(0)),
            _ => failed,
        },
        TransferPhase::Dialing => match event {
            TransferEvent::Completed => (to_phase(p, TransferPhase::Creating), TransferAction::Create),
            TransferEvent::Failed => (p, TransferAction::Dial(DIAL_RETRY_MS)),
            _ => failed,
        },
        TransferPhase::Creating => match event {
            TransferEvent::Completed => (to_phase(p, TransferPhase::Reading), TransferAction::Read(BUF_SIZE)),
            _ => failed,
        },
        TransferPhase::Reading => match event {
            TransferEvent::Read(n) => {
                if n == 0 {
                    match p.role {
                        Role::Sender => (to_phase(p, TransferPhase::Done), TransferAction::Stop),
                        Role::Receiver => (to_phase(p, TransferPhase::Flushing), TransferAction::Flush),
                    }
                } else if n <= BUF_SIZE {
                    (to_phase(p, TransferPhase::Writing(n)), TransferAction::Write(n))
                } else {
                    failed
                }
            },
            _ => failed,
        },
        TransferPhase::Writing(n) => match event {
            TransferEvent::Completed => match p.bytes_moved.checked_add(n as u64) {
                Some(moved) => (
                    Progress {
                        role: p.role,
                        phase: TransferPhase::Reading,
                        total_bytes: p.total_bytes,
                        bytes_moved: moved,
                    },
                    TransferAction::Read(BUF_SIZE),
                ),
                None => failed,
            },
            _ => failed,
        },
        TransferPhase::Flushing => match event {
            TransferEvent::Completed => (to_phase(p, TransferPhase::Unpacking), TransferAction::Unpack),
            _ => failed,
        },
        TransferPhase::Unpacking => match event {
            TransferEvent::Completed => (to_phase(p, TransferPhase::Done), TransferAction::Stop),
            _ => failed,
        },
        TransferPhase::Done => (p, TransferAction::Stop),
        TransferPhase::Failed => (p, TransferAction::Stop),
    }
}

fn to_phase(p: Progress, phase: TransferPhase) -> (q: Progress)
    ensures
        q == in_phase(p, phase),
{
    Progress { role: p.role, phase, total_bytes: p.total_bytes, bytes_moved: p.bytes_moved }
}

/// Average rate of a transfer of `bytes` bytes in `elapsed_ms` milliseconds,
/// in bits per second, rounded down. No time, no rate.
pub open spec fn rate_of(bytes: u64, elapsed_ms: u64) -> Option<u128> {
    if elapsed_ms == 0 {
        None
    } else {
        Some((bytes as int * 8000 / elapsed_ms as int) as u128)
    }
}

/// Computes the average rate of a transfer, in bits per second.
pub fn bits_per_second(bytes: u64, elapsed_ms: u64) -> (rate: Option<u128>)
    ensures
        rate == rate_of(bytes, elapsed_ms),
{
    if elapsed_ms == 0 {
        None
    } else {
        let bits: u128 = bytes as u128 * 8000;
        Some(bits / elapsed_ms as u128)
    }
}

/// What the receiver recovers from a stream: the stream itself where sealing
/// is off, the opened payload where it is on.
pub open spec fn recovered(sealing: bool, key: Seq<u8>, stream: Seq<u8>) -> Result<Seq<u8>, FlingError> {
    if sealing {
        decrypted(key, stream)
    } else {
        Ok(stream)
    }
}

/// Makes the stream that carries `payload`. With sealing off it is the
/// payload; with sealing on it is a nonce followed by ciphertext and tag.
///
/// Either way the receiver recovers the payload from it, byte for byte.
pub fn seal_payload(sealing: bool, key: &SharedSecret, payload: Vec<u8>) -> (stream: Result<
    Vec<u8>,
    FlingError,
>)
    ensures
        !sealing ==> outcome_of(stream) == Ok::<Seq<u8>, FlingError>(payload@),
        sealing ==> (stream is Ok <==> payload@.len() / 64 < u32::MAX),
        stream matches Err(e) ==> e == FlingError::TransferIOError,
        stream matches Ok(s) ==> {
            &&& recovered(sealing, key@, s@) == Ok::<Seq<u8>, FlingError>(payload@)
            &&& sealing ==> s@.len() == NONCE_LEN + payload@.len() + TAG_LEN
            &&& sealing ==> sealed(key@, s@.subrange(0, NONCE_LEN as int), payload@) == Some(
                s@.subrange(NONCE_LEN as int, s@.len() as int),
            )
        },
{
    if sealing {
        encrypt(key, payload.as_slice())
    } else {
        Ok(payload)
    }
}

/// Recovers the payload from a stream that [`seal_payload`] made.
pub fn open_payload(sealing: bool, key: &SharedSecret, stream: Vec<u8>) -> (payload: Result<
    Vec<u8>,
    FlingError,
>)
    ensures
        outcome_of(payload) == recovered(sealing, key@, stream@),
{
    if sealing {
        decrypt(key, stream.as_slice())
    } else {
        Ok(stream)
    }
}

/// The state of a transfer after `events`, starting from `p`.
pub open spec fn transfer_run(p: Progress, events: Seq<TransferEvent>) -> Progress
    decreases events.len(),
{
    if events.len() == 0 {
        p
    } else {
        transfer_run(transfer_next(p, events[0]).0, events.drop_first())
    }
}

/// What the driver reports while it moves chunks of the given sizes: a read
/// and a completed write for each.
pub open spec fn chunk_events(chunks: Seq<usize>) -> Seq<TransferEvent>
    decreases chunks.len(),
{
    if chunks.len() == 0 {
        Seq::empty()
    } else {
        seq![TransferEvent::Read(chunks[0]), TransferEvent::Completed] + chunk_events(
            chunks.drop_first(),
        )
    }
}

/// The sum of the chunk sizes.
pub open spec fn total_of(chunks: Seq<usize>) -> nat
    decreases chunks.len(),
{
    if chunks.len() == 0 {
        0
    } else {
        chunks[0] as nat + total_of(chunks.drop_first())
    }
}

/// Whether every chunk holds at least one byte and fits the buffer.
pub open spec fn chunks_fit(chunks: Seq<usize>) -> bool {
    forall|i: int| 0 <= i < chunks.len() ==> 0 < #[trigger] chunks[i] <= BUF_SIZE
}

/// What the sender's driver reports before the first chunk.
pub open spec fn sender_prologue(total: Option<u64>) -> Seq<TransferEvent> {
    seq![
        TransferEvent::Completed,
        TransferEvent::Completed,
        TransferEvent::Completed,
        TransferEvent::Opened(total),
    ]
}

/// What the receiver's driver reports before the first chunk, after so many
/// failed attempts to connect.
pub open spec fn receiver_prologue(refused: nat) -> Seq<TransferEvent> {
    seq![TransferEvent::Completed] + Seq::new(refused, |i: int| TransferEvent::Failed)
        + seq![TransferEvent::Completed, TransferEvent::Completed]
}

/// What the receiver's driver reports after the last chunk.
pub open spec fn receiver_epilogue() -> Seq<TransferEvent> {
    seq![TransferEvent::Read(0), TransferEvent::Completed, TransferEvent::Completed]
}

/// Running two lists of events one after the other is running their
/// concatenation.
pub proof fn transfer_run_splits(p: Progress, first: Seq<TransferEvent>, second: Seq<TransferEvent>)
    ensures
        transfer_run(p, first + second) == transfer_run(transfer_run(p, first), second),
    decreases first.len(),
{
    if first.len() == 0 {
        assert(first + second =~= second);
    } else {
        assert((first + second).drop_first() =~= first.drop_first() + second);
        transfer_run_splits(transfer_next(p, first[0]).0, first.drop_first(), second);
    }
}

/// One step never lowers the count of bytes moved, and raises it only when
/// a write has completed, by the size of that write.
pub proof fn bytes_moved_only_grows(p: Progress, event: TransferEvent)
    ensures
        transfer_next(p, event).0.bytes_moved >= p.bytes_moved,
        transfer_next(p, event).0.role == p.role,
        transfer_next(p, event).0.bytes_moved > p.bytes_moved ==> (p.phase matches TransferPhase::Writing(n)
            && event == TransferEvent::Completed && transfer_next(p, event).0.bytes_moved
            == p.bytes_moved + n),
{
}

/// Moving chunks counts every byte once: after any number of chunks the
/// engine is ready for the next read, and the count has grown by their sum.
pub proof fn chunks_are_counted(p: Progress, chunks: Seq<usize>)
    requires
        p.phase == TransferPhase::Reading,
        chunks_fit(chunks),
        p.bytes_moved + total_of(chunks) <= u64::MAX,
    ensures
        transfer_run(p, chunk_events(chunks)) == (Progress {
            bytes_moved: (p.bytes_moved + total_of(chunks)) as u64,
            ..p
        }),
    decreases chunks.len(),
{
    if chunks.len() == 0 {
        assert(chunk_events(chunks) =~= Seq::<TransferEvent>::empty());
    } else {
        let events = chunk_events(chunks);
        let rest = chunk_events(chunks.drop_first());
        let writing = in_phase(p, TransferPhase::Writing(chunks[0]));
        let written = Progress { bytes_moved: (p.bytes_moved + chunks[0]) as u64, ..p };
        assert(0 < chunks[0] <= BUF_SIZE);
        assert(events =~= seq![TransferEvent::Read(chunks[0]), TransferEvent::Completed] + rest);
        assert(events[0] == TransferEvent::Read(chunks[0]));
        assert(events.drop_first()[0] == TransferEvent::Completed);
        assert(events.drop_first().drop_first() =~= rest);
        assert(transfer_next(p, events[0]).0 == writing);
        assert(transfer_next(writing, TransferEvent::Completed).0 == written);
        assert(transfer_run(p, events) == transfer_run(writing, events.drop_first()));
        assert(transfer_run(writing, events.drop_first()) == transfer_run(written, rest));
        assert forall|i: int| 0 <= i < chunks.drop_first().len() implies 0
            < #[trigger] chunks.drop_first()[i] <= BUF_SIZE by {
            assert(chunks.drop_first()[i] == chunks[i + 1]);
        }
        chunks_are_counted(written, chunks.drop_first());
    }
}

/// A sender that meets no failure ends in `Done`, having counted exactly
/// the bytes of the chunks it moved, however the payload was cut into
/// chunks. A payload of no bytes is no exception.
pub proof fn sender_moves_every_byte(total: Option<u64>, chunks: Seq<usize>)
    requires
        chunks_fit(chunks),
        total_of(chunks) <= u64::MAX,
    ensures
        transfer_outcome(
            transfer_run(
                transfer_start(Role::Sender).0,
                sender_prologue(total) + chunk_events(chunks) + seq![TransferEvent::Read(0)],
            ),
        ) == Some(Ok::<u64, FlingError>(total_of(chunks) as u64)),
{
    let start = transfer_start(Role::Sender).0;
    let reading = Progress { phase: TransferPhase::Reading, total_bytes: total, ..start };
    let prologue = sender_prologue(total);
    assert(transfer_run(start, prologue) == reading) by {
        reveal_with_fuel(transfer_run, 5);
    }
    chunks_are_counted(reading, chunks);
    let streamed = transfer_run(reading, chunk_events(chunks));
    let last = seq![TransferEvent::Read(0)];
    assert(transfer_run(streamed, last).phase == TransferPhase::Done && transfer_run(
        streamed,
        last,
    ).bytes_moved == streamed.bytes_moved) by {
        reveal_with_fuel(transfer_run, 2);
    }
    transfer_run_splits(start, prologue, chunk_events(chunks));
    transfer_run_splits(start, prologue + chunk_events(chunks), last);
}

/// A receiver whose only failures are refused connections ends in `Done`,
/// having counted exactly the bytes of the chunks it moved, however many
/// times it had to try to connect.
pub proof fn receiver_moves_every_byte(refused: nat, chunks: Seq<usize>)
    requires
        chunks_fit(chunks),
        total_of(chunks) <= u64::MAX,
    ensures
        transfer_outcome(
            transfer_run(
                transfer_start(Role::Receiver).0,
                receiver_prologue(refused) + chunk_events(chunks) + receiver_epilogue(),
            ),
        ) == Some(Ok::<u64, FlingError>(total_of(chunks) as u64)),
{
    let start = transfer_start(Role::Receiver).0;
    let dialing = in_phase(start, TransferPhase::Dialing);
    let reading = in_phase(start, TransferPhase::Reading);
    let settled = seq![TransferEvent::Completed];
    let refusals = Seq::new(refused, |i: int| TransferEvent::Failed);
    let connected = seq![TransferEvent::Completed, TransferEvent::Completed];
    assert(transfer_run(start, settled) == dialing) by {
        reveal_with_fuel(transfer_run, 2);
    }
    refused_dials_change_nothing(dialing, refused);
    assert(transfer_run(dialing, connected) == reading) by {
        reveal_with_fuel(transfer_run, 3);
    }
    transfer_run_splits(start, settled, refusals);
    transfer_run_splits(start, settled + refusals, connected);
    assert(transfer_run(start, receiver_prologue(refused)) == reading);
    chunks_are_counted(reading, chunks);
    let streamed = transfer_run(reading, chunk_events(chunks));
    assert(transfer_run(streamed, receiver_epilogue()).phase == TransferPhase::Done && transfer_run(
        streamed,
        receiver_epilogue(),
    ).bytes_moved == streamed.bytes_moved) by {
        reveal_with_fuel(transfer_run, 4);
    }
    transfer_run_splits(start, receiver_prologue(refused), chunk_events(chunks));
    transfer_run_splits(
        start,
        receiver_prologue(refused) + chunk_events(chunks),
        receiver_epilogue(),
    );
}

/// A receiver that is refused a connection, any number of times, is still
/// trying to connect.
pub proof fn refused_dials_change_nothing(p: Progress, refused: nat)
    requires
        p.phase == TransferPhase::Dialing,
    ensures
        transfer_run(p, Seq::new(refused, |i: int| TransferEvent::Failed)) == p,
    decreases refused,
{
    let events = Seq::new(refused, |i: int| TransferEvent::Failed);
    if refused > 0 {
        assert(events.drop_first() =~= Seq::new((refused - 1) as nat, |i: int| TransferEvent::Failed));
        refused_dials_change_nothing(p, (refused - 1) as nat);
    }
}

} // verus!
