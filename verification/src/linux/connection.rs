//! The neighbours of a Linux host, as `ip neigh` reports them.

use crate::error::FlingError;
use crate::text::{chars_of, contains_chars, contains_text, find_line_end, find_word, line_end, word};
use crate::tunnel::connection::{counted_poll, poll_counted, Poll, SUBNET};
use vstd::prelude::*;
use vstd::slice::slice_subrange;
use vstd::string::*;

verus! {

/// How often the sender looks for a neighbour before it gives up.
pub const PEER_POLLS: u32 = 30;

/// Pause between two looks, in milliseconds.
pub const PEER_POLL_MS: u64 = 1000;

/// Whether a line of the neighbour table shows a peer on the ephemeral
/// network: it names an address on the subnet and a link-layer address, and
/// is not marked as failed.
pub open spec fn shows_peer(line: Seq<char>) -> bool {
    contains_text(line, SUBNET@) && contains_text(line, "lladdr"@) && !contains_text(line, "FAILED"@)
}

/// The address in the first line at or after `from` that shows a peer: the
/// first word of that line.
pub open spec fn joined_peer_from(table: Seq<char>, from: int) -> Option<Seq<char>>
    decreases table.len() - from,
{
    if from < 0 || from >= table.len() {
        None
    } else {
        let end = line_end(table, from);
        let line = table.subrange(from, end);
        if shows_peer(line) {
            match word(line, 0) {
                Some(address) => Some(address),
                None => Some(Seq::empty()),
            }
        } else if from <= end < table.len() {
            joined_peer_from(table, end + 1)
        } else {
            None
        }
    }
}

/// The address of the first peer that the neighbour table shows.
pub open spec fn joined_peer(table: Seq<char>) -> Option<Seq<char>> {
    joined_peer_from(table, 0)
}

/// Finds the first peer that the neighbour table shows.
pub fn find_joined_peer(table: &str) -> (peer: Option<String>)
    ensures
        match peer {
            Some(address) => joined_peer(table@) == Some(address@),
            None => joined_peer(table@) is None,
        },
{
    let chars = chars_of(table);
    let subnet = chars_of(SUBNET);
    let lladdr = chars_of("lladdr");
    let failed = chars_of("FAILED");
    let mut from: usize = 0;
    while from < chars.len()
        invariant
            chars@ == table@,
            subnet@ == SUBNET@,
            lladdr@ == "lladdr"@,
            failed@ == "FAILED"@,
            joined_peer(table@) == joined_peer_from(table@, from as int),
        decreases chars.len() - from,
    {
        let end = find_line_end(chars.as_slice(), from);
        let line = slice_subrange(chars.as_slice(), from, end);
        if contains_chars(line, subnet.as_slice()) && contains_chars(line, lladdr.as_slice())
            && !contains_chars(line, failed.as_slice()) {
            match find_word(line, 0) {
                Some((start, stop)) => {
                    let address = table.substring_char(from + start, from + stop);
                    assert(address@ =~= line@.subrange(start as int, stop as int));
                    return Some(String::from_str(address));
                },
                None => {
                    return Some(String::new());
                },
            }
        }
        if end >= chars.len() {
            return None;
        }
        from = end + 1;
    }
    None
}

/// What the wait for the receiver comes to after one more look at the
/// neighbour table.
pub enum PeerWait {
    /// A peer has joined; this is its address.
    Joined(String),
    /// Nobody yet. Pause for so many milliseconds and look again.
    Retry(u64),
    /// Nobody joined in time.
    TimedOut,
}

impl PeerWait {
    /// What the wait reports once it has ended: the address of the peer, or
    /// the timeout. A wait that goes on reports nothing yet.
    pub fn outcome(self) -> (outcome: Option<Result<String, FlingError>>)
        ensures
            match outcome {
                Some(Ok(address)) => self == PeerWait::Joined(address),
                Some(Err(error)) => self is TimedOut && error == FlingError::PeerJoinTimeout,
                None => self is Retry,
            },
    {
        match self {
            PeerWait::Joined(address) => Some(Ok(address)),
            PeerWait::Retry(_) => None,
            PeerWait::TimedOut => Some(Err(FlingError::PeerJoinTimeout)),
        }
    }
}

/// Decides how the wait for the receiver goes on. `table` is the neighbour
/// table as it is now, `looks_before` the number of earlier looks.
///
/// The wait ends with the first peer seen, or after [`PEER_POLLS`] looks.
pub fn wait_for_receiver(looks_before: u32, table: &str) -> (wait: PeerWait)
    ensures
        match wait {
            PeerWait::Joined(address) => joined_peer(table@) == Some(address@),
            PeerWait::Retry(pause) => joined_peer(table@) is None && Poll::Retry(pause) == counted_poll(
                false,
                looks_before,
                PEER_POLLS,
                PEER_POLL_MS,
            ),
            PeerWait::TimedOut => joined_peer(table@) is None && Poll::TimedOut == counted_poll(
                false,
                looks_before,
                PEER_POLLS,
                PEER_POLL_MS,
            ),
        },
{
    match find_joined_peer(table) {
        Some(address) => PeerWait::Joined(address),
        None => match poll_counted(false, looks_before, PEER_POLLS, PEER_POLL_MS) {
            Poll::Retry(pause) => PeerWait::Retry(pause),
            _ => PeerWait::TimedOut,
        },
    }
}

} // verus!
