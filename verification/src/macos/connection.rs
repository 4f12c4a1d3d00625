//! The wireless interface of a macOS host, as `ifconfig` and `networksetup`
//! report it.

use crate::text::{chars_of, contains_chars, contains_text};
use crate::tunnel::connection::{counted_poll, poll_counted, poll_timed, timed_poll, Poll};
use vstd::prelude::*;

verus! {

/// How often the receiver looks for its address before it gives up.
pub const IP_POLLS: u32 = 30;

/// Pause between two looks for the address, in milliseconds.
pub const IP_POLL_MS: u64 = 1000;

/// How long the receiver waits to see itself associated, in milliseconds.
pub const JOIN_WINDOW_MS: u64 = 20000;

/// Pause between two looks at the association, in milliseconds.
pub const JOIN_POLL_MS: u64 = 2000;

/// Whether the interface report shows an address on the ephemeral network.
pub open spec fn has_address(report: Seq<char>) -> bool {
    contains_text(report, "inet 10.42.0."@)
}

/// Decides how the wait for an address goes on. `report` is the output of
/// `ifconfig` for the wireless interface, `looks_before` the number of
/// earlier looks.
pub fn wait_for_ip(looks_before: u32, report: &str) -> (wait: Poll)
    ensures
        wait == counted_poll(has_address(report@), looks_before, IP_POLLS, IP_POLL_MS),
{
    let chars = chars_of(report);
    let marker = chars_of("inet 10.42.0.");
    let seen = contains_chars(chars.as_slice(), marker.as_slice());
    poll_counted(seen, looks_before, IP_POLLS, IP_POLL_MS)
}

/// Whether the host is seen to be on the wanted network: the query for the
/// current network succeeded and its answer names the network.
pub open spec fn on_network(ssid: Seq<char>, answer: Option<Seq<char>>) -> bool {
    match answer {
        Some(text) => contains_text(text, ssid),
        None => false,
    }
}

/// The view of an optional string slice.
pub open spec fn answer_of(answer: Option<&str>) -> Option<Seq<char>> {
    match answer {
        Some(text) => Some(text@),
        None => None,
    }
}

/// Decides how the wait for the association goes on. `answer` is the output
/// of the query for the current network, if the query succeeded;
/// `elapsed_ms` is the time since the association was asked for.
pub fn join_wifi_direct_network(ssid: &str, elapsed_ms: u64, answer: Option<&str>) -> (wait: Poll)
    ensures
        wait == timed_poll(on_network(ssid@, answer_of(answer)), elapsed_ms, JOIN_WINDOW_MS, JOIN_POLL_MS),
{
    let seen = match answer {
        Some(text) => {
            let hay = chars_of(text);
            let needle = chars_of(ssid);
            contains_chars(hay.as_slice(), needle.as_slice())
        },
        None => false,
    };
    poll_timed(seen, elapsed_ms, JOIN_WINDOW_MS, JOIN_POLL_MS)
}

} // verus!
