//! The local Bluetooth adapter, as `system_profiler` reports it.

use crate::text::{chars_of, find_line_end, find_trim, line_end, occurs_at, stands_at, trimmed};
use vstd::prelude::*;
use vstd::slice::slice_subrange;
use vstd::string::*;

verus! {

/// The address that a line of the report gives, if it gives one: what
/// follows `Address: ` once the line is trimmed, trimmed again.
pub open spec fn address_in(line: Seq<char>) -> Option<Seq<char>> {
    let entry = trimmed(line);
    let label = "Address: "@;
    if occurs_at(entry, label, 0) {
        Some(trimmed(entry.subrange(label.len() as int, entry.len() as int)))
    } else {
        None
    }
}

/// The address given by the first line at or after `from` that gives one.
pub open spec fn profile_address_from(report: Seq<char>, from: int) -> Option<Seq<char>>
    decreases report.len() - from,
{
    if from < 0 || from >= report.len() {
        None
    } else {
        let end = line_end(report, from);
        match address_in(report.subrange(from, end)) {
            Some(address) => Some(address),
            None => if from <= end < report.len() {
                profile_address_from(report, end + 1)
            } else {
                None
            },
        }
    }
}

/// Reads the address of the adapter off the output of
/// `system_profiler SPBluetoothDataType`: it stands in the first line that
/// starts with `Address: `.
pub fn get_bluetooth_mac(report: &str) -> (address: Option<String>)
    ensures
        match address {
            Some(a) => profile_address_from(report@, 0) == Some(a@),
            None => profile_address_from(report@, 0) is None,
        },
{
    let chars = chars_of(report);
    let label = chars_of("Address: ");
    let mut from: usize = 0;
    while from < chars.len()
        invariant
            chars@ == report@,
            label@ == "Address: "@,
            profile_address_from(report@, 0) == profile_address_from(report@, from as int),
        decreases chars.len() - from,
    {
        let end = find_line_end(chars.as_slice(), from);
        let line = slice_subrange(chars.as_slice(), from, end);
        let (start, stop) = find_trim(line);
        let entry = slice_subrange(line, start, stop);
        assert(entry@ == trimmed(line@));
        if label.len() <= entry.len() && stands_at(entry, label.as_slice(), 0) {
            let rest = slice_subrange(entry, label.len(), entry.len());
            let (first, last) = find_trim(rest);
            let at = from + start + label.len();
            let address = report.substring_char(at + first, at + last);
            assert(address@ =~= trimmed(rest@));
            return Some(String::from_str(address));
        }
        if end >= chars.len() {
            return None;
        }
        from = end + 1;
    }
    None
}

} // verus!
