//! The name of a macOS host, as `scutil` reports it.

use crate::text::{chars_of, find_trim, trimmed};
use vstd::prelude::*;
use vstd::string::*;

verus! {

/// The name a host goes by, given how `scutil --get ComputerName` ended:
/// what it printed, trimmed, or, where it failed, what it complained of,
/// trimmed.
pub open spec fn hostname_from(succeeded: bool, printed: Seq<char>, complaint: Seq<char>) -> Seq<char> {
    if succeeded {
        trimmed(printed)
    } else {
        trimmed(complaint)
    }
}

/// Settles on the name of this host, given how the query for it ended.
pub fn get_hostname(succeeded: bool, printed: &str, complaint: &str) -> (name: String)
    ensures
        name@ == hostname_from(succeeded, printed@, complaint@),
{
    let source = if succeeded {
        printed
    } else {
        complaint
    };
    let chars = chars_of(source);
    let (start, end) = find_trim(chars.as_slice());
    String::from_str(source.substring_char(start, end))
}

} // verus!
