//! The local Bluetooth adapter, as `bluetoothctl` reports it.

use crate::bluetooth::discovery::text_of;
use crate::text::{chars_of, find_word, word};
use vstd::prelude::*;
use vstd::string::*;

verus! {

/// Reads the address of the default adapter off the output of
/// `bluetoothctl list`: it is the second word.
pub fn get_bluetooth_mac(listing: &str) -> (address: Option<String>)
    ensures
        text_of(address) == word(listing@, 1),
{
    let chars = chars_of(listing);
    match find_word(chars.as_slice(), 1) {
        Some((start, end)) => Some(String::from_str(listing.substring_char(start, end))),
        None => None,
    }
}

} // verus!
