//! Peers as learned from Bluetooth discovery.

use vstd::prelude::*;
use vstd::string::*;

verus! {

/// A remote device as learned from a discovery event: its advertised name
/// and its link-layer address in text form.
///
/// The address identifies the device; the name is advisory.
#[derive(Debug)]
pub struct DeviceInfo {
    pub name: String,
    pub address: String,
}

/// What a [`DeviceInfo`] holds, as character sequences.
pub struct PeerView {
    pub name: Seq<char>,
    pub address: Seq<char>,
}

impl View for DeviceInfo {
    type V = PeerView;

    open spec fn view(&self) -> PeerView {
        PeerView { name: self.name@, address: self.address@ }
    }
}

impl Clone for DeviceInfo {
    fn clone(&self) -> (copy: Self)
        ensures
            copy == *self,
    {
        DeviceInfo { name: self.name.clone(), address: self.address.clone() }
    }
}

/// The name given to a device that advertises none.
pub open spec fn unnamed() -> Seq<char> {
    seq!['U', 'n', 'n', 'a', 'm', 'e', 'd']
}

/// The name under which a device is listed.
pub open spec fn listed_name(name: Option<Seq<char>>) -> Seq<char> {
    match name {
        Some(n) => n,
        None => unnamed(),
    }
}

/// How a device is shown to the operator: `name (address)`.
pub open spec fn label_of(peer: PeerView) -> Seq<char> {
    peer.name + seq![' ', '('] + peer.address + seq![')']
}

/// The view of an optional string.
pub open spec fn text_of(value: Option<String>) -> Option<Seq<char>> {
    match value {
        Some(s) => Some(s@),
        None => None,
    }
}

/// The six bytes that `text` denotes as a Bluetooth address, if it denotes
/// one.
pub uninterp spec fn parsed_address(text: Seq<char>) -> Option<Seq<u8>>;

/// The error of the `bluer` crate for a text that is no address.
#[verifier::external_type_specification]
#[verifier::external_body]
pub struct ExInvalidAddress(bluer::InvalidAddress);

/// What the parser gave, without its error.
pub open spec fn address_output(result: Result<[u8; 6], bluer::InvalidAddress>) -> Option<Seq<u8>> {
    match result {
        Ok(bytes) => Some(bytes@),
        Err(_) => None,
    }
}

/// `<bluer::Address as FromStr>::from_str` of the `bluer` crate, reached
/// through `str::parse`. Believed of it: whether and to what a text parses
/// depends on the text alone.
#[verifier::external_body]
fn parse_address(text: &str) -> (address: Result<[u8; 6], bluer::InvalidAddress>)
    ensures
        address_output(address) == parsed_address(text@),
{
    match text.parse::<bluer::Address>() {
        Ok(address) => Ok(address.0),
        Err(error) => Err(error),
    }
}

/// The view of an optional address.
pub open spec fn address_of(value: Option<[u8; 6]>) -> Option<Seq<u8>> {
    match value {
        Some(bytes) => Some(bytes@),
        None => None,
    }
}

impl DeviceInfo {
    /// The bytes of the device's address, where its address is well formed.
    pub fn link_address(&self) -> (bytes: Option<[u8; 6]>)
        ensures
            address_of(bytes) == parsed_address(self@.address),
    {
        match parse_address(self.address.as_str()) {
            Ok(bytes) => Some(bytes),
            Err(_) => None,
        }
    }

    /// Describes a device that has just been discovered. A device without a
    /// name is listed as `Unnamed`.
    pub fn new(name: Option<String>, address: String) -> (device: DeviceInfo)
        ensures
            device@ == (PeerView { name: listed_name(text_of(name)), address: address@ }),
    {
        let name = match name {
            Some(n) => n,
            None => {
                proof {
                    reveal_strlit("Unnamed");
                    assert("Unnamed"@ =~= unnamed());
                }
                String::from_str("Unnamed")
            },
        };
        DeviceInfo { name, address }
    }

    /// Whether two descriptors denote the same device, which is the case
    /// exactly when their addresses are equal.
    pub fn same_device(&self, other: &DeviceInfo) -> (same: bool)
        ensures
            same == (self@.address == other@.address),
    {
        self.address == other.address
    }

    /// The line that presents this device to the operator.
    pub fn label(&self) -> (text: String)
        ensures
            text@ == label_of(self@),
    {
        let mut text = self.name.clone();
        proof {
            reveal_strlit(" (");
            reveal_strlit(")");
            assert(" ("@ =~= seq![' ', '(']);
            assert(")"@ =~= seq![')']);
        }
        text.append(" (");
        text.append(self.address.as_str());
        text.append(")");
        text
    }
}

/// The views of a list of devices.
pub open spec fn peers_of(devices: Seq<DeviceInfo>) -> Seq<PeerView> {
    devices.map_values(|d: DeviceInfo| d@)
}

/// How long the adapter is given to come up with the next discovery event
/// before the scan looks at the clock again, in milliseconds.
pub const SCAN_TICK_MS: u64 = 200;

/// What the adapter reports during a scan.
pub enum ScanEvent {
    /// A device appeared, with this name, if it has one, and this address.
    DeviceAdded(Option<String>, String),
    /// Something else happened, or nothing did within the tick.
    Idle,
    /// The adapter failed.
    Failed,
}

/// A [`ScanEvent`] with its texts as character sequences.
pub enum ScanEventView {
    DeviceAdded(Option<Seq<char>>, Seq<char>),
    Idle,
    Failed,
}

impl View for ScanEvent {
    type V = ScanEventView;

    open spec fn view(&self) -> ScanEventView {
        match *self {
            ScanEvent::DeviceAdded(name, address) => ScanEventView::DeviceAdded(text_of(name), address@),
            ScanEvent::Idle => ScanEventView::Idle,
            ScanEvent::Failed => ScanEventView::Failed,
        }
    }
}

/// How a scan goes on.
#[derive(Clone, Copy, Debug, PartialEq, Eq, Structural)]
pub enum ScanStep {
    /// Wait up to so many milliseconds for the next event.
    Continue(u64),
    /// The window has closed; the scan is over.
    Finished,
    /// The adapter failed; the scan is over and has no result.
    Failed,
}

/// The devices found so far, after one more event.
pub open spec fn found_after(found: Seq<PeerView>, event: ScanEventView) -> Seq<PeerView> {
    match event {
        ScanEventView::DeviceAdded(name, address) => found.push(
            PeerView { name: listed_name(name), address },
        ),
        _ => found,
    }
}

/// How a scan goes on after an event, `elapsed_ms` into a window of
/// `window_ms`.
pub open spec fn scan_step(event: ScanEventView, elapsed_ms: u64, window_ms: u64) -> ScanStep {
    if event is Failed {
        ScanStep::Failed
    } else if elapsed_ms < window_ms {
        ScanStep::Continue(SCAN_TICK_MS)
    } else {
        ScanStep::Finished
    }
}

/// Takes one event of a scan: lists the device if one appeared, and decides
/// whether the scan goes on. Devices are listed in the order in which they
/// appear. `elapsed_ms` is the time since the scan started, `window_ms` the
/// time it may take.
pub fn scan_devices(found: &mut Vec<DeviceInfo>, event: ScanEvent, elapsed_ms: u64, window_ms: u64) -> (step:
    ScanStep)
    ensures
        peers_of(final(found)@) == found_after(peers_of(old(found)@), event@),
        step == scan_step(event@, elapsed_ms, window_ms),
{
    match event {
        ScanEvent::DeviceAdded(name, address) => {
            let device = DeviceInfo::new(name, address);
            found.push(device);
            assert(peers_of(found@) =~= peers_of(old(found)@).push(device@));
        },
        ScanEvent::Idle => {},
        ScanEvent::Failed => {
            return ScanStep::Failed;
        },
    }
    if elapsed_ms < window_ms {
        ScanStep::Continue(SCAN_TICK_MS)
    } else {
        ScanStep::Finished
    }
}

} // verus!
