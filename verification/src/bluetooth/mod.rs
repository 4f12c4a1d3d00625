//! Bluetooth side of a session: who is out there, and the key exchange.

use crate::bluetooth::discovery::{text_of, PeerView};
use vstd::prelude::*;
use vstd::string::*;

pub mod discovery;
pub mod key_exchange;

verus! {

/// How long a discovery session may run, in seconds.
pub const DISCOVERY_WINDOW_SECS: u64 = 20;

/// A device that is currently in range.
#[derive(Debug)]
pub struct DeviceDescriptor {
    pub name: String,
    pub address: String,
}

impl View for DeviceDescriptor {
    type V = PeerView;

    open spec fn view(&self) -> PeerView {
        PeerView { name: self.name@, address: self.address@ }
    }
}

/// The name of a device as a descriptor holds it: empty where the device
/// has none.
pub open spec fn described_name(name: Option<Seq<char>>) -> Seq<char> {
    match name {
        Some(n) => n,
        None => Seq::empty(),
    }
}

impl DeviceDescriptor {
    /// Describes a device by the name, if any, and the address that the
    /// adapter reports for it.
    pub fn new(name: Option<String>, address: String) -> (device: DeviceDescriptor)
        ensures
            device@ == (PeerView { name: described_name(text_of(name)), address: address@ }),
    {
        let name = match name {
            Some(n) => n,
            None => String::new(),
        };
        DeviceDescriptor { name, address }
    }
}

/// What the adapter reports while discovery runs.
pub enum DiscoveryEvent {
    /// A device came into range, with this name, if it has one, and this
    /// address.
    DeviceAdded(Option<String>, String),
    /// The device with this name, if it has one, went out of range.
    DeviceRemoved(Option<String>),
    /// Anything else.
    Other,
}

/// A [`DiscoveryEvent`] with its texts as character sequences.
pub enum DiscoveryEventView {
    DeviceAdded(Option<Seq<char>>, Seq<char>),
    DeviceRemoved(Option<Seq<char>>),
    Other,
}

impl View for DiscoveryEvent {
    type V = DiscoveryEventView;

    open spec fn view(&self) -> DiscoveryEventView {
        match *self {
            DiscoveryEvent::DeviceAdded(name, address) => DiscoveryEventView::DeviceAdded(
                text_of(name),
                address@,
            ),
            DiscoveryEvent::DeviceRemoved(name) => DiscoveryEventView::DeviceRemoved(text_of(name)),
            DiscoveryEvent::Other => DiscoveryEventView::Other,
        }
    }
}

/// The name that stands for a device without one: `NULL`.
pub open spec fn nameless() -> Seq<char> {
    seq!['N', 'U', 'L', 'L']
}

/// The name under which a device is known.
pub open spec fn known_name(name: Option<Seq<char>>) -> Seq<char> {
    match name {
        Some(n) => n,
        None => nameless(),
    }
}

/// The views of a list of descriptors.
pub open spec fn descriptors_of(devices: Seq<DeviceDescriptor>) -> Seq<PeerView> {
    devices.map_values(|d: DeviceDescriptor| d@)
}

/// The devices in range after one more event. A device that comes into
/// range is added at the end. A device that goes out of range is taken off
/// the end if it is the one that was added last; otherwise the list stays.
pub open spec fn in_range_after(devices: Seq<PeerView>, event: DiscoveryEventView) -> Seq<PeerView> {
    match event {
        DiscoveryEventView::DeviceAdded(name, address) => devices.push(
            PeerView { name: known_name(name), address },
        ),
        DiscoveryEventView::DeviceRemoved(name) => if devices.len() > 0 && devices.last().name
            == known_name(name) {
            devices.drop_last()
        } else {
            devices
        },
        DiscoveryEventView::Other => devices,
    }
}

fn name_or_null(name: Option<String>) -> (known: String)
    ensures
        known@ == known_name(text_of(name)),
{
    match name {
        Some(n) => n,
        None => {
            proof {
                reveal_strlit("NULL");
                assert("NULL"@ =~= nameless());
            }
            String::from_str("NULL")
        },
    }
}

/// Takes one event of a discovery session and keeps the list of devices in
/// range up to date. Discovery goes on after a device came or went, and
/// stops at any other event.
pub fn discovery_loop(devices: &mut Vec<DeviceDescriptor>, event: DiscoveryEvent) -> (go_on: bool)
    ensures
        descriptors_of(final(devices)@) == in_range_after(descriptors_of(old(devices)@), event@),
        go_on == !(event@ is Other),
{
    match event {
        DiscoveryEvent::DeviceAdded(name, address) => {
            let device = DeviceDescriptor { name: name_or_null(name), address };
            devices.push(device);
            assert(descriptors_of(devices@) =~= descriptors_of(old(devices)@).push(device@));
            true
        },
        DiscoveryEvent::DeviceRemoved(name) => {
            let gone = name_or_null(name);
            let count = devices.len();
            if count > 0 && devices[count - 1].name == gone {
                devices.pop();
                assert(descriptors_of(devices@) =~= descriptors_of(old(devices)@).drop_last());
            }
            true
        },
        DiscoveryEvent::Other => false,
    }
}

} // verus!
