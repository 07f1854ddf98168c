//! The serial ports offered to the user: USB devices only, with what they tell
//! about themselves.
use vstd::prelude::*;

verus! {

/// What a USB device reports about itself.
#[derive(Clone, Debug, PartialEq, Eq)]
pub struct UsbInfo {
    pub vid: u16,
    pub pid: u16,
    pub product: Option<String>,
    pub manufacturer: Option<String>,
    pub serial_number: Option<String>,
}

/// A port offered to the user: its name and its USB descriptor.
#[derive(Clone, Debug, PartialEq, Eq)]
pub struct PortInfo {
    pub port_name: String,
    pub port_type: Option<UsbInfo>,
}

/// The kind of device behind a port, as the operating system reports it.
#[derive(Clone, Debug, PartialEq, Eq)]
pub enum PortKind {
    Usb(UsbInfo),
    Pci,
    Bluetooth,
    Unknown,
}

/// A port as the operating system lists it.
#[derive(Clone, Debug, PartialEq, Eq)]
pub struct DetectedPort {
    pub name: String,
    pub kind: PortKind,
}

impl UsbInfo {
    pub fn new(
        vid: u16,
        pid: u16,
        product: Option<String>,
        manufacturer: Option<String>,
        serial_number: Option<String>,
    ) -> (r: UsbInfo)
        ensures
            r == (UsbInfo { vid, pid, product, manufacturer, serial_number }),
    {
        UsbInfo { vid, pid, product, manufacturer, serial_number }
    }
}

impl DetectedPort {
    pub fn new(name: String, kind: PortKind) -> (r: DetectedPort)
        ensures
            r == (DetectedPort { name, kind }),
    {
        DetectedPort { name, kind }
    }
}

/// The entry that a listed port gives: one for a USB device, none otherwise.
pub open spec fn usb_entry(port: DetectedPort) -> Option<PortInfo> {
    match port.kind {
        PortKind::Usb(info) => Some(PortInfo { port_name: port.name, port_type: Some(info) }),
        _ => None,
    }
}

/// The entries of the USB ports among `ports`, in the order listed.
pub open spec fn usb_entries(ports: Seq<DetectedPort>) -> Seq<PortInfo>
    decreases ports.len(),
{
    if ports.len() == 0 {
        Seq::empty()
    } else {
        match usb_entry(ports[0]) {
            Some(entry) => seq![entry] + usb_entries(ports.drop_first()),
            None => usb_entries(ports.drop_first()),
        }
    }
}

/// The ports worth offering: the USB ones, in the order listed, each with its
/// descriptor; other ports are left out.
pub fn select_usb_ports(ports: Vec<DetectedPort>) -> (r: Vec<PortInfo>)
    ensures
        r@ == usb_entries(ports@),
{
    let mut rest = ports;
    let mut selected: Vec<PortInfo> = Vec::new();
    while rest.len() > 0
        invariant
            selected@ + usb_entries(rest@) == usb_entries(ports@),
        decreases rest.len(),
    {
        let ghost before = rest@;
        let port = rest.remove(0);
        assert(rest@ =~= before.drop_first());
        let ghost prior = selected@;
        match port.kind {
            PortKind::Usb(info) => {
                selected.push(PortInfo { port_name: port.name, port_type: Some(info) });
                assert(selected@ + usb_entries(rest@) =~= prior + usb_entries(before));
            },
            _ => {},
        }
    }
    assert(selected@ =~= selected@ + usb_entries(rest@));
    selected
}

} // verus!
