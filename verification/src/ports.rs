//! The devices offered for selection: how each is labelled, and what a
//! selection leads to.

use vstd::prelude::*;

verus! {

/// The exit status of a process whose interactive selection was cancelled.
pub const CANCELLED_STATUS: i32 = 0;

/// How a serial device is attached, with what is known of it.
#[derive(Clone, Debug, PartialEq, Eq)]
pub enum PortKind {
    /// Attached over USB, with the product and manufacturer names where the
    /// device gives them.
    Usb { product: Option<String>, manufacturer: Option<String> },
    /// A permanent port on PCI.
    Pci,
    /// Attached over Bluetooth.
    Bluetooth,
    /// Not known.
    Unknown,
}

/// One serial device that can be selected.
#[derive(Clone, Debug, PartialEq, Eq)]
pub struct PortInfo {
    /// The device path.
    pub name: String,
    /// How the device is attached.
    pub kind: PortKind,
}

/// What an interactive selection ended in.
#[derive(Clone, Debug, PartialEq, Eq)]
pub enum Selection {
    /// A device was chosen; this is its path.
    Chosen { path: String },
    /// The selection was cancelled.
    Cancelled,
}

/// What follows the device path in a label: for a USB device the names it
/// gives, the product before the manufacturer, after a dash; nothing for any
/// other device, nor for a USB device that gives no name.
pub open spec fn annotation_text(kind: PortKind) -> Seq<char> {
    match kind {
        PortKind::Usb { product: None, manufacturer: None } => Seq::empty(),
        PortKind::Usb { product: None, manufacturer: Some(maker) } => " - "@ + maker@,
        PortKind::Usb { product: Some(product), manufacturer: None } => " - "@ + product@,
        PortKind::Usb { product: Some(product), manufacturer: Some(maker) } => " - "@ + product@
            + " "@ + maker@,
        _ => Seq::empty(),
    }
}

/// The label under which `port` is offered.
pub open spec fn label_text(port: PortInfo) -> Seq<char> {
    port.name@ + annotation_text(port.kind)
}

/// What a selection among `ports` ends in, when the picker returned `picked`:
/// the path of the device at that index, or a cancellation where it returned
/// none.
pub open spec fn selection_of(ports: Seq<PortInfo>, picked: Option<usize>) -> Selection {
    match picked {
        Some(index) => Selection::Chosen { path: ports[index as int].name },
        None => Selection::Cancelled,
    }
}

impl PortInfo {
    /// Builds the label under which this device is offered.
    pub fn label(&self) -> (label: String)
        ensures
            label@ == label_text(*self),
    {
        let name = self.name.clone();
        match &self.kind {
            PortKind::Usb { product, manufacturer } => match (product, manufacturer) {
                (None, None) => name,
                (None, Some(maker)) => name.concat(" - ").concat(maker.as_str()),
                (Some(product), None) => name.concat(" - ").concat(product.as_str()),
                (Some(product), Some(maker)) => name.concat(" - ").concat(product.as_str()).concat(
                    " ",
                ).concat(maker.as_str()),
            },
            _ => name,
        }
    }
}

/// Builds the labels of `ports`, one for each and in the same order.
pub fn port_labels(ports: &Vec<PortInfo>) -> (labels: Vec<String>)
    ensures
        labels@.len() == ports@.len(),
        forall|i: int| 0 <= i < ports@.len() ==> (#[trigger] labels@[i])@ == label_text(ports@[i]),
{
    let mut labels: Vec<String> = Vec::new();
    let mut i: usize = 0;
    while i < ports.len()
        invariant
            i <= ports@.len(),
            labels@.len() == i,
            forall|j: int| 0 <= j < i ==> (#[trigger] labels@[j])@ == label_text(ports@[j]),
        decreases ports@.len() - i,
    {
        labels.push(ports[i].label());
        i += 1;
    }
    labels
}

/// Turns what the picker returned into the outcome of the selection. The
/// chosen device's path is taken over as it stands.
pub fn resolve_selection(ports: &Vec<PortInfo>, picked: Option<usize>) -> (selection: Selection)
    requires
        picked matches Some(index) ==> index < ports@.len(),
    ensures
        selection == selection_of(ports@, picked),
{
    match picked {
        Some(index) => Selection::Chosen { path: ports[index].name.clone() },
        None => Selection::Cancelled,
    }
}

impl Selection {
    /// The exit status that this outcome calls for.
    pub open spec fn status_of(self) -> Option<i32> {
        match self {
            Selection::Chosen { .. } => None,
            Selection::Cancelled => Some(CANCELLED_STATUS),
        }
    }

    /// The status with which the process has to exit on this outcome: that of
    /// a clean end after a cancellation, none after a choice.
    pub fn exit_status(&self) -> (status: Option<i32>)
        ensures
            status == self.status_of(),
    {
        match self {
            Selection::Chosen { .. } => None,
            Selection::Cancelled => Some(CANCELLED_STATUS),
        }
    }
}

} // verus!
