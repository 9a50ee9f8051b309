//! What the serial transport decides and says.
//!
//! Opening a device and writing to it is the business of the program that
//! owns the port. Here are the parts of the transport that are plain
//! computation: the check that comes before a port is opened, the errors
//! and their wording, the labels under which ports are listed, and the
//! bytes of a frame on the wire.

use crate::frame::{Symbol, FRAME_LEN};
use crate::message_transformer::{is_frame_of, TransformerConfig};
use vstd::prelude::*;
use vstd::string::{StrSliceExecFns, StringExecFns, StringSliceAdditionalSpecFns};

verus! {

/// Milliseconds after which a read or write on the port gives up.
pub const PORT_TIMEOUT_MS: u64 = 1000;

/// Why the transport failed. Each variant carries the text of its cause.
#[derive(Clone, Debug, PartialEq, Eq)]
pub enum SerialError {
    /// The serial port layer refused; the text is its report.
    PortError(String),
    /// A write or a flush failed; the text is the system's report.
    IoError(String),
    /// No device stands at this path.
    InvalidPort(String),
}

impl SerialError {
    /// The wording of the error.
    pub open spec fn description(self) -> Seq<char> {
        match self {
            SerialError::PortError(cause) => "Serial port error: "@ + cause@,
            SerialError::IoError(cause) => "IO error: "@ + cause@,
            SerialError::InvalidPort(path) => "Invalid serial port: "@ + path@,
        }
    }

    /// The error in words.
    pub fn message(&self) -> (text: String)
        ensures
            text@ == self.description(),
    {
        match self {
            SerialError::PortError(cause) => String::from_str("Serial port error: ").concat(
                cause.as_str(),
            ),
            SerialError::IoError(cause) => String::from_str("IO error: ").concat(cause.as_str()),
            SerialError::InvalidPort(path) => String::from_str("Invalid serial port: ").concat(
                path.as_str(),
            ),
        }
    }
}

/// The check that comes before a port is opened: a path at which no device
/// stands is refused, and the port is not tried.
pub fn check_port_path(port_path: &str, exists: bool) -> (outcome: Result<(), SerialError>)
    ensures
        exists ==> outcome is Ok,
        !exists ==> (outcome matches Err(SerialError::InvalidPort(path)) && path@ == port_path@),
{
    if exists {
        Ok(())
    } else {
        Err(SerialError::InvalidPort(String::from_str(port_path)))
    }
}

/// How a serial port is attached.
#[derive(Clone, Debug, PartialEq, Eq)]
pub enum PortKind {
    /// On USB, with the product's name where the device gives one.
    Usb { product: Option<String> },
    Bluetooth,
    Pci,
    Unknown,
}

/// A serial port of the machine.
#[derive(Clone, Debug, PartialEq, Eq)]
pub struct PortInfo {
    pub port_name: String,
    pub kind: PortKind,
}

impl PortInfo {
    /// The label of the port: its name, then in brackets how it is
    /// attached; a USB port shows its product, or `Unknown` without one.
    pub open spec fn label(self) -> Seq<char> {
        match self.kind {
            PortKind::Usb { product: Some(name) } => self.port_name@ + " (USB: "@ + name@ + ")"@,
            PortKind::Usb { product: None } => self.port_name@ + " (USB: "@ + "Unknown"@ + ")"@,
            PortKind::Bluetooth => self.port_name@ + " (Bluetooth)"@,
            PortKind::Pci => self.port_name@ + " (PCI)"@,
            PortKind::Unknown => self.port_name@ + " (Unknown)"@,
        }
    }

    /// The label under which the port is listed.
    pub fn describe(&self) -> (text: String)
        ensures
            text@ == self.label(),
    {
        let name = String::from_str(self.port_name.as_str());
        match &self.kind {
            PortKind::Usb { product } => {
                let opened = name.concat(" (USB: ");
                let named = match product {
                    Some(product_name) => opened.concat(product_name.as_str()),
                    None => opened.concat("Unknown"),
                };
                named.concat(")")
            },
            PortKind::Bluetooth => name.concat(" (Bluetooth)"),
            PortKind::Pci => name.concat(" (PCI)"),
            PortKind::Unknown => name.concat(" (Unknown)"),
        }
    }
}

/// The labels of the ports, in the order of the ports.
pub fn port_labels(ports: &Vec<PortInfo>) -> (labels: Vec<String>)
    ensures
        labels.len() == ports.len(),
        forall|i: int| 0 <= i < ports.len() ==> (#[trigger] labels[i])@ == ports[i].label(),
{
    let mut labels: Vec<String> = Vec::new();
    let mut i: usize = 0;
    while i < ports.len()
        invariant
            i <= ports.len(),
            labels.len() == i,
            forall|j: int| 0 <= j < i ==> (#[trigger] labels[j])@ == ports[j].label(),
        decreases ports.len() - i,
    {
        labels.push(ports[i].describe());
        i += 1;
    }
    labels
}

/// The bytes that go over the line for a piece of text: its UTF-8 form.
pub fn wire_bytes(text: &str) -> (bytes: Vec<u8>)
    ensures
        bytes@ == text.spec_bytes(),
{
    text.as_bytes_vec()
}

/// A frame goes over the line as 29 bytes, one per character and each the
/// character's own code.
pub proof fn lemma_frame_on_the_wire(
    text: &str,
    symbol: Symbol,
    config: TransformerConfig,
    lamp_mode: bool,
)
    requires
        is_frame_of(text@, symbol, config, lamp_mode),
    ensures
        text.spec_bytes().len() == FRAME_LEN,
        forall|i: int| 0 <= i < FRAME_LEN ==> text.spec_bytes()[i] == text@[i] as u8,
{
    let frame = text@;
    assert(forall|i: int| 0 <= i < frame.len() ==> '\0' <= #[trigger] frame[i] <= '\u{7f}');
    assert(vstd::string::is_ascii(text));
    vstd::string::is_ascii_spec_bytes(text);
}

} // verus!
