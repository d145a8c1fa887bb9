//! Raw device records as the two enumeration sources report them.

use vstd::prelude::*;
use crate::text::same_text;

verus! {

/// The `interface_number` of a HID record that is not a USB interface,
/// i.e. of a Bluetooth connection.
pub const NON_USB_INTERFACE: i32 = -1;

/// Where a raw record was enumerated.
#[derive(Clone, Copy, Debug, PartialEq, Eq, Structural)]
pub enum Source {
    /// The HID descriptor listing.
    Hid,
    /// The kernel input subsystem.
    OsSubsystem,
}

/// One device as an enumeration source reports it.
#[derive(Clone, Debug)]
pub struct RawDeviceRecord {
    pub vendor_id: u16,
    pub product_id: u16,
    pub serial_number: Option<String>,
    pub interface_number: Option<i32>,
    /// The path or identifier token of the device.
    pub path: String,
    pub source: Source,
}

/// The characters of an optional string.
pub open spec fn opt_view(s: Option<String>) -> Option<Seq<char>> {
    match s {
        Some(t) => Some(t@),
        None => None,
    }
}

impl RawDeviceRecord {
    /// The key by which adjacent records are collapsed.
    pub open spec fn serial_key(&self) -> Option<Seq<char>> {
        opt_view(self.serial_number)
    }

    /// The identifier token of the record.
    pub open spec fn token(&self) -> Seq<char> {
        self.path@
    }

    /// The record describes a Bluetooth (non-USB) connection.
    pub open spec fn spec_is_bluetooth(&self) -> bool {
        self.interface_number == Some(NON_USB_INTERFACE)
    }

    /// Whether the record describes a Bluetooth (non-USB) connection.
    pub fn is_bluetooth(&self) -> (r: bool)
        ensures
            r == self.spec_is_bluetooth(),
    {
        match self.interface_number {
            Some(n) => n == NON_USB_INTERFACE,
            None => false,
        }
    }

    /// Whether both records carry the same serial number (or both none).
    pub fn same_serial(&self, other: &RawDeviceRecord) -> (r: bool)
        ensures
            r == (self.serial_key() == other.serial_key()),
    {
        match (&self.serial_number, &other.serial_number) {
            (Some(a), Some(b)) => same_text(a.as_str(), b.as_str()),
            (None, None) => true,
            _ => false,
        }
    }

    /// Whether both records carry the same identifier token.
    pub fn same_token(&self, other: &RawDeviceRecord) -> (r: bool)
        ensures
            r == (self.token() == other.token()),
    {
        same_text(self.path.as_str(), other.path.as_str())
    }
}

} // verus!
