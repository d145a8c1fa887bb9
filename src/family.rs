//! Controller families and the identifier tables that classify them.

use vstd::prelude::*;
use crate::xbox::get_xbox_controller_name;

verus! {

pub const VENDOR_ID_NINTENDO: u16 = 0x057e;

pub const PRODUCT_ID_NINTENDO_PROCON: u16 = 0x2009;

pub const MS_VENDOR_ID: u16 = 0x045e;

pub const XBOX_ONE_S_CONTROLLER_USB_PRODUCT_ID: u16 = 0x02ea;

pub const XBOX_ONE_S_CONTROLLER_BT_PRODUCT_ID: u16 = 0x02df;

/// The Xbox One S controller reports this product id after the firmware
/// update that aligned it with the Series X/S controller.
pub const XBOX_ONE_S_LATEST_FW_PRODUCT_ID: u16 = 0x0b20;

pub const XBOX_WIRELESS_CONTROLLER_USB_PRODUCT_ID: u16 = 0x0b12;

pub const XBOX_WIRELESS_CONTROLLER_BT_PRODUCT_ID: u16 = 0x0b13;

pub const XBOX_WIRELESS_ELITE_CONTROLLER_USB_PRODUCT_ID: u16 = 0x0b00;

pub const XBOX_WIRELESS_ELITE_CONTROLLER_BT_PRODUCT_ID: u16 = 0x0b05;

pub const XBOX_WIRELESS_ELITE_CONTROLLER_BTLE_PRODUCT_ID: u16 = 0x0b22;

/// The wireless adapter: an accessory, not a controller.
pub const XBOX_ACCESSORY_PID: u16 = 0x02fe;

pub const DS_VENDOR_ID: u16 = 0x054c;

pub const DS3_PRODUCT_ID: u16 = 0x0268;

pub const DS4_OLD_PRODUCT_ID: u16 = 0x05c4;

pub const DS4_NEW_PRODUCT_ID: u16 = 0x09cc;

pub const DS_PRODUCT_ID: u16 = 0x0ce6;

pub const DS_EDGE_PRODUCT_ID: u16 = 0x0df2;

/// The manufacturer/model group of a controller.
#[derive(Clone, Copy, Debug, PartialEq, Eq, Structural)]
pub enum Family {
    Nintendo,
    XboxOneS,
    XboxSeriesXS,
    XboxEliteGen2,
    XboxAccessory,
    DualShock3,
    DualShock4,
    DualSense,
    DualSenseEdge,
    GenericUnknown,
}

/// The family of a (vendor, product) pair.
pub open spec fn family_of(vendor_id: u16, product_id: u16) -> Family {
    if vendor_id == VENDOR_ID_NINTENDO {
        Family::Nintendo
    } else if vendor_id == MS_VENDOR_ID {
        if product_id == XBOX_ONE_S_CONTROLLER_USB_PRODUCT_ID
            || product_id == XBOX_ONE_S_CONTROLLER_BT_PRODUCT_ID
            || product_id == XBOX_ONE_S_LATEST_FW_PRODUCT_ID {
            Family::XboxOneS
        } else if product_id == XBOX_WIRELESS_CONTROLLER_USB_PRODUCT_ID
            || product_id == XBOX_WIRELESS_CONTROLLER_BT_PRODUCT_ID {
            Family::XboxSeriesXS
        } else if product_id == XBOX_WIRELESS_ELITE_CONTROLLER_USB_PRODUCT_ID
            || product_id == XBOX_WIRELESS_ELITE_CONTROLLER_BT_PRODUCT_ID
            || product_id == XBOX_WIRELESS_ELITE_CONTROLLER_BTLE_PRODUCT_ID {
            Family::XboxEliteGen2
        } else if product_id == XBOX_ACCESSORY_PID {
            Family::XboxAccessory
        } else {
            Family::GenericUnknown
        }
    } else if vendor_id == DS_VENDOR_ID {
        if product_id == DS3_PRODUCT_ID {
            Family::DualShock3
        } else if product_id == DS4_OLD_PRODUCT_ID || product_id == DS4_NEW_PRODUCT_ID {
            Family::DualShock4
        } else if product_id == DS_PRODUCT_ID {
            Family::DualSense
        } else if product_id == DS_EDGE_PRODUCT_ID {
            Family::DualSenseEdge
        } else {
            Family::GenericUnknown
        }
    } else {
        Family::GenericUnknown
    }
}

/// The display name of a controller with the given identifiers.
pub open spec fn name_of(vendor_id: u16, product_id: u16) -> Seq<char> {
    if vendor_id == MS_VENDOR_ID {
        xbox_name_of(product_id)
    } else {
        match family_of(vendor_id, product_id) {
            Family::Nintendo => if product_id == PRODUCT_ID_NINTENDO_PROCON {
                "Pro Controller"@
            } else {
                "Nintendo Controller"@
            },
            Family::DualShock3 => "DualShock3"@,
            Family::DualShock4 => "DualShock 4"@,
            Family::DualSense => "DualSense"@,
            Family::DualSenseEdge => "DualSense Edge"@,
            _ => "Unknown Controller"@,
        }
    }
}

/// The display name of a Microsoft device with the given product id.
pub open spec fn xbox_name_of(product_id: u16) -> Seq<char> {
    match family_of(MS_VENDOR_ID, product_id) {
        Family::XboxOneS => "Xbox One S"@,
        Family::XboxSeriesXS => "Xbox Series X/S"@,
        Family::XboxEliteGen2 => "Xbox Elite 2"@,
        Family::XboxAccessory => "Wireless Adapter"@,
        _ => "Xbox Unknown"@,
    }
}

/// Classifies a (vendor, product) pair; unknown pairs are `GenericUnknown`.
pub fn classify(vendor_id: u16, product_id: u16) -> (r: Family)
    ensures
        r == family_of(vendor_id, product_id),
{
    if vendor_id == VENDOR_ID_NINTENDO {
        Family::Nintendo
    } else if vendor_id == MS_VENDOR_ID {
        match product_id {
            XBOX_ONE_S_CONTROLLER_USB_PRODUCT_ID
            | XBOX_ONE_S_CONTROLLER_BT_PRODUCT_ID
            | XBOX_ONE_S_LATEST_FW_PRODUCT_ID => Family::XboxOneS,
            XBOX_WIRELESS_CONTROLLER_USB_PRODUCT_ID
            | XBOX_WIRELESS_CONTROLLER_BT_PRODUCT_ID => Family::XboxSeriesXS,
            XBOX_WIRELESS_ELITE_CONTROLLER_USB_PRODUCT_ID
            | XBOX_WIRELESS_ELITE_CONTROLLER_BT_PRODUCT_ID
            | XBOX_WIRELESS_ELITE_CONTROLLER_BTLE_PRODUCT_ID => Family::XboxEliteGen2,
            XBOX_ACCESSORY_PID => Family::XboxAccessory,
            _ => Family::GenericUnknown,
        }
    } else if vendor_id == DS_VENDOR_ID {
        match product_id {
            DS3_PRODUCT_ID => Family::DualShock3,
            DS4_OLD_PRODUCT_ID | DS4_NEW_PRODUCT_ID => Family::DualShock4,
            DS_PRODUCT_ID => Family::DualSense,
            DS_EDGE_PRODUCT_ID => Family::DualSenseEdge,
            _ => Family::GenericUnknown,
        }
    } else {
        Family::GenericUnknown
    }
}

/// The display name of a controller with the given identifiers.
pub fn controller_name(vendor_id: u16, product_id: u16) -> (r: &'static str)
    ensures
        r@ == name_of(vendor_id, product_id),
{
    if vendor_id == MS_VENDOR_ID {
        return get_xbox_controller_name(product_id);
    }
    match classify(vendor_id, product_id) {
        Family::Nintendo => if product_id == PRODUCT_ID_NINTENDO_PROCON {
            "Pro Controller"
        } else {
            "Nintendo Controller"
        },
        Family::DualShock3 => "DualShock3",
        Family::DualShock4 => "DualShock 4",
        Family::DualSense => "DualSense",
        Family::DualSenseEdge => "DualSense Edge",
        _ => "Unknown Controller",
    }
}

} // verus!
