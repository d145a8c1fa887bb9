//! The battery field of the periodic status report that PlayStation and
//! Nintendo controllers send.
//!
//! The report's first byte is its id; the id gives where the status byte
//! stands. Each family packs the level and the charging indication into that
//! byte in its own way.

use vstd::prelude::*;
use crate::family::Family;

verus! {

/// Where the status byte stands in a report of `family` with id `id`.
pub open spec fn status_offset(family: Family, id: u8) -> Option<int> {
    match family {
        Family::DualSense | Family::DualSenseEdge => if id == 0x01 {
            Some(53)
        } else if id == 0x31 {
            Some(54)
        } else {
            None
        },
        Family::DualShock4 => if id == 0x01 {
            Some(30)
        } else if id == 0x11 {
            Some(32)
        } else {
            None
        },
        Family::Nintendo => if id == 0x21 || id == 0x30 {
            Some(2)
        } else {
            None
        },
        _ => None,
    }
}

/// The percentage and charging flag that a status byte `b` encodes.
pub open spec fn status_of_byte(family: Family, b: u8) -> (u8, bool) {
    match family {
        Family::DualShock4 => {
            let level = b % 16;
            (if level >= 10 { 100u8 } else { (level * 10) as u8 }, (b / 16) % 2 == 1 && level <= 10)
        },
        Family::Nintendo => {
            let nibble = b / 16;
            (if nibble / 2 >= 4 { 100u8 } else { ((nibble / 2) * 25) as u8 }, nibble % 2 == 1)
        },
        _ => {
            let level = b % 16;
            (if level >= 10 { 100u8 } else { (level * 10 + 5) as u8 }, b / 16 == 1)
        },
    }
}

/// The percentage and charging flag that a status report of `family`
/// carries, if it is a report with a status byte.
pub open spec fn report_status(family: Family, report: Seq<u8>) -> Option<(u8, bool)> {
    if report.len() == 0 {
        None
    } else {
        match status_offset(family, report[0]) {
            Some(o) => if o < report.len() {
                Some(status_of_byte(family, report[o]))
            } else {
                None
            },
            None => None,
        }
    }
}

/// Decodes the battery field of a status report.
pub fn decode_status_report(family: Family, report: &Vec<u8>) -> (r: Option<(u8, bool)>)
    ensures
        r == report_status(family, report@),
        r matches Some((c, _)) ==> c <= 100,
{
    if report.len() == 0 {
        return None;
    }
    let id = report[0];
    let offset: usize = match family {
        Family::DualSense | Family::DualSenseEdge => if id == 0x01 {
            53
        } else if id == 0x31 {
            54
        } else {
            return None;
        },
        Family::DualShock4 => if id == 0x01 {
            30
        } else if id == 0x11 {
            32
        } else {
            return None;
        },
        Family::Nintendo => if id == 0x21 || id == 0x30 {
            2
        } else {
            return None;
        },
        _ => return None,
    };
    if offset >= report.len() {
        return None;
    }
    let b = report[offset];
    let status = match family {
        Family::DualShock4 => {
            let level = b % 16;
            (if level >= 10 { 100u8 } else { level * 10 }, (b / 16) % 2 == 1 && level <= 10)
        },
        Family::Nintendo => {
            let nibble = b / 16;
            (if nibble / 2 >= 4 { 100u8 } else { (nibble / 2) * 25 }, nibble % 2 == 1)
        },
        _ => {
            let level = b % 16;
            (if level >= 10 { 100u8 } else { level * 10 + 5 }, b / 16 == 1)
        },
    };
    Some(status)
}

} // verus!
