//! The controller entity that a discovery pass returns.

use vstd::prelude::*;
use crate::family::Family;

verus! {

/// The charging state of a controller. More states may be added; `Unknown`
/// is always present and is the default.
#[non_exhaustive]
#[derive(Clone, Copy, Debug, PartialEq, Eq, Structural)]
pub enum Status {
    Unknown,
    Charging,
    Discharging,
}

impl Default for Status {
    fn default() -> (r: Status)
        ensures
            r == Status::Unknown,
    {
        Status::Unknown
    }
}

/// The highest battery percentage.
pub const FULL_CAPACITY: u8 = 100;

/// One discovered controller.
#[derive(Clone, Debug)]
pub struct Controller {
    pub name: String,
    pub vendor_id: u16,
    pub product_id: u16,
    pub family: Family,
    /// Battery percentage; 0 also stands for "could not be determined".
    pub capacity: u8,
    pub status: Status,
    /// The transport-derived identifier: a serial number, a path or a
    /// kernel identifier token.
    pub gip: String,
    /// Set only on controllers injected from a fixture.
    pub is_fake: bool,
}

/// A percentage reading, capped at full.
pub open spec fn clamp_capacity(v: u8) -> u8 {
    if v > FULL_CAPACITY {
        FULL_CAPACITY
    } else {
        v
    }
}

/// Caps a reported percentage at full.
pub fn clamp(v: u8) -> (r: u8)
    ensures
        r == clamp_capacity(v),
        r <= FULL_CAPACITY,
{
    if v > FULL_CAPACITY {
        FULL_CAPACITY
    } else {
        v
    }
}

impl Controller {
    /// The capacity is a percentage.
    pub open spec fn wf(&self) -> bool {
        self.capacity <= FULL_CAPACITY
    }
}

/// Adds the fixture controller, if one was loaded, marked as fake and with its
/// capacity capped at full. A fixture that could not be read or parsed
/// arrives as `None` and adds nothing.
pub fn inject_fixture(controllers: &mut Vec<Controller>, fixture: Option<Controller>)
    ensures
        fixture is None ==> final(controllers)@ == old(controllers)@,
        fixture is Some ==> final(controllers)@ == old(controllers)@.push(
            (Controller {
                is_fake: true,
                capacity: clamp_capacity(fixture->Some_0.capacity),
                ..fixture->Some_0
            }),
        ),
{
    if let Some(mut controller) = fixture {
        controller.is_fake = true;
        controller.capacity = clamp(controller.capacity);
        controllers.push(controller);
    }
}

} // verus!
