//! The battery/status fallback chain.
//!
//! Each lookup strategy is performed by the caller, which hands its outcome
//! here: `Some(percentage)` for a definite answer, `None` for a failure. The
//! first definite answer wins; when every strategy fails, the heuristic
//! default applies.

use vstd::prelude::*;
use crate::controller::{clamp, clamp_capacity, Status, FULL_CAPACITY};

verus! {

/// A resolved battery percentage and charging state.
#[derive(Clone, Copy, Debug, PartialEq, Eq, Structural)]
pub struct Reading {
    pub capacity: u8,
    pub status: Status,
}

/// When nothing could be measured: a USB connection is taken as external
/// power, fully charged and charging; a Bluetooth one as unknown at zero.
pub open spec fn default_reading(bluetooth: bool) -> Reading {
    if bluetooth {
        Reading { capacity: 0, status: Status::Unknown }
    } else {
        Reading { capacity: FULL_CAPACITY, status: Status::Charging }
    }
}

/// The first definite outcome of a chain of lookups.
pub open spec fn first_success(probes: Seq<Option<u8>>) -> Option<u8>
    decreases probes.len(),
{
    if probes.len() == 0 {
        None
    } else if probes[0] is Some {
        probes[0]
    } else {
        first_success(probes.drop_first())
    }
}

/// The reading that a chain of lookup outcomes resolves to.
pub open spec fn chain_reading(probes: Seq<Option<u8>>, bluetooth: bool) -> Reading {
    match first_success(probes) {
        Some(v) => Reading { capacity: clamp_capacity(v), status: Status::Unknown },
        None => default_reading(bluetooth),
    }
}

/// The reading of an accessory: it is taken to be externally powered,
/// whether or not its level could be read.
pub open spec fn accessory_reading(lookup: Option<u8>) -> Reading {
    match lookup {
        Some(v) => Reading { capacity: clamp_capacity(v), status: Status::Charging },
        None => Reading { capacity: 0, status: Status::Charging },
    }
}

/// The reading of a controller's own status report.
pub open spec fn report_reading(capacity: u8, charging: bool) -> Reading {
    Reading {
        capacity: clamp_capacity(capacity),
        status: if charging {
            Status::Charging
        } else {
            Status::Unknown
        },
    }
}

/// A chain whose every lookup failed has no definite outcome.
proof fn lemma_no_success(probes: Seq<Option<u8>>)
    requires
        forall|k: int| 0 <= k < probes.len() ==> probes[k] is None,
    ensures
        first_success(probes) is None,
    decreases probes.len(),
{
    if probes.len() > 0 {
        lemma_no_success(probes.drop_first());
    }
}

/// Whichever tier of the chain produced it, a capacity is a percentage.
pub proof fn lemma_capacity_in_range(
    probes: Seq<Option<u8>>,
    bluetooth: bool,
    lookup: Option<u8>,
    capacity: u8,
    charging: bool,
)
    ensures
        chain_reading(probes, bluetooth).capacity <= FULL_CAPACITY,
        accessory_reading(lookup).capacity <= FULL_CAPACITY,
        report_reading(capacity, charging).capacity <= FULL_CAPACITY,
        default_reading(bluetooth).capacity <= FULL_CAPACITY,
{
}

/// A controller whose every lookup failed takes the heuristic default:
/// charging at full over USB, unknown at zero over Bluetooth.
pub proof fn lemma_all_failed_gives_default(probes: Seq<Option<u8>>, bluetooth: bool)
    requires
        forall|k: int| 0 <= k < probes.len() ==> probes[k] is None,
    ensures
        chain_reading(probes, bluetooth) == default_reading(bluetooth),
        !bluetooth ==> chain_reading(probes, bluetooth).capacity == 100
            && chain_reading(probes, bluetooth).status == Status::Charging,
        bluetooth ==> chain_reading(probes, bluetooth).capacity == 0
            && chain_reading(probes, bluetooth).status == Status::Unknown,
{
    lemma_no_success(probes);
}

/// The heuristic default for a controller whose every lookup failed.
pub fn heuristic_default(bluetooth: bool) -> (r: Reading)
    ensures
        r == default_reading(bluetooth),
        r.capacity <= FULL_CAPACITY,
{
    if bluetooth {
        Reading { capacity: 0, status: Status::Unknown }
    } else {
        Reading { capacity: FULL_CAPACITY, status: Status::Charging }
    }
}

/// Resolves a chain of lookup outcomes, tried in order.
pub fn resolve_chain(probes: &Vec<Option<u8>>, bluetooth: bool) -> (r: Reading)
    ensures
        r == chain_reading(probes@, bluetooth),
        r.capacity <= FULL_CAPACITY,
{
    let mut i: usize = 0;
    assert(probes@.subrange(0, probes@.len() as int) =~= probes@);
    while i < probes.len()
        invariant
            i <= probes@.len(),
            first_success(probes@) == first_success(probes@.subrange(i as int, probes@.len() as int)),
        decreases probes.len() - i,
    {
        let ghost rest = probes@.subrange(i as int, probes@.len() as int);
        assert(rest.drop_first() =~= probes@.subrange(i + 1, probes@.len() as int));
        if let Some(v) = probes[i] {
            return Reading { capacity: clamp(v), status: Status::Unknown };
        }
        i += 1;
    }
    assert(probes@.subrange(i as int, probes@.len() as int).len() == 0);
    heuristic_default(bluetooth)
}

/// Resolves the reading of an accessory from its targeted lookup.
pub fn resolve_accessory(lookup: Option<u8>) -> (r: Reading)
    ensures
        r == accessory_reading(lookup),
        r.capacity <= FULL_CAPACITY,
{
    match lookup {
        Some(v) => Reading { capacity: clamp(v), status: Status::Charging },
        None => Reading { capacity: 0, status: Status::Charging },
    }
}

/// Resolves the reading given by a controller's own status report.
pub fn resolve_report(capacity: u8, charging: bool) -> (r: Reading)
    ensures
        r == report_reading(capacity, charging),
        r.capacity <= FULL_CAPACITY,
{
    Reading {
        capacity: clamp(capacity),
        status: if charging {
            Status::Charging
        } else {
            Status::Unknown
        },
    }
}

} // verus!
