//! Xbox controllers and accessories.

use vstd::prelude::*;
use crate::battery::{
    accessory_reading, chain_reading, default_reading, resolve_accessory, resolve_chain, Reading,
};
use crate::controller::Controller;
use crate::discovery::{assemble, identifier_of};
use crate::family::{classify, family_of, name_of, xbox_name_of, Family, MS_VENDOR_ID, XBOX_ACCESSORY_PID};
use crate::record::RawDeviceRecord;
use crate::text::{has_prefix, starts_with};

verus! {

/// The display name of a Microsoft device; unknown products are "Xbox Unknown".
pub fn get_xbox_controller_name(product_id: u16) -> (r: &'static str)
    ensures
        r@ == xbox_name_of(product_id),
{
    match classify(MS_VENDOR_ID, product_id) {
        Family::XboxOneS => "Xbox One S",
        Family::XboxSeriesXS => "Xbox Series X/S",
        Family::XboxEliteGen2 => "Xbox Elite 2",
        Family::XboxAccessory => "Wireless Adapter",
        _ => "Xbox Unknown",
    }
}

/// Whether a vendor id is Microsoft's.
pub fn is_xbox_controller(vendor_id: u16) -> (r: bool)
    ensures
        r == (vendor_id == MS_VENDOR_ID),
{
    vendor_id == MS_VENDOR_ID
}

/// The reading of an Xbox device found through the kernel input source.
///
/// An accessory takes the outcome of its targeted power-service lookup. A
/// device whose token begins with `gip` takes the outcome of the lookup by
/// its token, and the heuristic default when that failed; any other device
/// takes the heuristic default.
pub open spec fn gip_reading(product_id: u16, gip: Seq<char>, bluetooth: bool, lookup: Option<u8>) -> Reading {
    if product_id == XBOX_ACCESSORY_PID {
        accessory_reading(lookup)
    } else if has_prefix(gip, "gip"@) {
        chain_reading(seq![lookup], bluetooth)
    } else {
        default_reading(bluetooth)
    }
}

/// Gives an Xbox device found through the kernel input source its name,
/// capacity and status. `gip_lookup` is the outcome of the power-service
/// lookup for the device (`None` when it failed or was not made).
pub fn update_xbox_controller(controller: &mut Controller, bluetooth: bool, gip_lookup: Option<u8>)
    ensures
        final(controller).name@ == xbox_name_of(old(controller).product_id),
        final(controller).capacity == gip_reading(
            old(controller).product_id,
            old(controller).gip@,
            bluetooth,
            gip_lookup,
        ).capacity,
        final(controller).status == gip_reading(
            old(controller).product_id,
            old(controller).gip@,
            bluetooth,
            gip_lookup,
        ).status,
        final(controller).wf(),
        final(controller).vendor_id == old(controller).vendor_id,
        final(controller).product_id == old(controller).product_id,
        final(controller).family == old(controller).family,
        final(controller).gip == old(controller).gip,
        final(controller).is_fake == old(controller).is_fake,
{
    controller.name = String::from_str(get_xbox_controller_name(controller.product_id));
    let reading = if controller.product_id == XBOX_ACCESSORY_PID {
        resolve_accessory(gip_lookup)
    } else if starts_with(controller.gip.as_str(), "gip") {
        let probes: Vec<Option<u8>> = vec![gip_lookup];
        assert(probes@ =~= seq![gip_lookup]);
        resolve_chain(&probes, bluetooth)
    } else {
        resolve_chain(&Vec::new(), bluetooth)
    };
    proof {
        reveal_strlit("gip");
    }
    controller.capacity = reading.capacity;
    controller.status = reading.status;
}

/// Builds the controller for an Xbox HID record from the outcomes of its
/// battery lookups, in the order they were tried.
pub fn parse_xbox_controller_data(record: &RawDeviceRecord, probes: &Vec<Option<u8>>) -> (c: Controller)
    ensures
        c.vendor_id == record.vendor_id,
        c.product_id == record.product_id,
        c.family == family_of(record.vendor_id, record.product_id),
        c.name@ == name_of(record.vendor_id, record.product_id),
        c.gip@ == identifier_of(*record),
        (Reading { capacity: c.capacity, status: c.status }) == chain_reading(
            probes@,
            record.spec_is_bluetooth(),
        ),
        c.wf(),
        !c.is_fake,
{
    let reading = resolve_chain(probes, record.is_bluetooth());
    assemble(record, reading)
}

} // verus!
