//! The discovery pass: which enumerated records become controllers, and how
//! a record and its resolved reading are assembled into a controller.
//!
//! The caller enumerates both sources, asks for the plan, performs the
//! battery lookups of each planned record, and assembles the results.

use vstd::prelude::*;
use crate::battery::{report_reading, resolve_report, Reading};
use crate::controller::{clamp, clamp_capacity, Controller};
use crate::dedup::{
    dedup_adjacent, dedup_by_serial, dedup_by_token, dedup_tokens, filter_indices, filter_records,
    indices_valid, keep_records, keep_selected, lemma_dedup_tokens_distinct,
    lemma_keep_selected_tokens_distinct, select_pro, select_pro_controller, tokens_distinct, Selector,
};
use crate::family::{classify, controller_name, family_of, name_of};
use crate::record::RawDeviceRecord;

verus! {

/// The records of a discovery pass that become controllers, in order, as
/// indices into the two enumerations.
pub struct DiscoveryPlan {
    /// Indices into the HID records.
    pub hid: Vec<usize>,
    /// Indices into the kernel input records.
    pub os: Vec<usize>,
}

/// The Pro Controller entry of the HID records.
pub open spec fn pro_plan(s: Seq<RawDeviceRecord>) -> Seq<usize> {
    select_pro(s, filter_indices(s, Selector::NintendoPro, s.len()))
}

/// The other Nintendo entries of the HID records.
pub open spec fn nintendo_plan(s: Seq<RawDeviceRecord>) -> Seq<usize> {
    filter_indices(s, Selector::NintendoOther, s.len())
}

/// The Xbox entries of the HID records.
pub open spec fn xbox_plan(s: Seq<RawDeviceRecord>) -> Seq<usize> {
    keep_selected(
        s,
        dedup_adjacent(s, filter_indices(s, Selector::XboxListed, s.len())),
        Selector::XboxReported,
    )
}

/// The PlayStation entries of the HID records.
pub open spec fn playstation_plan(s: Seq<RawDeviceRecord>) -> Seq<usize> {
    keep_selected(
        s,
        dedup_adjacent(s, filter_indices(s, Selector::AnyRecord, s.len())),
        Selector::PlayStation,
    )
}

/// The HID records that become controllers.
pub open spec fn hid_plan(s: Seq<RawDeviceRecord>) -> Seq<usize> {
    pro_plan(s) + nintendo_plan(s) + xbox_plan(s) + playstation_plan(s)
}

/// The kernel input records that become controllers: the Xbox devices among
/// the first records of each accepted identifier token.
pub open spec fn os_plan(s: Seq<RawDeviceRecord>) -> Seq<usize> {
    keep_selected(
        s,
        dedup_tokens(s, filter_indices(s, Selector::AcceptedToken, s.len())),
        Selector::MicrosoftVendor,
    )
}

/// Within one discovery pass no two kernel input entries share an identifier
/// token, and a Pro Controller yields at most one entry.
pub proof fn lemma_plan_unique_keys(hid: Seq<RawDeviceRecord>, os: Seq<RawDeviceRecord>)
    ensures
        tokens_distinct(os, os_plan(os)),
        pro_plan(hid).len() <= 1,
{
    let accepted = filter_indices(os, Selector::AcceptedToken, os.len());
    lemma_dedup_tokens_distinct(os, accepted);
    lemma_keep_selected_tokens_distinct(os, dedup_tokens(os, accepted), Selector::MicrosoftVendor);
}

/// Chooses the records of both enumerations that become controllers.
pub fn plan_discovery(hid: &Vec<RawDeviceRecord>, os: &Vec<RawDeviceRecord>) -> (r: DiscoveryPlan)
    ensures
        r.hid@ == hid_plan(hid@),
        r.os@ == os_plan(os@),
        indices_valid(hid@, r.hid@),
        indices_valid(os@, r.os@),
{
    let pro = filter_records(hid, Selector::NintendoPro);
    let mut entries = select_pro_controller(hid, &pro);

    let mut nintendo = filter_records(hid, Selector::NintendoOther);
    entries.append(&mut nintendo);

    let xbox_listed = filter_records(hid, Selector::XboxListed);
    let xbox_unique = dedup_by_serial(hid, &xbox_listed);
    let mut xbox = keep_records(hid, &xbox_unique, Selector::XboxReported);
    entries.append(&mut xbox);

    let every = filter_records(hid, Selector::AnyRecord);
    let unique = dedup_by_serial(hid, &every);
    let mut playstation = keep_records(hid, &unique, Selector::PlayStation);
    entries.append(&mut playstation);

    let accepted = filter_records(os, Selector::AcceptedToken);
    let tokens = dedup_by_token(os, &accepted);
    let os_entries = keep_records(os, &tokens, Selector::MicrosoftVendor);
    DiscoveryPlan { hid: entries, os: os_entries }
}

/// The identifier of a record: its serial number where it has one, else its
/// path or token.
pub open spec fn identifier_of(r: RawDeviceRecord) -> Seq<char> {
    match r.serial_number {
        Some(s) => s@,
        None => r.path@,
    }
}

/// Builds the controller of a record from its resolved reading.
pub fn assemble(record: &RawDeviceRecord, reading: Reading) -> (c: Controller)
    ensures
        c.vendor_id == record.vendor_id,
        c.product_id == record.product_id,
        c.family == family_of(record.vendor_id, record.product_id),
        c.name@ == name_of(record.vendor_id, record.product_id),
        c.capacity == clamp_capacity(reading.capacity),
        c.status == reading.status,
        c.gip@ == identifier_of(*record),
        c.wf(),
        !c.is_fake,
{
    let gip = match &record.serial_number {
        Some(s) => s.clone(),
        None => record.path.clone(),
    };
    Controller {
        name: String::from_str(controller_name(record.vendor_id, record.product_id)),
        vendor_id: record.vendor_id,
        product_id: record.product_id,
        family: classify(record.vendor_id, record.product_id),
        capacity: clamp(reading.capacity),
        status: reading.status,
        gip,
        is_fake: false,
    }
}

/// Builds the controller of a PlayStation or Nintendo record from the
/// battery level and charging flag of its own status report.
pub fn parse_reported_controller(record: &RawDeviceRecord, capacity: u8, charging: bool) -> (c: Controller)
    ensures
        c.vendor_id == record.vendor_id,
        c.product_id == record.product_id,
        c.family == family_of(record.vendor_id, record.product_id),
        c.name@ == name_of(record.vendor_id, record.product_id),
        (Reading { capacity: c.capacity, status: c.status }) == report_reading(capacity, charging),
        c.gip@ == identifier_of(*record),
        c.wf(),
        !c.is_fake,
{
    assemble(record, resolve_report(capacity, charging))
}

} // verus!
