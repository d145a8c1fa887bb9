//! Record selection and the per-family deduplication policies.
//!
//! Records are referred to by their index in the enumeration they came from;
//! each stage maps a sequence of indices to a subsequence of it.

use vstd::prelude::*;
use crate::family::{
    DS3_PRODUCT_ID, DS4_NEW_PRODUCT_ID, DS4_OLD_PRODUCT_ID, DS_EDGE_PRODUCT_ID, DS_PRODUCT_ID,
    DS_VENDOR_ID, MS_VENDOR_ID, PRODUCT_ID_NINTENDO_PROCON, VENDOR_ID_NINTENDO,
    XBOX_ONE_S_CONTROLLER_BT_PRODUCT_ID, XBOX_ONE_S_LATEST_FW_PRODUCT_ID,
    XBOX_WIRELESS_CONTROLLER_BT_PRODUCT_ID, XBOX_WIRELESS_CONTROLLER_USB_PRODUCT_ID,
    XBOX_WIRELESS_ELITE_CONTROLLER_BTLE_PRODUCT_ID, XBOX_WIRELESS_ELITE_CONTROLLER_BT_PRODUCT_ID,
    XBOX_WIRELESS_ELITE_CONTROLLER_USB_PRODUCT_ID,
};
use crate::record::RawDeviceRecord;
use crate::text::{has_prefix, same_text, starts_with};

verus! {

/// Which records a selection stage keeps.
#[derive(Clone, Copy, Debug, PartialEq, Eq, Structural)]
pub enum Selector {
    /// Nintendo Pro Controllers.
    NintendoPro,
    /// Nintendo devices other than the Pro Controller.
    NintendoOther,
    /// The Xbox controllers that take part in serial deduplication.
    XboxListed,
    /// The Xbox controllers that are reported once deduplicated.
    XboxReported,
    /// The PlayStation controllers.
    PlayStation,
    /// Devices of Microsoft's vendor id.
    MicrosoftVendor,
    /// Records whose identifier token names an input or gip device.
    AcceptedToken,
    /// Every record.
    AnyRecord,
}

/// The identifier token reserved for diagnostics, never a controller.
pub open spec fn reserved_token() -> Seq<char> {
    "gip0.1"@
}

/// An identifier token of the kernel input source that may name a controller.
pub open spec fn token_accepted(t: Seq<char>) -> bool {
    (has_prefix(t, "gip"@) || has_prefix(t, "input"@)) && t != reserved_token()
}

pub open spec fn selects(sel: Selector, r: RawDeviceRecord) -> bool {
    let v = r.vendor_id;
    let p = r.product_id;
    match sel {
        Selector::NintendoPro => v == VENDOR_ID_NINTENDO && p == PRODUCT_ID_NINTENDO_PROCON,
        Selector::NintendoOther => v == VENDOR_ID_NINTENDO && p != PRODUCT_ID_NINTENDO_PROCON,
        Selector::XboxListed => v == MS_VENDOR_ID && (p == XBOX_ONE_S_CONTROLLER_BT_PRODUCT_ID
            || p == XBOX_ONE_S_LATEST_FW_PRODUCT_ID || p == XBOX_WIRELESS_CONTROLLER_USB_PRODUCT_ID
            || p == XBOX_WIRELESS_CONTROLLER_BT_PRODUCT_ID
            || p == XBOX_WIRELESS_ELITE_CONTROLLER_USB_PRODUCT_ID
            || p == XBOX_WIRELESS_ELITE_CONTROLLER_BT_PRODUCT_ID
            || p == XBOX_WIRELESS_ELITE_CONTROLLER_BTLE_PRODUCT_ID),
        Selector::XboxReported => v == MS_VENDOR_ID && (p == XBOX_ONE_S_CONTROLLER_BT_PRODUCT_ID
            || p == XBOX_ONE_S_LATEST_FW_PRODUCT_ID || p == XBOX_WIRELESS_CONTROLLER_BT_PRODUCT_ID
            || p == XBOX_WIRELESS_ELITE_CONTROLLER_BT_PRODUCT_ID
            || p == XBOX_WIRELESS_ELITE_CONTROLLER_BTLE_PRODUCT_ID),
        Selector::PlayStation => v == DS_VENDOR_ID && (p == DS3_PRODUCT_ID || p == DS_PRODUCT_ID
            || p == DS_EDGE_PRODUCT_ID || p == DS4_NEW_PRODUCT_ID || p == DS4_OLD_PRODUCT_ID),
        Selector::MicrosoftVendor => v == MS_VENDOR_ID,
        Selector::AcceptedToken => token_accepted(r.token()),
        Selector::AnyRecord => true,
    }
}

/// Whether a record is kept by the selection stage `sel`.
pub fn select(sel: Selector, r: &RawDeviceRecord) -> (b: bool)
    ensures
        b == selects(sel, *r),
{
    let v = r.vendor_id;
    let p = r.product_id;
    match sel {
        Selector::NintendoPro => v == VENDOR_ID_NINTENDO && p == PRODUCT_ID_NINTENDO_PROCON,
        Selector::NintendoOther => v == VENDOR_ID_NINTENDO && p != PRODUCT_ID_NINTENDO_PROCON,
        Selector::XboxListed => v == MS_VENDOR_ID && (p == XBOX_ONE_S_CONTROLLER_BT_PRODUCT_ID
            || p == XBOX_ONE_S_LATEST_FW_PRODUCT_ID || p == XBOX_WIRELESS_CONTROLLER_USB_PRODUCT_ID
            || p == XBOX_WIRELESS_CONTROLLER_BT_PRODUCT_ID
            || p == XBOX_WIRELESS_ELITE_CONTROLLER_USB_PRODUCT_ID
            || p == XBOX_WIRELESS_ELITE_CONTROLLER_BT_PRODUCT_ID
            || p == XBOX_WIRELESS_ELITE_CONTROLLER_BTLE_PRODUCT_ID),
        Selector::XboxReported => v == MS_VENDOR_ID && (p == XBOX_ONE_S_CONTROLLER_BT_PRODUCT_ID
            || p == XBOX_ONE_S_LATEST_FW_PRODUCT_ID || p == XBOX_WIRELESS_CONTROLLER_BT_PRODUCT_ID
            || p == XBOX_WIRELESS_ELITE_CONTROLLER_BT_PRODUCT_ID
            || p == XBOX_WIRELESS_ELITE_CONTROLLER_BTLE_PRODUCT_ID),
        Selector::PlayStation => v == DS_VENDOR_ID && (p == DS3_PRODUCT_ID || p == DS_PRODUCT_ID
            || p == DS_EDGE_PRODUCT_ID || p == DS4_NEW_PRODUCT_ID || p == DS4_OLD_PRODUCT_ID),
        Selector::MicrosoftVendor => v == MS_VENDOR_ID,
        Selector::AcceptedToken => {
            let t = r.path.as_str();
            proof {
                reveal_strlit("gip");
                reveal_strlit("input");
            }
            (starts_with(t, "gip") || starts_with(t, "input")) && !same_text(t, "gip0.1")
        },
        Selector::AnyRecord => true,
    }
}

/// Every index of `idx` refers to a record of `s`.
pub open spec fn indices_valid(s: Seq<RawDeviceRecord>, idx: Seq<usize>) -> bool {
    forall|k: int| 0 <= k < idx.len() ==> #[trigger] idx[k] < s.len()
}

/// The indices, in order, of the first `n` records of `s` that `sel` keeps.
pub open spec fn filter_indices(s: Seq<RawDeviceRecord>, sel: Selector, n: nat) -> Seq<usize>
    decreases n,
{
    if n == 0 {
        seq![]
    } else {
        let p = filter_indices(s, sel, (n - 1) as nat);
        if selects(sel, s[n - 1]) {
            p.push((n - 1) as usize)
        } else {
            p
        }
    }
}

/// The indices of `idx` whose records `sel` keeps.
pub open spec fn keep_selected(s: Seq<RawDeviceRecord>, idx: Seq<usize>, sel: Selector) -> Seq<usize>
    decreases idx.len(),
{
    if idx.len() == 0 {
        seq![]
    } else {
        let p = keep_selected(s, idx.drop_last(), sel);
        if selects(sel, s[idx.last() as int]) {
            p.push(idx.last())
        } else {
            p
        }
    }
}

/// Adjacency deduplication: an index is kept when it is the first, or when
/// its record's serial number differs from that of the index before it.
pub open spec fn dedup_adjacent(s: Seq<RawDeviceRecord>, idx: Seq<usize>) -> Seq<usize>
    decreases idx.len(),
{
    if idx.len() == 0 {
        seq![]
    } else {
        let p = dedup_adjacent(s, idx.drop_last());
        let k = idx.len() - 1;
        if k == 0 || s[idx[k] as int].serial_key() != s[idx[k - 1] as int].serial_key() {
            p.push(idx[k])
        } else {
            p
        }
    }
}

/// The identifier token of the record at position `k` of `idx` occurred at
/// an earlier position.
pub open spec fn token_seen_before(s: Seq<RawDeviceRecord>, idx: Seq<usize>, k: int) -> bool {
    exists|j: int| 0 <= j < k && s[idx[j] as int].token() == s[idx[k] as int].token()
}

/// Set deduplication by identifier token: the first occurrence of each
/// token is kept, wherever its repeats stand.
pub open spec fn dedup_tokens(s: Seq<RawDeviceRecord>, idx: Seq<usize>) -> Seq<usize>
    decreases idx.len(),
{
    if idx.len() == 0 {
        seq![]
    } else {
        let p = dedup_tokens(s, idx.drop_last());
        if token_seen_before(s, idx, idx.len() - 1) {
            p
        } else {
            p.push(idx.last())
        }
    }
}

/// The Pro Controller records that stand for the one physical controller:
/// one record (Bluetooth) or two (USB) give the first; three (USB and
/// Bluetooth) give the first with the non-USB interface; any other count
/// gives none.
pub open spec fn select_pro(s: Seq<RawDeviceRecord>, idx: Seq<usize>) -> Seq<usize> {
    if idx.len() == 1 || idx.len() == 2 {
        seq![idx[0]]
    } else if idx.len() == 3 {
        if s[idx[0] as int].spec_is_bluetooth() {
            seq![idx[0]]
        } else if s[idx[1] as int].spec_is_bluetooth() {
            seq![idx[1]]
        } else if s[idx[2] as int].spec_is_bluetooth() {
            seq![idx[2]]
        } else {
            seq![]
        }
    } else {
        seq![]
    }
}

/// The indices of `idx` increase strictly.
pub open spec fn strictly_increasing(idx: Seq<usize>) -> bool {
    forall|a: int, b: int| 0 <= a < b < idx.len() ==> idx[a] < idx[b]
}

/// Every entry of an adjacency deduplication comes from its input.
proof fn lemma_dedup_adjacent_from_input(s: Seq<RawDeviceRecord>, idx: Seq<usize>)
    ensures
        forall|m: int|
            0 <= m < dedup_adjacent(s, idx).len() ==> exists|j: int|
                0 <= j < idx.len() && idx[j] == #[trigger] dedup_adjacent(s, idx)[m],
    decreases idx.len(),
{
    if idx.len() > 0 {
        let d = idx.drop_last();
        lemma_dedup_adjacent_from_input(s, d);
        assert forall|m: int| 0 <= m < dedup_adjacent(s, idx).len() implies exists|j: int|
            0 <= j < idx.len() && idx[j] == #[trigger] dedup_adjacent(s, idx)[m] by {
            if m < dedup_adjacent(s, d).len() {
                let j = choose|j: int| 0 <= j < d.len() && d[j] == dedup_adjacent(s, d)[m];
                assert(idx[j] == d[j]);
            } else {
                assert(idx[idx.len() - 1] == dedup_adjacent(s, idx)[m]);
            }
        }
    }
}

/// The last entry of an adjacency deduplication has the serial number of
/// the last input.
proof fn lemma_dedup_adjacent_last(s: Seq<RawDeviceRecord>, idx: Seq<usize>)
    requires
        idx.len() > 0,
    ensures
        dedup_adjacent(s, idx).len() > 0,
        s[dedup_adjacent(s, idx).last() as int].serial_key() == s[idx.last() as int].serial_key(),
    decreases idx.len(),
{
    let d = idx.drop_last();
    if d.len() > 0 {
        lemma_dedup_adjacent_last(s, d);
    }
}

/// After adjacency deduplication no two neighbouring entries share a serial
/// number.
pub proof fn lemma_dedup_adjacent_neighbours_differ(s: Seq<RawDeviceRecord>, idx: Seq<usize>)
    ensures
        forall|m: int|
            0 <= m < dedup_adjacent(s, idx).len() - 1 ==> s[#[trigger] dedup_adjacent(s, idx)[m] as int].serial_key()
                != s[dedup_adjacent(s, idx)[m + 1] as int].serial_key(),
    decreases idx.len(),
{
    if idx.len() > 0 {
        let d = idx.drop_last();
        lemma_dedup_adjacent_neighbours_differ(s, d);
        if d.len() > 0 {
            lemma_dedup_adjacent_last(s, d);
        }
    }
}

/// An input whose serial number differs from that of the input before it is
/// kept by adjacency deduplication, even where an earlier, separated input
/// has the same serial number.
pub proof fn lemma_dedup_adjacent_keeps_changes(s: Seq<RawDeviceRecord>, idx: Seq<usize>, k: int)
    requires
        0 <= k < idx.len(),
        k == 0 || s[idx[k] as int].serial_key() != s[idx[k - 1] as int].serial_key(),
    ensures
        dedup_adjacent(s, idx).contains(idx[k]),
    decreases idx.len(),
{
    let d = idx.drop_last();
    if k == idx.len() - 1 {
        assert(dedup_adjacent(s, idx).last() == idx[k]);
    } else {
        lemma_dedup_adjacent_keeps_changes(s, d, k);
        let j = choose|j: int| 0 <= j < dedup_adjacent(s, d).len() && dedup_adjacent(s, d)[j] == idx[k];
        assert(dedup_adjacent(s, idx)[j] == idx[k]);
    }
}

/// An input whose serial number equals that of the input just before it is
/// collapsed into it by adjacency deduplication.
pub proof fn lemma_dedup_adjacent_drops_repeats(s: Seq<RawDeviceRecord>, idx: Seq<usize>, k: int)
    requires
        0 < k < idx.len(),
        s[idx[k] as int].serial_key() == s[idx[k - 1] as int].serial_key(),
        strictly_increasing(idx),
    ensures
        !dedup_adjacent(s, idx).contains(idx[k]),
    decreases idx.len(),
{
    let d = idx.drop_last();
    if k == idx.len() - 1 {
        lemma_dedup_adjacent_from_input(s, d);
        assert forall|m: int| 0 <= m < dedup_adjacent(s, idx).len() implies dedup_adjacent(s, idx)[m]
            != idx[k] by {
            let j = choose|j: int| 0 <= j < d.len() && d[j] == #[trigger] dedup_adjacent(s, d)[m];
            assert(idx[j] < idx[k]);
        }
    } else {
        lemma_dedup_adjacent_drops_repeats(s, d, k);
        assert forall|m: int| 0 <= m < dedup_adjacent(s, idx).len() implies dedup_adjacent(s, idx)[m]
            != idx[k] by {
            if m < dedup_adjacent(s, d).len() {
                assert(dedup_adjacent(s, d)[m] != d[k]);
            } else {
                assert(idx[idx.len() - 1] > idx[k]);
            }
        }
    }
}

/// Every entry of a token deduplication comes from an earlier position of
/// its input.
proof fn lemma_dedup_tokens_from_input(s: Seq<RawDeviceRecord>, idx: Seq<usize>)
    ensures
        forall|m: int|
            0 <= m < dedup_tokens(s, idx).len() ==> exists|j: int|
                0 <= j < idx.len() && idx[j] == #[trigger] dedup_tokens(s, idx)[m],
    decreases idx.len(),
{
    if idx.len() > 0 {
        let d = idx.drop_last();
        lemma_dedup_tokens_from_input(s, d);
        assert forall|m: int| 0 <= m < dedup_tokens(s, idx).len() implies exists|j: int|
            0 <= j < idx.len() && idx[j] == #[trigger] dedup_tokens(s, idx)[m] by {
            if m < dedup_tokens(s, d).len() {
                let j = choose|j: int| 0 <= j < d.len() && d[j] == dedup_tokens(s, d)[m];
                assert(idx[j] == d[j]);
            } else {
                assert(idx[idx.len() - 1] == dedup_tokens(s, idx)[m]);
            }
        }
    }
}

/// After token deduplication no two entries share an identifier token.
pub proof fn lemma_dedup_tokens_distinct(s: Seq<RawDeviceRecord>, idx: Seq<usize>)
    ensures
        tokens_distinct(s, dedup_tokens(s, idx)),
    decreases idx.len(),
{
    if idx.len() > 0 {
        let d = idx.drop_last();
        lemma_dedup_tokens_distinct(s, d);
        lemma_dedup_tokens_from_input(s, d);
        let r = dedup_tokens(s, idx);
        let p = dedup_tokens(s, d);
        if !token_seen_before(s, idx, idx.len() - 1) {
            assert forall|a: int, b: int| 0 <= a < b < r.len() implies s[#[trigger] r[a] as int].token()
                != s[#[trigger] r[b] as int].token() by {
                if b == r.len() - 1 {
                    let j = choose|j: int| 0 <= j < d.len() && d[j] == #[trigger] p[a];
                    assert(idx[j] == r[a]);
                    if s[r[a] as int].token() == s[r[b] as int].token() {
                        assert(token_seen_before(s, idx, idx.len() - 1));
                    }
                } else {
                    assert(r[a] == p[a] && r[b] == p[b]);
                }
            }
        }
    }
}

/// Every entry that a selection keeps comes from its input.
proof fn lemma_keep_selected_from_input(s: Seq<RawDeviceRecord>, idx: Seq<usize>, sel: Selector)
    ensures
        forall|m: int|
            0 <= m < keep_selected(s, idx, sel).len() ==> exists|j: int|
                0 <= j < idx.len() && idx[j] == #[trigger] keep_selected(s, idx, sel)[m],
    decreases idx.len(),
{
    if idx.len() > 0 {
        let d = idx.drop_last();
        lemma_keep_selected_from_input(s, d, sel);
        assert forall|m: int| 0 <= m < keep_selected(s, idx, sel).len() implies exists|j: int|
            0 <= j < idx.len() && idx[j] == #[trigger] keep_selected(s, idx, sel)[m] by {
            if m < keep_selected(s, d, sel).len() {
                let j = choose|j: int| 0 <= j < d.len() && d[j] == keep_selected(s, d, sel)[m];
                assert(idx[j] == d[j]);
            } else {
                assert(idx[idx.len() - 1] == keep_selected(s, idx, sel)[m]);
            }
        }
    }
}

/// No two entries of `idx` share an identifier token.
pub open spec fn tokens_distinct(s: Seq<RawDeviceRecord>, idx: Seq<usize>) -> bool {
    forall|a: int, b: int|
        0 <= a < b < idx.len() ==> s[#[trigger] idx[a] as int].token() != s[#[trigger] idx[b] as int].token()
}

/// A selection keeps tokens distinct.
pub proof fn lemma_keep_selected_tokens_distinct(s: Seq<RawDeviceRecord>, idx: Seq<usize>, sel: Selector)
    requires
        tokens_distinct(s, idx),
    ensures
        tokens_distinct(s, keep_selected(s, idx, sel)),
    decreases idx.len(),
{
    if idx.len() > 0 {
        let d = idx.drop_last();
        assert(tokens_distinct(s, d)) by {
            assert forall|a: int, b: int| 0 <= a < b < d.len() implies s[#[trigger] d[a] as int].token()
                != s[#[trigger] d[b] as int].token() by {
                assert(d[a] == idx[a] && d[b] == idx[b]);
            }
        }
        lemma_keep_selected_tokens_distinct(s, d, sel);
        lemma_keep_selected_from_input(s, d, sel);
        let r = keep_selected(s, idx, sel);
        let p = keep_selected(s, d, sel);
        assert forall|a: int, b: int| 0 <= a < b < r.len() implies s[#[trigger] r[a] as int].token()
            != s[#[trigger] r[b] as int].token() by {
            if b < p.len() {
                assert(r[a] == p[a] && r[b] == p[b]);
            } else {
                let j = choose|j: int| 0 <= j < d.len() && d[j] == #[trigger] p[a];
                assert(idx[j] == r[a]);
                assert(r[b] == idx[idx.len() - 1]);
            }
        }
    }
}

/// A Pro Controller seen as one or two records, or as three of which one is
/// not a USB interface, yields exactly one entry; seen as three, that entry
/// is a non-USB record.
pub proof fn lemma_pro_controller_single(s: Seq<RawDeviceRecord>, idx: Seq<usize>)
    requires
        idx.len() == 1 || idx.len() == 2 || (idx.len() == 3 && exists|k: int|
            0 <= k < 3 && #[trigger] s[idx[k] as int].spec_is_bluetooth()),
    ensures
        select_pro(s, idx).len() == 1,
        select_pro(s, idx)[0] == idx[0] || select_pro(s, idx)[0] == idx[1] || select_pro(s, idx)[0] == idx[2],
        idx.len() == 3 ==> s[select_pro(s, idx)[0] as int].spec_is_bluetooth(),
{
}

/// The indices of the records that `sel` keeps.
pub fn filter_records(records: &Vec<RawDeviceRecord>, sel: Selector) -> (r: Vec<usize>)
    ensures
        r@ == filter_indices(records@, sel, records@.len()),
        indices_valid(records@, r@),
{
    let mut out: Vec<usize> = Vec::new();
    let mut i: usize = 0;
    while i < records.len()
        invariant
            i <= records@.len(),
            out@ == filter_indices(records@, sel, i as nat),
            indices_valid(records@, out@),
        decreases records.len() - i,
    {
        if select(sel, &records[i]) {
            out.push(i);
        }
        i += 1;
    }
    out
}

/// The indices of `idx` whose records `sel` keeps.
pub fn keep_records(records: &Vec<RawDeviceRecord>, idx: &Vec<usize>, sel: Selector) -> (r: Vec<usize>)
    requires
        indices_valid(records@, idx@),
    ensures
        r@ == keep_selected(records@, idx@, sel),
        indices_valid(records@, r@),
{
    let mut out: Vec<usize> = Vec::new();
    let mut k: usize = 0;
    while k < idx.len()
        invariant
            k <= idx@.len(),
            indices_valid(records@, idx@),
            out@ == keep_selected(records@, idx@.subrange(0, k as int), sel),
            indices_valid(records@, out@),
        decreases idx.len() - k,
    {
        assert(idx@.subrange(0, k + 1).drop_last() =~= idx@.subrange(0, k as int));
        if select(sel, &records[idx[k]]) {
            out.push(idx[k]);
        }
        k += 1;
    }
    assert(idx@.subrange(0, idx@.len() as int) =~= idx@);
    out
}

/// Collapses runs of adjacent records with equal serial numbers to their
/// first record.
pub fn dedup_by_serial(records: &Vec<RawDeviceRecord>, idx: &Vec<usize>) -> (r: Vec<usize>)
    requires
        indices_valid(records@, idx@),
    ensures
        r@ == dedup_adjacent(records@, idx@),
        indices_valid(records@, r@),
{
    let mut out: Vec<usize> = Vec::new();
    let mut k: usize = 0;
    while k < idx.len()
        invariant
            k <= idx@.len(),
            indices_valid(records@, idx@),
            out@ == dedup_adjacent(records@, idx@.subrange(0, k as int)),
            indices_valid(records@, out@),
        decreases idx.len() - k,
    {
        assert(idx@.subrange(0, k + 1).drop_last() =~= idx@.subrange(0, k as int));
        let keep = k == 0 || !records[idx[k]].same_serial(&records[idx[k - 1]]);
        if keep {
            out.push(idx[k]);
        }
        k += 1;
    }
    assert(idx@.subrange(0, idx@.len() as int) =~= idx@);
    out
}

/// Keeps the first record of each identifier token.
pub fn dedup_by_token(records: &Vec<RawDeviceRecord>, idx: &Vec<usize>) -> (r: Vec<usize>)
    requires
        indices_valid(records@, idx@),
    ensures
        r@ == dedup_tokens(records@, idx@),
        indices_valid(records@, r@),
{
    let mut out: Vec<usize> = Vec::new();
    let mut k: usize = 0;
    while k < idx.len()
        invariant
            k <= idx@.len(),
            indices_valid(records@, idx@),
            out@ == dedup_tokens(records@, idx@.subrange(0, k as int)),
            indices_valid(records@, out@),
        decreases idx.len() - k,
    {
        let ghost pre = idx@.subrange(0, k + 1);
        assert(pre.drop_last() =~= idx@.subrange(0, k as int));
        let mut seen = false;
        let mut j: usize = 0;
        while j < k
            invariant
                j <= k < idx@.len(),
                indices_valid(records@, idx@),
                pre == idx@.subrange(0, k + 1),
                seen == (exists|m: int|
                    0 <= m < j && records@[idx@[m] as int].token()
                        == records@[idx@[k as int] as int].token()),
            decreases k - j,
        {
            if records[idx[j]].same_token(&records[idx[k]]) {
                seen = true;
            }
            j += 1;
        }
        assert(seen == token_seen_before(records@, pre, k as int)) by {
            if seen {
                let m = choose|m: int|
                    0 <= m < k && records@[idx@[m] as int].token()
                        == records@[idx@[k as int] as int].token();
                assert(pre[m] == idx@[m]);
            }
            if token_seen_before(records@, pre, k as int) {
                let m = choose|m: int|
                    0 <= m < k && records@[pre[m] as int].token() == records@[pre[k as int] as int].token();
                assert(pre[m] == idx@[m]);
            }
        }
        if !seen {
            out.push(idx[k]);
        }
        k += 1;
    }
    assert(idx@.subrange(0, idx@.len() as int) =~= idx@);
    out
}

/// The one record that stands for a Pro Controller seen as `idx`.
pub fn select_pro_controller(records: &Vec<RawDeviceRecord>, idx: &Vec<usize>) -> (r: Vec<usize>)
    requires
        indices_valid(records@, idx@),
    ensures
        r@ == select_pro(records@, idx@),
        indices_valid(records@, r@),
{
    let n = idx.len();
    if n == 1 || n == 2 {
        vec![idx[0]]
    } else if n == 3 {
        if records[idx[0]].is_bluetooth() {
            vec![idx[0]]
        } else if records[idx[1]].is_bluetooth() {
            vec![idx[1]]
        } else if records[idx[2]].is_bluetooth() {
            vec![idx[2]]
        } else {
            Vec::new()
        }
    } else {
        Vec::new()
    }
}

} // verus!
