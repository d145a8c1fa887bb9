//! Matching a device's kernel identifier token against the object paths that
//! the power-management service enumerates.
//!
//! A path matches a token when the first of its `/`-separated segments that
//! begins with `battery_` is `battery_` followed by the token with each `.`
//! written as `x`.

use vstd::prelude::*;
use vstd::string::StrSliceExecFns;
use crate::text::same_text;

verus! {

/// The prefix of the path segment that names a battery.
pub open spec fn battery_prefix() -> Seq<char> {
    seq!['b', 'a', 't', 't', 'e', 'r', 'y', '_']
}

/// The character of a token as it stands in a battery path.
pub open spec fn normalize_char(c: char) -> char {
    if c == '.' {
        'x'
    } else {
        c
    }
}

/// The battery segment that names the device with identifier token `gip`.
pub open spec fn battery_name(gip: Seq<char>) -> Seq<char> {
    battery_prefix() + gip.map_values(|c: char| normalize_char(c))
}

/// `p` is a prefix of `s`.
pub open spec fn seq_has_prefix(s: Seq<char>, p: Seq<char>) -> bool {
    p.len() <= s.len() && s.subrange(0, p.len() as int) == p
}

/// The first segment that begins with the battery prefix, scanning `p` when
/// the segment read so far is `cur`.
pub open spec fn scan_battery_segment(p: Seq<char>, cur: Seq<char>) -> Option<Seq<char>>
    decreases p.len(),
{
    if p.len() == 0 {
        if seq_has_prefix(cur, battery_prefix()) {
            Some(cur)
        } else {
            None
        }
    } else if p[0] == '/' {
        if seq_has_prefix(cur, battery_prefix()) {
            Some(cur)
        } else {
            scan_battery_segment(p.drop_first(), seq![])
        }
    } else {
        scan_battery_segment(p.drop_first(), cur.push(p[0]))
    }
}

/// The first `/`-separated segment of `p` that begins with the battery prefix.
pub open spec fn battery_segment_of(p: Seq<char>) -> Option<Seq<char>> {
    scan_battery_segment(p, seq![])
}

/// The object path `p` names the battery of the device with token `gip`.
pub open spec fn names_battery_of(p: Seq<char>, gip: Seq<char>) -> bool {
    battery_segment_of(p) == Some(battery_name(gip))
}

fn has_battery_prefix(s: &Vec<char>) -> (r: bool)
    ensures
        r == seq_has_prefix(s@, battery_prefix()),
{
    let prefix: Vec<char> = vec!['b', 'a', 't', 't', 'e', 'r', 'y', '_'];
    assert(prefix@ =~= battery_prefix());
    if s.len() < prefix.len() {
        return false;
    }
    let mut i: usize = 0;
    while i < prefix.len()
        invariant
            prefix@ == battery_prefix(),
            prefix@.len() <= s@.len(),
            i <= prefix@.len(),
            forall|k: int| 0 <= k < i ==> s@[k] == prefix@[k],
        decreases prefix.len() - i,
    {
        if s[i] != prefix[i] {
            assert(s@.subrange(0, prefix@.len() as int)[i as int] != prefix@[i as int]);
            return false;
        }
        i += 1;
    }
    assert(s@.subrange(0, prefix@.len() as int) =~= prefix@);
    true
}

/// The first segment of `path` that begins with `battery_`, if any.
pub fn battery_segment(path: &str) -> (r: Option<Vec<char>>)
    ensures
        match r {
            Some(v) => battery_segment_of(path@) == Some(v@),
            None => battery_segment_of(path@) is None,
        },
{
    let n = path.unicode_len();
    let mut cur: Vec<char> = Vec::new();
    let mut i: usize = 0;
    assert(path@.subrange(0, n as int) =~= path@);
    while i < n
        invariant
            n == path@.len(),
            i <= n,
            battery_segment_of(path@) == scan_battery_segment(
                path@.subrange(i as int, n as int),
                cur@,
            ),
        decreases n - i,
    {
        let ghost rest = path@.subrange(i as int, n as int);
        assert(rest.drop_first() =~= path@.subrange(i + 1, n as int));
        let c = path.get_char(i);
        if c == '/' {
            if has_battery_prefix(&cur) {
                return Some(cur);
            }
            cur = Vec::new();
            assert(cur@ =~= Seq::<char>::empty());
        } else {
            cur.push(c);
        }
        i += 1;
    }
    assert(path@.subrange(n as int, n as int).len() == 0);
    if has_battery_prefix(&cur) {
        Some(cur)
    } else {
        None
    }
}

/// Whether `segment` is the battery segment of the device with token `gip`.
pub fn is_battery_name(segment: &Vec<char>, gip: &str) -> (r: bool)
    ensures
        r == (segment@ == battery_name(gip@)),
{
    let n = gip.unicode_len();
    let ghost name = battery_name(gip@);
    assert(name.len() == 8 + n);
    if !has_battery_prefix(segment) || segment.len() - 8 != n {
        proof {
            if seq_has_prefix(segment@, battery_prefix()) {
                assert(segment@.len() != name.len());
            } else {
                assert(name.subrange(0, 8) =~= battery_prefix());
            }
        }
        return false;
    }
    let len = segment.len();
    let mut i: usize = 0;
    while i < n
        invariant
            n == gip@.len(),
            len == segment@.len(),
            segment@.len() == 8 + n,
            seq_has_prefix(segment@, battery_prefix()),
            name == battery_name(gip@),
            i <= n,
            forall|k: int| 0 <= k < i ==> segment@[8 + k] == normalize_char(gip@[k]),
        decreases n - i,
    {
        let c = gip.get_char(i);
        let expected = if c == '.' {
            'x'
        } else {
            c
        };
        if segment[8 + i] != expected {
            assert(name[8 + i] == normalize_char(gip@[i as int]));
            return false;
        }
        i += 1;
    }
    assert forall|k: int| 0 <= k < segment@.len() implies segment@[k] == name[k] by {
        if k < 8 {
            assert(segment@.subrange(0, 8)[k] == battery_prefix()[k]);
        }
    }
    assert(segment@ =~= name);
    true
}

/// The index of the first object path that names the battery of the device
/// with token `gip`, if any.
pub fn find_battery_device(paths: &Vec<String>, gip: &str) -> (r: Option<usize>)
    ensures
        match r {
            Some(i) => i < paths@.len() && names_battery_of(paths@[i as int]@, gip@) && forall|
                j: int,
            |
                0 <= j < i ==> !names_battery_of(#[trigger] paths@[j]@, gip@),
            None => forall|j: int|
                0 <= j < paths@.len() ==> !names_battery_of(#[trigger] paths@[j]@, gip@),
        },
{
    let mut i: usize = 0;
    while i < paths.len()
        invariant
            i <= paths@.len(),
            forall|j: int| 0 <= j < i ==> !names_battery_of(#[trigger] paths@[j]@, gip@),
        decreases paths.len() - i,
    {
        let found = match battery_segment(paths[i].as_str()) {
            Some(segment) => is_battery_name(&segment, gip),
            None => false,
        };
        if found {
            return Some(i);
        }
        i += 1;
    }
    None
}

/// The index of the first power device whose declared model is `model`, if any.
pub fn find_by_model(models: &Vec<String>, model: &str) -> (r: Option<usize>)
    ensures
        match r {
            Some(i) => i < models@.len() && models@[i as int]@ == model@ && forall|j: int|
                0 <= j < i ==> (#[trigger] models@[j])@ != model@,
            None => forall|j: int| 0 <= j < models@.len() ==> (#[trigger] models@[j])@ != model@,
        },
{
    let mut i: usize = 0;
    while i < models.len()
        invariant
            i <= models@.len(),
            forall|j: int| 0 <= j < i ==> (#[trigger] models@[j])@ != model@,
        decreases models.len() - i,
    {
        if same_text(models[i].as_str(), model) {
            return Some(i);
        }
        i += 1;
    }
    None
}

} // verus!
