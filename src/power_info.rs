//! Reading the battery percentage out of the text that the platform's
//! power-info command prints for a device.
//!
//! The percentage is the decimal number that follows the first
//! `percentage:` label, after any spaces or tabs; a label with no digits
//! after it, or a number above 100, gives no percentage.

use vstd::prelude::*;
use vstd::string::StrSliceExecFns;

verus! {

/// The label of the percentage field.
pub open spec fn field_label() -> Seq<char> {
    seq!['p', 'e', 'r', 'c', 'e', 'n', 't', 'a', 'g', 'e', ':']
}

/// The label stands at position `i` of `t`.
pub open spec fn label_at(t: Seq<char>, i: int) -> bool {
    0 <= i && i + field_label().len() <= t.len() && t.subrange(i, i + field_label().len()) == field_label()
}

/// The first position at or after `i` where the label stands.
pub open spec fn find_label_from(t: Seq<char>, i: int) -> Option<int>
    decreases t.len() - i,
{
    if i < 0 || i + field_label().len() > t.len() {
        None
    } else if label_at(t, i) {
        Some(i)
    } else {
        find_label_from(t, i + 1)
    }
}

pub open spec fn is_blank(c: char) -> bool {
    c == ' ' || c == '\t'
}

pub open spec fn is_digit(c: char) -> bool {
    '0' <= c && c <= '9'
}

/// The first position at or after `i` that is not a blank.
pub open spec fn skip_blanks(t: Seq<char>, i: int) -> int
    decreases t.len() - i,
{
    if 0 <= i < t.len() && is_blank(t[i]) {
        skip_blanks(t, i + 1)
    } else {
        i
    }
}

/// The first position at or after `i` that is not a digit.
pub open spec fn digits_end(t: Seq<char>, i: int) -> int
    decreases t.len() - i,
{
    if 0 <= i < t.len() && is_digit(t[i]) {
        digits_end(t, i + 1)
    } else {
        i
    }
}

/// The value of the decimal digits `t[a..b]`.
pub open spec fn decimal_value(t: Seq<char>, a: int, b: int) -> nat
    decreases b - a,
{
    if b <= a {
        0
    } else {
        decimal_value(t, a, b - 1) * 10 + ((t[b - 1] as u32) - ('0' as u32)) as nat
    }
}

/// The percentage that the power-info text `t` reports.
pub open spec fn percentage_of(t: Seq<char>) -> Option<u8> {
    match find_label_from(t, 0) {
        Some(i) => {
            let a = skip_blanks(t, i + field_label().len());
            let b = digits_end(t, a);
            if a < b && decimal_value(t, a, b) <= 100 {
                Some(decimal_value(t, a, b) as u8)
            } else {
                None
            }
        },
        None => None,
    }
}

proof fn lemma_value_grows(t: Seq<char>, a: int, b: int)
    requires
        a < b,
        is_digit(t[b - 1]),
    ensures
        decimal_value(t, a, b) >= decimal_value(t, a, b - 1),
{
}

/// Whether the label stands at position `i` of `t`.
fn has_label_at(t: &Vec<char>, i: usize) -> (r: bool)
    requires
        i + 11 <= t@.len(),
    ensures
        r == label_at(t@, i as int),
{
    let label: Vec<char> = vec!['p', 'e', 'r', 'c', 'e', 'n', 't', 'a', 'g', 'e', ':'];
    assert(label@ =~= field_label());
    let len = t.len();
    let mut k: usize = 0;
    while k < 11
        invariant
            len == t@.len(),
            label@ == field_label(),
            i + 11 <= t@.len(),
            k <= 11,
            forall|m: int| 0 <= m < k ==> t@[i + m] == label@[m],
        decreases 11 - k,
    {
        if t[i + k] != label[k] {
            assert(t@.subrange(i as int, i + 11)[k as int] != field_label()[k as int]);
            return false;
        }
        k += 1;
    }
    assert(t@.subrange(i as int, i + 11) =~= field_label());
    true
}

/// The percentage reported by the text `output` of the power-info command.
pub fn parse_percentage(output: &str) -> (r: Option<u8>)
    ensures
        r == percentage_of(output@),
{
    let n = output.unicode_len();
    let mut t: Vec<char> = Vec::new();
    let mut j: usize = 0;
    while j < n
        invariant
            n == output@.len(),
            j <= n,
            t@ == output@.subrange(0, j as int),
        decreases n - j,
    {
        t.push(output.get_char(j));
        j += 1;
        assert(t@ =~= output@.subrange(0, j as int));
    }
    assert(t@ =~= output@);

    // Find the label.
    let mut i: usize = 0;
    loop
        invariant
            n == t@.len(),
            t@ == output@,
            find_label_from(t@, 0) == find_label_from(t@, i as int),
            i <= n,
        ensures
            i + 11 <= n,
            find_label_from(t@, 0) == Some(i as int),
        decreases n - i,
    {
        if n < 11 || i > n - 11 {
            assert(field_label().len() == 11);
            assert(find_label_from(t@, i as int) is None);
            return None;
        }
        if has_label_at(&t, i) {
            break;
        }
        i += 1;
    }

    // Skip blanks.
    let mut a: usize = i + 11;
    while a < n && (t[a] == ' ' || t[a] == '\t')
        invariant
            a <= n,
            n == t@.len(),
            t@ == output@,
            i + 11 <= n,
            find_label_from(t@, 0) == Some(i as int),
            skip_blanks(t@, (i + 11) as int) == skip_blanks(t@, a as int),
        decreases n - a,
    {
        a += 1;
    }
    assert(field_label().len() == 11);

    // Read the digits.
    let mut b: usize = a;
    let mut value: u32 = 0;
    while b < n && '0' <= t[b] && t[b] <= '9'
        invariant
            a <= b <= n,
            n == t@.len(),
            t@ == output@,
            i + 11 <= n,
            find_label_from(t@, 0) == Some(i as int),
            skip_blanks(t@, (i + 11) as int) == a,
            digits_end(t@, a as int) == digits_end(t@, b as int),
            forall|m: int| a <= m < b ==> is_digit(t@[m]),
            value <= 100 ==> value == decimal_value(t@, a as int, b as int),
            value > 100 ==> decimal_value(t@, a as int, b as int) > 100,
            value <= 1009,
        decreases n - b,
    {
        let d = (t[b] as u32) - ('0' as u32);
        proof {
            lemma_value_grows(t@, a as int, b + 1);
        }
        if value <= 100 {
            value = value * 10 + d;
        }
        b += 1;
    }
    if a < b && value <= 100 {
        Some(value as u8)
    } else {
        None
    }
}

} // verus!
