//! The element picker's logic: which kind a button stands for, and how the
//! buttons are split into columns.

use vstd::prelude::*;
use vstd::arithmetic::div_mod::{lemma_fundamental_div_mod, lemma_mod_pos_bound};
use vstd::utf8::encode_utf8_decode_utf8;

use crate::element::ElementType;

verus! {

fn bytes_equal(a: &[u8], b: &[u8]) -> (r: bool)
    ensures
        r == (a@ == b@),
{
    if a.len() != b.len() {
        return false;
    }
    let mut i: usize = 0;
    while i < a.len()
        invariant
            a@.len() == b@.len(),
            i <= a@.len(),
            forall|j: int| 0 <= j < i ==> a@[j] == b@[j],
        decreases a@.len() - i,
    {
        if a[i] != b[i] {
            return false;
        }
        i = i + 1;
    }
    assert(a@ =~= b@);
    true
}

fn str_equal(a: &str, b: &str) -> (r: bool)
    ensures
        r == (a@ == b@),
{
    let r = bytes_equal(a.as_bytes(), b.as_bytes());
    proof {
        encode_utf8_decode_utf8(a@);
        encode_utf8_decode_utf8(b@);
    }
    r
}

/// The kind that a picker button stands for; other buttons are tools.
pub open spec fn kind_named(name: Seq<char>) -> Option<ElementType> {
    if name == "POWDER"@ {
        Some(ElementType::Powder)
    } else if name == "SAND"@ {
        Some(ElementType::Sand)
    } else if name == "WATER"@ {
        Some(ElementType::Water)
    } else if name == "OIL"@ {
        Some(ElementType::Oil)
    } else if name == "FIRE"@ {
        Some(ElementType::Fire)
    } else if name == "STEAM"@ {
        Some(ElementType::Steam)
    } else if name == "WALL"@ {
        Some(ElementType::Wall)
    } else {
        None
    }
}

pub fn element_type_from_button_name(name: &str) -> (r: Option<ElementType>)
    ensures
        r == kind_named(name@),
{
    if str_equal(name, "POWDER") {
        Some(ElementType::Powder)
    } else if str_equal(name, "SAND") {
        Some(ElementType::Sand)
    } else if str_equal(name, "WATER") {
        Some(ElementType::Water)
    } else if str_equal(name, "OIL") {
        Some(ElementType::Oil)
    } else if str_equal(name, "FIRE") {
        Some(ElementType::Fire)
    } else if str_equal(name, "STEAM") {
        Some(ElementType::Steam)
    } else if str_equal(name, "WALL") {
        Some(ElementType::Wall)
    } else {
        None
    }
}

/// Number of columns: as many as fit, but no more than there are items and
/// at least one.
pub open spec fn column_count(max_columns: nat, total: nat) -> nat {
    if total < max_columns {
        if total == 0 { 1 } else { total }
    } else {
        if max_columns == 0 { 1 } else { max_columns }
    }
}

/// Splits `total` buttons into columns: returns the number of columns and
/// the number of buttons per column, the least that fits them all.
pub fn column_layout(max_columns: usize, total: usize) -> (r: (usize, usize))
    ensures
        r.0 == column_count(max_columns as nat, total as nat),
        r.0 >= 1,
        r.1 * r.0 >= total,
        r.1 == 0 || (r.1 - 1) * r.0 < total,
{
    let m = if max_columns < total { max_columns } else { total };
    let n = if m > 1 { m } else { 1 };
    let q = total / n;
    proof {
        lemma_fundamental_div_mod(total as int, n as int);
        lemma_mod_pos_bound(total as int, n as int);
        let (t, c, qq, rr) = (total as int, n as int, q as int, (total % n) as int);
        assert(qq * c <= t && (qq + 1) * c > t && (rr != 0 ==> qq * c < t) && (c >= 2 ==> qq < t || t == 0))
            by (nonlinear_arith)
            requires
                c >= 1,
                t >= 0,
                qq >= 0,
                t == c * qq + rr,
                0 <= rr < c,
        ;
    }
    let per = if total % n == 0 { q } else { q + 1 };
    proof {
        let (t, c, p) = (total as int, n as int, per as int);
        assert(p * c >= t && (p == 0 || (p - 1) * c < t)) by (nonlinear_arith)
            requires
                c >= 1,
                p == q || p == q + 1,
                q * c <= t,
                (q + 1) * c > t,
                p == q ==> q * c == t,
                p == q + 1 ==> q * c < t,
        ;
    }
    (n, per)
}

/// The half-open range of button indices in column `col`, clipped to
/// `total`.
pub fn column_range(col: usize, per_column: usize, total: usize) -> (r: (usize, usize))
    requires
        (col + 1) * per_column <= usize::MAX,
    ensures
        r.0 == if col * per_column <= total { col * per_column } else { total as int },
        r.1 == if (col + 1) * per_column <= total { (col + 1) * per_column } else { total as int },
        r.0 <= r.1 <= total,
{
    proof {
        assert(col * per_column <= (col + 1) * per_column) by (nonlinear_arith);
    }
    assert((col + 1) * per_column == col * per_column + per_column) by (nonlinear_arith);
    let start = col * per_column;
    let end = start + per_column;
    let s = if start <= total { start } else { total };
    let e = if end <= total { end } else { total };
    (s, e)
}

} // verus!
