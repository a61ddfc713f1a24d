//! What the checks on input files share: the first finding of a list of checks,
//! and repeated keys.

use std::collections::HashSet;

use vstd::prelude::*;

use crate::error;
use crate::error::{Finding, LoadError};
use crate::float::Float64;
use crate::text;
use crate::text::{Piece, PieceView};

verus! {

/// The first finding among the checks of the entries 0 to `n - 1`.
pub open spec fn first(n: int, check: spec_fn(int) -> Option<Finding>) -> Option<Finding>
    decreases n,
{
    if n <= 0 {
        None
    } else {
        match first(n - 1, check) {
            Some(finding) => Some(finding),
            None => check(n - 1),
        }
    }
}

/// The first finding of two checks that are made one after the other.
pub open spec fn either(a: Option<Finding>, b: Option<Finding>) -> Option<Finding> {
    match a {
        Some(finding) => Some(finding),
        None => b,
    }
}

/// There is no finding exactly where no entry has one.
pub proof fn first_is_none(n: int, check: spec_fn(int) -> Option<Finding>)
    ensures
        first(n, check) is None <==> forall|i: int| 0 <= i < n ==> (#[trigger] check(i)) is None,
    decreases n,
{
    if n > 0 {
        first_is_none(n - 1, check);
    }
}

/// The first entry with a finding gives it.
pub proof fn first_is_at(n: int, check: spec_fn(int) -> Option<Finding>, i: int)
    requires
        0 <= i < n,
        check(i) is Some,
        forall|j: int| 0 <= j < i ==> (#[trigger] check(j)) is None,
    ensures
        first(n, check) == check(i),
    decreases n,
{
    first_is_none(n - 1, check);
    if i < n - 1 {
        first_is_at(n - 1, check, i);
    }
}

/// A key occurs before position `i` already.
pub open spec fn repeated<K>(keys: Seq<K>, i: int) -> bool {
    exists|j: int| 0 <= j < i && #[trigger] keys[j] == keys[i]
}

/// No key occurs twice.
pub open spec fn no_repeats<K>(keys: Seq<K>) -> bool {
    forall|i: int| 0 <= i < keys.len() ==> !#[trigger] repeated(keys, i)
}

/// Where no key is repeated, all are distinct.
pub proof fn no_repeats_are_distinct<K>(keys: Seq<K>)
    ensures
        no_repeats(keys) <==> keys.no_duplicates(),
{
    if no_repeats(keys) {
        assert forall|i: int, j: int|
            0 <= i < keys.len() && 0 <= j < keys.len() && i != j implies keys[i] != keys[j] by {
            assert(!repeated(keys, i));
            assert(!repeated(keys, j));
        }
    }
}

/// The first position whose key occurs before it.
pub(crate) fn first_repeat(keys: &Vec<i128>) -> (r: Option<usize>)
    ensures
        match r {
            Some(i) => i < keys@.len() && repeated(keys@, i as int) && forall|j: int|
                0 <= j < i ==> !#[trigger] repeated(keys@, j),
            None => no_repeats(keys@),
        },
{
    broadcast use vstd::std_specs::hash::group_hash_axioms;

    let mut seen: HashSet<i128> = HashSet::new();
    for i in 0..keys.len()
        invariant
            forall|k: i128| #[trigger] seen@.contains(k) <==> exists|j: int|
                0 <= j < i && #[trigger] keys@[j] == k,
            forall|j: int| 0 <= j < i ==> !#[trigger] repeated(keys@, j),
    {
        let key: i128 = keys[i];
        let ghost before = seen@;
        let fresh: bool = seen.insert(key);
        if !fresh {
            proof {
                assert(before.contains(key));
            }
            return Some(i);
        }
        proof {
            assert(!before.contains(key));
            assert(!repeated(keys@, i as int));
            assert forall|k: i128| #[trigger] seen@.contains(k) <==> exists|j: int|
                0 <= j < i + 1 && #[trigger] keys@[j] == k by {
                if k == key {
                    assert(keys@[i as int] == k);
                } else if before.contains(k) {
                    let j = choose|j: int| 0 <= j < i && #[trigger] keys@[j] == k;
                    assert(keys@[j] == k);
                }
            }
        }
    }
    None
}

/// Which positions hold a key that occurs before them.
pub(crate) fn repeats(keys: &Vec<i32>) -> (r: Vec<bool>)
    ensures
        r@.len() == keys@.len(),
        forall|i: int| 0 <= i < keys@.len() ==> #[trigger] r@[i] == repeated(keys@, i),
{
    broadcast use vstd::std_specs::hash::group_hash_axioms;

    let mut seen: HashSet<i32> = HashSet::new();
    let mut r: Vec<bool> = Vec::new();
    for i in 0..keys.len()
        invariant
            forall|k: i32| #[trigger] seen@.contains(k) <==> exists|j: int|
                0 <= j < i && #[trigger] keys@[j] == k,
            r@.len() == i,
            forall|j: int| 0 <= j < i ==> #[trigger] r@[j] == repeated(keys@, j),
    {
        let key: i32 = keys[i];
        let ghost before = seen@;
        let fresh: bool = seen.insert(key);
        r.push(!fresh);
        proof {
            assert(before.contains(key) <==> repeated(keys@, i as int));
            assert forall|k: i32| #[trigger] seen@.contains(k) <==> exists|j: int|
                0 <= j < i + 1 && #[trigger] keys@[j] == k by {
                if k == key {
                    assert(keys@[i as int] == k);
                } else if before.contains(k) {
                    let j = choose|j: int| 0 <= j < i && #[trigger] keys@[j] == k;
                    assert(keys@[j] == k);
                }
            }
        }
    }
    r
}

// ── Numbers ──────────────────────────────────────────────────────────────────

/// Zero.
pub open spec fn zero() -> Float64 {
    Float64 { bits: 0 }
}

/// A number is at least zero. This holds of infinity, and not of what is no number.
pub open spec fn at_least_zero(value: Float64) -> bool {
    !value.nan() && !value.below(zero())
}

/// A number is at least zero.
pub fn is_at_least_zero(value: Float64) -> (r: bool)
    ensures
        r == at_least_zero(value),
{
    !value.is_nan() && !value.less_than(Float64 { bits: 0 })
}

/// Finite, and not below zero.
pub open spec fn non_negative(value: Float64) -> bool {
    value.finite() && !value.below(zero())
}

/// Finite, and above zero.
pub open spec fn positive(value: Float64) -> bool {
    value.finite() && zero().below(value)
}

/// Whether a number is finite and not below zero.
pub fn is_non_negative(value: Float64) -> (r: bool)
    ensures
        r == non_negative(value),
{
    value.is_finite() && !value.less_than(Float64 { bits: 0 })
}

/// Whether a number is finite and above zero.
pub fn is_positive(value: Float64) -> (r: bool)
    ensures
        r == positive(value),
{
    value.is_finite() && Float64 { bits: 0 }.less_than(value)
}

/// What is wrong with a number that breaks a rule: `rule`, and the number.
pub open spec fn number_finding(
    kept: bool,
    array: Seq<char>,
    index: int,
    column: Seq<char>,
    rule: Seq<char>,
    value: Float64,
) -> Option<Finding> {
    if kept {
        None
    } else {
        Some(
            Finding {
                field: text::element_path(array, index, column),
                message: seq![PieceView::Text(rule), PieceView::Float(value)],
            },
        )
    }
}

/// Reports a number that breaks a rule.
pub(crate) fn check_number(
    kept: bool,
    array: &str,
    index: usize,
    column: &str,
    rule: &'static str,
    value: Float64,
    path: &str,
) -> (r: Result<(), LoadError>)
    ensures
        error::reports(
            r,
            path@,
            number_finding(kept, array@, index as int, column@, rule@, value),
        ),
{
    if kept {
        return Ok(());
    }
    let message: Vec<Piece> = vec![Piece::Text(rule), Piece::Float(value)];
    proof {
        assert(text::pieces(message@) =~= seq![
            PieceView::Text(rule@),
            PieceView::Float(value),
        ]);
    }
    Err(LoadError::schema(path, text::element_path_text(array, index, column), message))
}

/// What is wrong with a null in a column that takes none.
pub open spec fn null_finding(
    null: bool,
    array: Seq<char>,
    index: int,
    column: Seq<char>,
) -> Option<Finding> {
    if null {
        Some(
            Finding {
                field: text::element_path(array, index, column),
                message: seq![text::text("value must not be null")],
            },
        )
    } else {
        None
    }
}

/// Refuses a null in a column that takes none.
pub(crate) fn check_not_null(
    null: bool,
    array: &str,
    index: usize,
    column: &str,
    path: &str,
) -> (r: Result<(), LoadError>)
    ensures
        error::reports(r, path@, null_finding(null, array@, index as int, column@)),
{
    if !null {
        return Ok(());
    }
    let message: Vec<Piece> = vec![Piece::Text("value must not be null")];
    proof {
        assert(text::pieces(message@) =~= seq![text::text("value must not be null")]);
    }
    Err(LoadError::schema(path, text::element_path_text(array, index, column), message))
}

// ── What the checks mean ─────────────────────────────────────────────────────

/// What the checks on numbers accept, told by the bits: positive numbers have no sign
/// bit, are not zero and are below infinity; numbers that are not negative may be zero
/// too, with either sign; those that are at least zero may also be infinite.
pub proof fn signs_are_read_from_the_bits(value: Float64)
    ensures
        positive(value) <==> 0 < value.bits < 0x7ff0_0000_0000_0000,
        non_negative(value) <==> (value.bits < 0x7ff0_0000_0000_0000 || value.bits
            == 0x8000_0000_0000_0000),
        at_least_zero(value) <==> (value.bits <= 0x7ff0_0000_0000_0000 || value.bits
            == 0x8000_0000_0000_0000),
{
}

/// Of two checks that are made one after the other, the second counts only where the
/// first finds nothing.
pub proof fn the_earlier_check_counts(a: Option<Finding>, b: Option<Finding>)
    ensures
        either(a, b) is None <==> a is None && b is None,
        a is Some ==> either(a, b) == a,
        a is None ==> either(a, b) == b,
{
}

/// What is reported of a list is what one of its entries breaks, and no entry before
/// that one breaks anything. The entry is the one that is given back.
pub proof fn the_first_bad_entry_is_reported(n: int, check: spec_fn(int) -> Option<Finding>) -> (i:
    int)
    requires
        first(n, check) is Some,
    ensures
        0 <= i < n,
        check(i) is Some,
        first(n, check) == check(i),
        forall|j: int| 0 <= j < i ==> (#[trigger] check(j)) is None,
    decreases n,
{
    if first(n - 1, check) is Some {
        the_first_bad_entry_is_reported(n - 1, check)
    } else {
        first_is_none(n - 1, check);
        n - 1
    }
}

/// A number that breaks a rule is reported with its field and its value, and one that
/// keeps the rule is not reported.
pub proof fn broken_rules_are_reported(
    kept: bool,
    array: Seq<char>,
    index: int,
    column: Seq<char>,
    rule: Seq<char>,
    value: Float64,
)
    ensures
        kept <==> number_finding(kept, array, index, column, rule, value) is None,
        number_finding(kept, array, index, column, rule, value) matches Some(f) ==> f.field
            == array + "["@ + text::decimal(index as nat) + "]."@ + column && f.message.len() == 2
            && f.message[0] == PieceView::Text(rule) && f.message[1] == PieceView::Float(value),
{
}

} // verus!
