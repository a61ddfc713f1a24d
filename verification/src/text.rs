//! Text: numbers in decimal, and messages that carry their numbers as values.

use vstd::prelude::*;
use vstd::string::{StrSliceExecFns, StringExecFns, StringSliceAdditionalSpecFns};

use crate::date::Date;
use crate::float::Float64;

verus! {

// ── Decimal numbers ──────────────────────────────────────────────────────────

/// The decimal digit for `d`.
pub open spec fn digit(d: nat) -> char {
    if d == 0 {
        '0'
    } else if d == 1 {
        '1'
    } else if d == 2 {
        '2'
    } else if d == 3 {
        '3'
    } else if d == 4 {
        '4'
    } else if d == 5 {
        '5'
    } else if d == 6 {
        '6'
    } else if d == 7 {
        '7'
    } else if d == 8 {
        '8'
    } else {
        '9'
    }
}

/// `n` in decimal, without leading zeros.
pub open spec fn decimal(n: nat) -> Seq<char>
    decreases n,
{
    if n < 10 {
        seq![digit(n)]
    } else {
        decimal(n / 10).push(digit(n % 10))
    }
}

/// An integer in decimal: a minus sign before a negative one.
pub open spec fn signed_decimal(n: int) -> Seq<char> {
    if n < 0 {
        seq!['-'] + decimal((-n) as nat)
    } else {
        decimal(n as nat)
    }
}

fn digit_text(d: u64) -> (r: &'static str)
    requires
        d < 10,
    ensures
        r@ == seq![digit(d as nat)],
{
    proof {
        reveal_strlit("0");
        reveal_strlit("1");
        reveal_strlit("2");
        reveal_strlit("3");
        reveal_strlit("4");
        reveal_strlit("5");
        reveal_strlit("6");
        reveal_strlit("7");
        reveal_strlit("8");
        reveal_strlit("9");
    }
    if d == 0 {
        "0"
    } else if d == 1 {
        "1"
    } else if d == 2 {
        "2"
    } else if d == 3 {
        "3"
    } else if d == 4 {
        "4"
    } else if d == 5 {
        "5"
    } else if d == 6 {
        "6"
    } else if d == 7 {
        "7"
    } else if d == 8 {
        "8"
    } else {
        "9"
    }
}

/// Writes `n` in decimal.
pub fn decimal_text(n: u64) -> (r: String)
    ensures
        r@ == decimal(n as nat),
    decreases n,
{
    if n < 10 {
        let mut r: String = String::new();
        r.append(digit_text(n));
        proof {
            assert(r@ =~= decimal(n as nat));
        }
        r
    } else {
        let mut r: String = decimal_text(n / 10);
        r.append(digit_text(n % 10));
        proof {
            assert(r@ =~= decimal(n as nat));
        }
        r
    }
}

/// Writes an integer in decimal.
pub fn signed_decimal_text(n: i64) -> (r: String)
    ensures
        r@ == signed_decimal(n as int),
{
    if n < 0 {
        let mut r: String = String::new();
        proof {
            reveal_strlit("-");
        }
        r.append("-");
        let size: u64 = if n == i64::MIN {
            0x8000_0000_0000_0000
        } else {
            (-n) as u64
        };
        let digits: String = decimal_text(size);
        r.append(digits.as_str());
        proof {
            assert(r@ =~= signed_decimal(n as int));
        }
        r
    } else {
        decimal_text(n as u64)
    }
}

proof fn digits_are_distinct(a: nat, b: nat)
    requires
        a < 10,
        b < 10,
        digit(a) == digit(b),
    ensures
        a == b,
{
}

/// Different numbers read differently.
pub proof fn decimal_is_injective(a: nat, b: nat)
    requires
        decimal(a) == decimal(b),
    ensures
        a == b,
    decreases a + b,
{
    assert(decimal(a).last() == digit(a % 10));
    assert(decimal(b).last() == digit(b % 10));
    digits_are_distinct(a % 10, b % 10);
    if a >= 10 && b >= 10 {
        assert(decimal(a / 10) =~= decimal(a).drop_last());
        assert(decimal(b / 10) =~= decimal(b).drop_last());
        decimal_is_injective(a / 10, b / 10);
    } else if a >= 10 {
        decimal_is_not_empty(a / 10);
    } else if b >= 10 {
        decimal_is_not_empty(b / 10);
    }
}

proof fn decimal_is_not_empty(n: nat)
    ensures
        decimal(n).len() > 0,
    decreases n,
{
    if n >= 10 {
        decimal_is_not_empty(n / 10);
    }
}

/// What a number reads: to put a digit behind a number is to write its character
/// behind, and a number below ten is that character alone. The characters follow one
/// another from `0` on. A negative number is its opposite behind a minus sign.
pub proof fn digits_stand_one_behind_the_other(n: nat, d: nat)
    requires
        d < 10,
    ensures
        decimal(d).len() == 1,
        decimal(d)[0] as int == '0' as int + d,
        n > 0 ==> decimal(10 * n + d) == decimal(n) + decimal(d),
        signed_decimal(n as int) == decimal(n),
        n > 0 ==> signed_decimal(-n) == seq!['-'] + decimal(n),
{
    assert((10 * n + d) / 10 == n);
    assert((10 * n + d) % 10 == d);
    if n > 0 {
        assert(decimal(10 * n + d) =~= decimal(n) + decimal(d));
    }
}

/// Joins two pieces of text.
pub fn join2(a: &str, b: &str) -> (r: String)
    ensures
        r@ == a@ + b@,
{
    let mut r: String = String::from_str(a);
    r.append(b);
    r
}

/// Joins three pieces of text.
pub fn join3(a: &str, b: &str, c: &str) -> (r: String)
    ensures
        r@ == a@ + b@ + c@,
{
    let mut r: String = join2(a, b);
    r.append(c);
    r
}

/// Whether two texts are equal.
pub fn same_str(a: &str, b: &str) -> (r: bool)
    ensures
        r == (a@ == b@),
{
    let x: &[u8] = a.as_bytes();
    let y: &[u8] = b.as_bytes();
    if x.len() != y.len() {
        return false;
    }
    for i in 0..x.len()
        invariant
            x@ == a.spec_bytes(),
            y@ == b.spec_bytes(),
            x@.len() == y@.len(),
            forall|j: int| 0 <= j < i ==> x@[j] == #[trigger] y@[j],
    {
        if x[i] != y[i] {
            return false;
        }
    }
    proof {
        assert(x@ =~= y@);
        vstd::utf8::encode_utf8_decode_utf8(a@);
        vstd::utf8::encode_utf8_decode_utf8(b@);
    }
    true
}

/// Whether two texts are equal.
pub fn same_text(a: &String, b: &str) -> (r: bool)
    ensures
        r == (a@ == b@),
{
    same_str(a.as_str(), b)
}

/// One text occurs in another from position `i` on.
pub open spec fn occurs_at(whole: Seq<char>, part: Seq<char>, i: int) -> bool {
    0 <= i && i + part.len() <= whole.len() && whole.subrange(i, i + part.len()) == part
}

/// One text occurs in another.
pub open spec fn occurs_in(whole: Seq<char>, part: Seq<char>) -> bool {
    exists|i: int| #[trigger] occurs_at(whole, part, i)
}

fn matches_at(whole: &str, part: &str, i: usize) -> (r: bool)
    requires
        i + part@.len() <= whole@.len(),
    ensures
        r == occurs_at(whole@, part@, i as int),
{
    let n: usize = whole.unicode_len();
    let m: usize = part.unicode_len();
    for j in 0..m
        invariant
            n == whole@.len(),
            m == part@.len(),
            i + m <= n,
            forall|k: int| 0 <= k < j ==> whole@[i + k] == #[trigger] part@[k],
    {
        if whole.get_char(i + j) != part.get_char(j) {
            proof {
                if occurs_at(whole@, part@, i as int) {
                    assert(whole@.subrange(i as int, i + part@.len())[j as int] == part@[j as int]);
                }
            }
            return false;
        }
    }
    proof {
        assert(whole@.subrange(i as int, i + part@.len()) =~= part@);
    }
    true
}

/// Whether one text occurs in another.
pub fn contains_text(whole: &str, part: &str) -> (r: bool)
    ensures
        r == occurs_in(whole@, part@),
{
    let n: usize = whole.unicode_len();
    let m: usize = part.unicode_len();
    if m > n {
        return false;
    }
    for i in 0..n - m
        invariant
            n == whole@.len(),
            m == part@.len(),
            m <= n,
            forall|k: int| 0 <= k < i ==> !#[trigger] occurs_at(whole@, part@, k),
    {
        if matches_at(whole, part, i) {
            return true;
        }
    }
    matches_at(whole, part, n - m)
}

/// One text ends in another.
pub open spec fn ends_in(whole: Seq<char>, part: Seq<char>) -> bool {
    occurs_at(whole, part, whole.len() - part.len())
}

/// Whether one text ends in another.
pub fn ends_in_text(whole: &str, part: &str) -> (r: bool)
    ensures
        r == ends_in(whole@, part@),
{
    let n: usize = whole.unicode_len();
    let m: usize = part.unicode_len();
    m <= n && matches_at(whole, part, n - m)
}

/// One text occurs in another exactly where the other is made of something, the text,
/// and something more; and it ends in it where there is nothing more.
pub proof fn texts_are_found_between_others(before: Seq<char>, part: Seq<char>, after: Seq<char>)
    ensures
        occurs_in(before + part + after, part),
        ends_in(before + part, part),
{
    let whole = before + part + after;
    assert(whole.subrange(before.len() as int, (before.len() + part.len()) as int) =~= part);
    assert(occurs_at(whole, part, before.len() as int));
    assert((before + part).subrange(before.len() as int, (before.len() + part.len()) as int) =~= part);
}

/// Where one text occurs in another, the other is made of what is given back: something,
/// the text, and something more.
pub proof fn found_texts_are_between_others(whole: Seq<char>, part: Seq<char>) -> (r: (
    Seq<char>,
    Seq<char>,
))
    requires
        occurs_in(whole, part),
    ensures
        whole == r.0 + part + r.1,
        ends_in(whole, part) ==> whole == whole.take(whole.len() - part.len()) + part,
{
    let i = choose|i: int| #[trigger] occurs_at(whole, part, i);
    let r = (whole.take(i), whole.skip(i + part.len()));
    assert(whole =~= r.0 + whole.subrange(i, i + part.len()) + r.1);
    if ends_in(whole, part) {
        let n = whole.len() - part.len();
        assert(whole =~= whole.take(n) + whole.subrange(n, n + part.len()));
    }
    r
}

/// The path of a field of an array element: `array[index].field`.
pub open spec fn element_path(array: Seq<char>, index: int, field: Seq<char>) -> Seq<char> {
    array + "["@ + decimal(index as nat) + "]."@ + field
}

/// Writes the path of a field of an array element.
pub fn element_path_text(array: &str, index: usize, field: &str) -> (r: String)
    ensures
        r@ == element_path(array@, index as int, field@),
{
    let mut r: String = String::from_str(array);
    r.append("[");
    r.append(decimal_text(index as u64).as_str());
    r.append("].");
    r.append(field);
    r
}

/// The path of a field tells which entry it is of.
pub proof fn paths_tell_the_entries_apart(array: Seq<char>, i: int, j: int, field: Seq<char>)
    requires
        0 <= i,
        0 <= j,
    ensures
        element_path(array, i, field) == element_path(array, j, field) ==> i == j,
        element_path(array, i, field).take(array.len() as int) == array,
        ends_in(element_path(array, i, field), field),
{
    let a = element_path(array, i, field);
    let b = element_path(array, j, field);
    assert(a.take(array.len() as int) =~= array);
    texts_are_found_between_others(
        array + "["@ + decimal(i as nat) + "]."@,
        field,
        Seq::empty(),
    );
    if a == b {
        let front = array.len() + "["@.len();
        let back = "]."@.len() + field.len();
        assert(decimal(i as nat) =~= a.subrange(front as int, a.len() - back));
        assert(decimal(j as nat) =~= b.subrange(front as int, b.len() - back));
        decimal_is_injective(i as nat, j as nat);
    }
}

// ── Messages ─────────────────────────────────────────────────────────────────

/// One part of a message. Numbers and dates stay values, so that how they are
/// printed is left to whoever shows the message.
#[derive(Clone, Debug, PartialEq)]
pub enum Piece {
    /// Fixed text.
    Text(&'static str),
    /// Text taken from the input.
    Name(String),
    /// Text taken from the input, shown in quotes with escapes.
    Quoted(String),
    /// An integer.
    Int(i64),
    /// A position or a count.
    Count(usize),
    /// A floating-point number.
    Float(Float64),
    /// A calendar date.
    Day(Date),
}

/// What a [`Piece`] stands for.
pub enum PieceView {
    /// Text, fixed or taken from the input.
    Text(Seq<char>),
    /// Text shown in quotes with escapes.
    Quoted(Seq<char>),
    /// An integer, a position or a count.
    Int(int),
    /// A floating-point number.
    Float(Float64),
    /// A calendar date.
    Day(Date),
}

impl View for Piece {
    type V = PieceView;

    open spec fn view(&self) -> PieceView {
        match self {
            Piece::Text(s) => PieceView::Text(s@),
            Piece::Name(s) => PieceView::Text(s@),
            Piece::Quoted(s) => PieceView::Quoted(s@),
            Piece::Int(n) => PieceView::Int(*n as int),
            Piece::Count(n) => PieceView::Int(*n as int),
            Piece::Float(x) => PieceView::Float(*x),
            Piece::Day(d) => PieceView::Day(*d),
        }
    }
}

/// The parts of a message, as values.
pub open spec fn pieces(message: Seq<Piece>) -> Seq<PieceView> {
    message.map_values(|p: Piece| p@)
}

/// Fixed text in a message.
pub open spec fn text(s: &str) -> PieceView {
    PieceView::Text(s@)
}

} // verus!
