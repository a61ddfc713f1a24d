//! How a FlatBuffers buffer is laid out while it is being built.
//!
//! A buffer grows towards its front: each new object is put before the bytes
//! that are already there. So an object is known by its distance from the
//! buffer's end, which later writes do not change. This module says what each
//! building step puts in front, and proves where a reader of the finished buffer
//! finds it again.

use vstd::prelude::*;

use crate::flat::wire;
use crate::float::Float64;

verus! {

/// The largest buffer that is built: its offsets fit in an `i32`.
pub const MAX_BUFFER_LEN: usize = 0x7fff_ffff;

/// A buffer under construction.
#[verifier::ext_equal]
pub struct Draft {
    /// What has been written, the newest object first.
    pub bytes: Seq<u8>,
    /// The fields of the table that is being written: each field's vtable slot and
    /// the distance of its data from the buffer's end.
    pub fields: Seq<(u16, nat)>,
    /// The distances from the buffer's end of the vtables that have been written.
    pub vtables: Set<nat>,
    /// The widest alignment that any object has asked for.
    pub alignment: nat,
    /// Whether a table is being written.
    pub open: bool,
    /// Whether the buffer is complete.
    pub finished: bool,
}

/// A draft with nothing in it.
pub open spec fn blank() -> Draft {
    Draft {
        bytes: Seq::empty(),
        fields: Seq::empty(),
        vtables: Set::empty(),
        alignment: 0,
        open: false,
        finished: false,
    }
}

/// `n` zero bytes.
pub open spec fn zeros(n: nat) -> Seq<u8> {
    Seq::new(n, |i: int| 0u8)
}

/// How many bytes of padding bring a length of `n` to a multiple of `a`.
pub open spec fn padding(n: int, a: int) -> int {
    (a - n % a) % a
}

/// The larger of two alignments.
pub open spec fn wider(a: nat, b: nat) -> nat {
    if a < b {
        b
    } else {
        a
    }
}

impl Draft {
    /// Puts `x` in front, padded so that it starts at a multiple of `a` from the end.
    pub open spec fn push(self, x: Seq<u8>, a: nat) -> Draft {
        Draft {
            bytes: x + zeros(padding((self.bytes.len() + x.len()) as int, a as int) as nat)
                + self.bytes,
            alignment: wider(self.alignment, a),
            ..self
        }
    }

    /// Puts a length of `count` and then `content` in front: a vector or a string.
    /// Its content starts at a multiple of `a` from the end, and of 4.
    #[verifier::opaque]
    pub open spec fn block(self, count: nat, content: Seq<u8>, a: nat) -> Draft {
        Draft {
            bytes: wire::le_bytes(count, 4) + self.push(content, wider(a, 4)).bytes,
            alignment: wider(self.alignment, wider(a, 4)),
            ..self
        }
    }

    /// Puts a vector of offsets in front, which lead to the objects at the
    /// distances `targets` from the end.
    #[verifier::opaque]
    pub open spec fn offset_block(self, targets: Seq<nat>) -> Draft {
        self.block(targets.len(), words(offsets(self.offsets_end(targets.len()), targets), 4), 4)
    }

    /// The distance from the end of the first element of an offset vector of `n`
    /// elements.
    pub open spec fn offsets_end(self, n: nat) -> nat {
        self.push(zeros(4 * n), 4).bytes.len()
    }

    /// Puts a field's value in front and notes it under `slot`.
    #[verifier::opaque]
    pub open spec fn scalar_field(self, slot: u16, x: Seq<u8>) -> Draft {
        let next = self.push(x, x.len());
        Draft { fields: self.fields.push((slot, next.bytes.len())), ..next }
    }

    /// Puts a field in front that leads to the object at distance `target` from the
    /// end, and notes it under `slot`.
    #[verifier::opaque]
    pub open spec fn offset_field(self, slot: u16, target: nat) -> Draft {
        let end = self.push(zeros(4), 4).bytes.len();
        self.scalar_field(slot, wire::le_bytes((end - target) as nat, 4))
    }

    /// The distance from the end at which a table that is closed now starts.
    #[verifier::opaque]
    pub open spec fn table_end(self) -> nat {
        self.push(zeros(4), 4).bytes.len()
    }

    /// The vtable of a table that is closed now and whose fields were written after
    /// the first `start` bytes.
    pub open spec fn vtable(self, start: nat) -> Seq<u8> {
        vtable_bytes(self.fields, self.table_end(), (self.table_end() - start) as nat)
    }

    /// The distance from the end of the vtable that such a table uses: that of an
    /// equal vtable written before, or of a new one in front of the table.
    #[verifier::opaque]
    pub open spec fn vtable_end(self, start: nat) -> nat {
        let vtable = self.vtable(start);
        if exists|v: nat| self.vtables.contains(v) && stands_at(self.bytes, v, vtable) {
            choose|v: nat| self.vtables.contains(v) && stands_at(self.bytes, v, vtable)
        } else {
            self.table_end() + vtable.len()
        }
    }

    /// Closes the table whose fields were written after the first `start` bytes:
    /// puts the offset to its vtable in front and, unless an equal vtable is there
    /// already, the vtable.
    #[verifier::opaque]
    pub open spec fn close_table(self, start: nat) -> Draft {
        let vtable = self.vtable(start);
        let v = self.vtable_end(start);
        let table = self.push(wire::le_bytes(wire::unsigned((v - self.table_end()) as i32) as nat, 4), 4);
        if v == self.table_end() + vtable.len() {
            Draft {
                bytes: vtable + table.bytes,
                fields: Seq::empty(),
                vtables: self.vtables.insert(v),
                open: false,
                ..table
            }
        } else {
            Draft { fields: Seq::empty(), open: false, ..table }
        }
    }

    /// Puts the offset of the root table and the file identifier in front.
    #[verifier::opaque]
    pub open spec fn finish(self, root: nat, identifier: Seq<u8>) -> Draft {
        let pad = zeros(padding((self.bytes.len() + 8) as int, self.alignment as int) as nat);
        let end = 8 + pad.len() + self.bytes.len();
        Draft {
            bytes: wire::le_bytes((end - root) as nat, 4) + identifier + pad + self.bytes,
            finished: true,
            ..self
        }
    }

    /// Starts a table.
    pub open spec fn opened(self) -> Draft {
        Draft { open: true, ..self }
    }
}

/// Numbers one after the other, in `n` bytes each.
pub open spec fn words(items: Seq<nat>, n: nat) -> Seq<u8>
    decreases items.len(),
{
    if items.len() == 0 {
        Seq::empty()
    } else {
        words(items.drop_last(), n) + wire::le_bytes(items.last(), n)
    }
}

/// The elements of an offset vector whose first element is at distance `end` from
/// the end of the buffer: each counts forward from itself to its target.
pub open spec fn offsets(end: nat, targets: Seq<nat>) -> Seq<nat> {
    Seq::new(targets.len(), |i: int| (end - 4 * i - targets[i]) as nat)
}

/// The distance of the field with slot `slot` from the start of its table, which is
/// at distance `table` from the end; 0 where no field has that slot.
pub open spec fn field_distance(fields: Seq<(u16, nat)>, table: nat, slot: int) -> nat
    decreases fields.len(),
{
    if fields.len() == 0 {
        0
    } else if fields.last().0 == slot {
        (table - fields.last().1) as nat
    } else {
        field_distance(fields.drop_last(), table, slot)
    }
}

/// The size of a vtable in bytes: it reaches to the highest slot.
pub open spec fn vtable_size(fields: Seq<(u16, nat)>) -> nat
    decreases fields.len(),
{
    if fields.len() == 0 {
        4
    } else {
        wider(vtable_size(fields.drop_last()), (fields.last().0 + 2) as nat)
    }
}

/// The vtable word at the even position `at`: the vtable's size, the table's size
/// and then the distance of each field.
pub open spec fn vtable_word(fields: Seq<(u16, nat)>, table: nat, size: nat, at: int) -> nat {
    if at == 0 {
        vtable_size(fields)
    } else if at == 2 {
        size
    } else {
        field_distance(fields, table, at)
    }
}

/// The vtable of a table at distance `table` from the end and of `size` bytes.
pub open spec fn vtable_bytes(fields: Seq<(u16, nat)>, table: nat, size: nat) -> Seq<u8> {
    Seq::new(
        vtable_size(fields),
        |i: int| wire::le_bytes(vtable_word(fields, table, size, i - i % 2), 2)[i % 2],
    )
}

// ── Where bytes stand ────────────────────────────────────────────────────────

/// The bytes `x` start at distance `end` from the end of `buf`.
pub open spec fn stands_at(buf: Seq<u8>, end: nat, x: Seq<u8>) -> bool {
    x.len() <= end <= buf.len() && buf.subrange(buf.len() - end, buf.len() - end + x.len()) == x
}

/// `buf` ends in the bytes `tail`.
pub open spec fn ends_in(buf: Seq<u8>, tail: Seq<u8>) -> bool {
    tail.len() <= buf.len() && buf.subrange(buf.len() - tail.len(), buf.len() as int) == tail
}

/// What stands in the tail stands in the buffer, at the same distance from the end.
pub proof fn tail_stands(buf: Seq<u8>, tail: Seq<u8>, end: nat, x: Seq<u8>)
    requires
        ends_in(buf, tail),
        stands_at(tail, end, x),
    ensures
        stands_at(buf, end, x),
{
    let kept = buf.subrange(buf.len() - tail.len(), buf.len() as int);
    assert(buf.subrange(buf.len() - end, buf.len() - end + x.len()) =~= kept.subrange(
        tail.len() - end,
        tail.len() - end + x.len(),
    ));
}

/// Ending in is transitive.
pub proof fn ends_in_chain(a: Seq<u8>, b: Seq<u8>, c: Seq<u8>)
    requires
        ends_in(a, b),
        ends_in(b, c),
    ensures
        ends_in(a, c),
{
    let kept = a.subrange(a.len() - b.len(), a.len() as int);
    assert(a.subrange(a.len() - c.len(), a.len() as int) =~= kept.subrange(
        b.len() - c.len(),
        b.len() as int,
    ));
}

/// A front put before a tail ends in the tail.
pub proof fn front_ends_in(front: Seq<u8>, tail: Seq<u8>)
    ensures
        ends_in(front + tail, tail),
{
    assert((front + tail).subrange(front.len() as int, (front + tail).len() as int) =~= tail);
}

/// The front of a buffer stands at the buffer's full length.
pub proof fn front_stands(front: Seq<u8>, tail: Seq<u8>)
    ensures
        stands_at(front + tail, (front + tail).len(), front),
{
    assert((front + tail).subrange(0, front.len() as int) =~= front);
}

/// A part of what stands somewhere stands there too.
pub proof fn part_stands(buf: Seq<u8>, end: nat, x: Seq<u8>, from: int, part: Seq<u8>)
    requires
        stands_at(buf, end, x),
        0 <= from,
        from + part.len() <= x.len(),
        part == x.subrange(from, from + part.len()),
    ensures
        stands_at(buf, (end - from) as nat, part),
{
    let start = buf.len() - end;
    let kept = buf.subrange(start, start + x.len());
    assert(buf.subrange(start + from, start + from + part.len()) =~= kept.subrange(
        from,
        from + part.len(),
    ));
}

/// A stored `u16` is read back.
pub proof fn u16_stands(buf: Seq<u8>, end: nat, x: u16)
    requires
        stands_at(buf, end, wire::le_bytes(x as nat, 2)),
    ensures
        wire::u16_at(buf, buf.len() - end) == Some(x),
{
    wire::le_bytes_hold_their_value(x as nat, 2);
    wire::byte_ranges();
}

/// A stored `u32` is read back.
pub proof fn u32_stands(buf: Seq<u8>, end: nat, x: u32)
    requires
        stands_at(buf, end, wire::le_bytes(x as nat, 4)),
    ensures
        wire::u32_at(buf, buf.len() - end) == Some(x),
{
    wire::le_bytes_hold_their_value(x as nat, 4);
    wire::byte_ranges();
}

// ── Tables ───────────────────────────────────────────────────────────────────

/// One field of a table: a value of its own, or the way to another object.
pub enum Entry {
    /// A value, given by its bytes.
    Scalar(u16, Seq<u8>),
    /// The object at this distance from the end.
    Offset(u16, nat),
}

impl Entry {
    /// The field's vtable slot.
    pub open spec fn slot(self) -> u16 {
        match self {
            Entry::Scalar(slot, _) => slot,
            Entry::Offset(slot, _) => slot,
        }
    }

    /// The bytes of the field's data where they start at distance `end` from the
    /// end.
    pub open spec fn data(self, end: nat) -> Seq<u8> {
        match self {
            Entry::Scalar(_, x) => x,
            Entry::Offset(_, target) => wire::le_bytes((end - target) as nat, 4),
        }
    }

    /// How many bytes the field's data take.
    pub open spec fn size(self) -> nat {
        match self {
            Entry::Scalar(_, x) => x.len(),
            Entry::Offset(_, _) => 4,
        }
    }
}

impl Draft {
    /// Writes one field.
    pub open spec fn add(self, entry: Entry) -> Draft {
        match entry {
            Entry::Scalar(slot, x) => self.scalar_field(slot, x),
            Entry::Offset(slot, target) => self.offset_field(slot, target),
        }
    }

    /// Writes the fields one after the other.
    pub open spec fn add_all(self, entries: Seq<Entry>) -> Draft
        decreases entries.len(),
    {
        if entries.len() == 0 {
            self
        } else {
            self.add_all(entries.drop_last()).add(entries.last())
        }
    }

    /// Writes a whole table.
    pub open spec fn table(self, entries: Seq<Entry>) -> Draft {
        self.opened().add_all(entries).close_table(self.bytes.len())
    }

    /// The distance from the end of the table that `table` writes.
    pub open spec fn table_at(self, entries: Seq<Entry>) -> nat {
        self.opened().add_all(entries).table_end()
    }

    /// The distance from the end of the vtable of that table.
    pub open spec fn vtable_at(self, entries: Seq<Entry>) -> nat {
        self.opened().add_all(entries).vtable_end(self.bytes.len())
    }

    /// The distance from the end of the data of that table's field `i`.
    pub open spec fn field_end(self, entries: Seq<Entry>, i: int) -> nat {
        self.opened().add_all(entries).fields[i].1
    }
}

/// The sizes that a value can have, which are also its alignments.
pub open spec fn scalar_size(n: nat) -> bool {
    n == 1 || n == 2 || n == 4 || n == 8
}

/// The fields that a table can have: their slots are those of the wire format, no
/// two are the same, and each has some data.
pub open spec fn proper_entries(entries: Seq<Entry>) -> bool {
    &&& forall|i: int|
        0 <= i < entries.len() ==> {
            let slot = (#[trigger] entries[i]).slot();
            slot % 2 == 0 && 4 <= slot < 1000 && scalar_size(entries[i].size())
        }
    &&& forall|i: int, j: int|
        0 <= i < j < entries.len() ==> (#[trigger] entries[i]).slot() != (
        #[trigger] entries[j]).slot()
}

/// The most bytes that fields take, with the padding between them.
pub open spec fn fields_cost(entries: Seq<Entry>) -> nat
    decreases entries.len(),
{
    if entries.len() == 0 {
        0
    } else {
        fields_cost(entries.drop_last()) + (2 * entries.last().size() - 1) as nat
    }
}

/// The size of the vtable of a table with these fields.
pub open spec fn entries_vtable_size(entries: Seq<Entry>) -> nat
    decreases entries.len(),
{
    if entries.len() == 0 {
        4
    } else {
        wider(entries_vtable_size(entries.drop_last()), (entries.last().slot() + 2) as nat)
    }
}

/// The most bytes that a table takes: its fields, the way to its vtable and the
/// vtable.
pub open spec fn table_cost(entries: Seq<Entry>) -> nat {
    fields_cost(entries) + 7 + entries_vtable_size(entries)
}

/// Each field has the size of some value.
pub open spec fn sized_entries(entries: Seq<Entry>) -> bool {
    forall|i: int| 0 <= i < entries.len() ==> scalar_size((#[trigger] entries[i]).size())
}

proof fn padding_is_short(n: int, a: int)
    requires
        0 < a,
        0 <= n,
    ensures
        0 <= padding(n, a) < a,
        (n + padding(n, a)) % a == 0,
{
    vstd::arithmetic::div_mod::lemma_mod_bound(n, a);
    vstd::arithmetic::div_mod::lemma_mod_bound(a - n % a, a);
    vstd::arithmetic::div_mod::lemma_fundamental_div_mod(n, a);
    let q = n / a;
    let r = n % a;
    if r == 0 {
        assert(padding(n, a) == 0) by {
            vstd::arithmetic::div_mod::lemma_mod_self_0(a);
        }
    } else {
        vstd::arithmetic::div_mod::lemma_small_mod((a - r) as nat, a as nat);
        assert(n + padding(n, a) == a * (q + 1)) by (nonlinear_arith)
            requires
                n == a * q + r,
                padding(n, a) == a - r,
        ;
        vstd::arithmetic::div_mod::lemma_mod_multiples_basic(q + 1, a);
        assert((a * (q + 1)) % a == 0) by {
            vstd::arithmetic::mul::lemma_mul_is_commutative(a, q + 1);
        }
    }
}

/// What `push` does: the new bytes are the front, the old ones the tail.
pub proof fn push_extends(d: Draft, x: Seq<u8>, a: nat)
    requires
        0 < a,
    ensures
        ends_in(d.push(x, a).bytes, d.bytes),
        stands_at(d.push(x, a).bytes, d.push(x, a).bytes.len(), x),
        d.bytes.len() + x.len() <= d.push(x, a).bytes.len() < d.bytes.len() + x.len() + a,
        d.push(x, a).bytes.len() % a == 0,
{
    padding_is_short((d.bytes.len() + x.len()) as int, a as int);
    let pad = zeros(padding((d.bytes.len() + x.len()) as int, a as int) as nat);
    front_ends_in(x + pad, d.bytes);
    assert(x + pad + d.bytes =~= x + (pad + d.bytes));
    front_stands(x, pad + d.bytes);
}

/// What writing one field does.
pub proof fn add_extends(d: Draft, entry: Entry)
    requires
        scalar_size(entry.size()),
    ensures
        d.alignment == 0 || scalar_size(d.alignment) ==> scalar_size(d.add(entry).alignment),
        ends_in(d.add(entry).bytes, d.bytes),
        d.add(entry).fields == d.fields.push((entry.slot(), d.add(entry).bytes.len())),
        d.add(entry).vtables == d.vtables,
        stands_at(
            d.add(entry).bytes,
            d.add(entry).bytes.len(),
            entry.data(d.add(entry).bytes.len()),
        ),
        d.bytes.len() < d.add(entry).bytes.len() <= d.bytes.len() + 2 * entry.size() - 1,
        d.add(entry).open == d.open,
        d.add(entry).finished == d.finished,
{
    reveal(Draft::scalar_field);
    reveal(Draft::offset_field);
    match entry {
        Entry::Scalar(slot, x) => {
            push_extends(d, x, x.len());
        },
        Entry::Offset(slot, target) => {
            let end = d.push(zeros(4), 4).bytes.len();
            let x = wire::le_bytes((end - target) as nat, 4);
            wire::le_bytes_hold_their_value((end - target) as nat, 4);
            push_extends(d, x, 4);
        },
    }
}

/// Writing fields only puts something in front.
pub proof fn add_all_grows(d: Draft, entries: Seq<Entry>)
    requires
        sized_entries(entries),
    ensures
        d.bytes.len() <= d.add_all(entries).bytes.len() <= d.bytes.len() + fields_cost(entries),
        d.add_all(entries).open == d.open,
    decreases entries.len(),
{
    if entries.len() > 0 {
        let before = entries.drop_last();
        assert forall|i: int| 0 <= i < before.len() implies scalar_size(
            (#[trigger] before[i]).size(),
        ) by {
            assert(before[i] == entries[i]);
        }
        add_all_grows(d, before);
        assert(scalar_size(entries[entries.len() - 1].size()));
        add_extends(d.add_all(before), entries.last());
    }
}

/// What writing all fields of a table does.
pub proof fn add_all_extends(d: Draft, entries: Seq<Entry>)
    requires
        proper_entries(entries),
        d.fields.len() == 0,
    ensures
        d.alignment == 0 || scalar_size(d.alignment) ==> d.add_all(entries).alignment == 0
            || scalar_size(d.add_all(entries).alignment),
        ends_in(d.add_all(entries).bytes, d.bytes),
        d.add_all(entries).bytes.len() <= d.bytes.len() + fields_cost(entries),
        fields_cost(entries) <= 15 * entries.len(),
        vtable_size(d.add_all(entries).fields) == entries_vtable_size(entries),
        d.add_all(entries).vtables == d.vtables,
        d.add_all(entries).open == d.open,
        d.add_all(entries).finished == d.finished,
        d.add_all(entries).fields.len() == entries.len(),
        forall|i: int|
            0 <= i < entries.len() ==> {
                let (slot, end) = #[trigger] d.add_all(entries).fields[i];
                &&& slot == entries[i].slot()
                &&& d.bytes.len() < end <= d.add_all(entries).bytes.len()
                &&& stands_at(d.add_all(entries).bytes, end, entries[i].data(end))
            },
    decreases entries.len(),
{
    if entries.len() == 0 {
        assert(d.bytes.subrange(0, d.bytes.len() as int) =~= d.bytes);
    } else {
        let before = entries.drop_last();
        assert forall|i: int, j: int| 0 <= i < j < before.len() implies (
        #[trigger] before[i]).slot() != (#[trigger] before[j]).slot() by {
            assert(before[i] == entries[i] && before[j] == entries[j]);
        }
        assert forall|i: int| 0 <= i < before.len() implies {
            let slot = (#[trigger] before[i]).slot();
            slot % 2 == 0 && 4 <= slot < 1000 && scalar_size(before[i].size())
        } by {
            assert(before[i] == entries[i]);
        }
        add_all_extends(d, before);
        let d1 = d.add_all(before);
        let d2 = d.add_all(entries);
        assert(scalar_size(entries[entries.len() - 1].size()));
        add_extends(d1, entries.last());
        assert(d2.fields.drop_last() =~= d1.fields);
        ends_in_chain(d2.bytes, d1.bytes, d.bytes);
        assert forall|i: int| 0 <= i < entries.len() implies {
            let (slot, end) = #[trigger] d2.fields[i];
            &&& slot == entries[i].slot()
            &&& d.bytes.len() < end <= d2.bytes.len()
            &&& stands_at(d2.bytes, end, entries[i].data(end))
        } by {
            if i < before.len() {
                assert(d2.fields[i] == d1.fields[i]);
                assert(before[i] == entries[i]);
                let end = d1.fields[i].1;
                tail_stands(d2.bytes, d1.bytes, end, entries[i].data(end));
            }
        }
    }
}

proof fn vtable_size_covers(fields: Seq<(u16, nat)>)
    requires
        forall|i: int| 0 <= i < fields.len() ==> (#[trigger] fields[i]).0 < 1000,
        forall|i: int| 0 <= i < fields.len() ==> (#[trigger] fields[i]).0 % 2 == 0,
    ensures
        4 <= vtable_size(fields) < 1002,
        vtable_size(fields) % 2 == 0,
        forall|i: int| 0 <= i < fields.len() ==> (#[trigger] fields[i]).0 + 2 <= vtable_size(fields),
    decreases fields.len(),
{
    if fields.len() > 0 {
        let before = fields.drop_last();
        assert forall|i: int| 0 <= i < before.len() implies (#[trigger] before[i]).0 < 1000
            && before[i].0 % 2 == 0 by {
            assert(before[i] == fields[i]);
        }
        vtable_size_covers(before);
        assert forall|i: int| 0 <= i < fields.len() implies (#[trigger] fields[i]).0 + 2
            <= vtable_size(fields) by {
            if i < before.len() {
                assert(before[i] == fields[i]);
            }
        }
    }
}

proof fn field_distance_of(fields: Seq<(u16, nat)>, table: nat, i: int)
    requires
        0 <= i < fields.len(),
        forall|a: int, b: int|
            0 <= a < b < fields.len() ==> (#[trigger] fields[a]).0 != (#[trigger] fields[b]).0,
    ensures
        field_distance(fields, table, fields[i].0 as int) == (table - fields[i].1) as nat,
    decreases fields.len(),
{
    if i < fields.len() - 1 {
        let before = fields.drop_last();
        assert(before[i] == fields[i]);
        assert(fields[fields.len() - 1].0 != fields[i].0);
        assert forall|a: int, b: int| 0 <= a < b < before.len() implies (#[trigger] before[a]).0
            != (#[trigger] before[b]).0 by {
            assert(before[a] == fields[a] && before[b] == fields[b]);
        }
        field_distance_of(before, table, i);
    }
}

proof fn field_distance_absent(fields: Seq<(u16, nat)>, table: nat, slot: int)
    requires
        forall|i: int| 0 <= i < fields.len() ==> (#[trigger] fields[i]).0 != slot,
    ensures
        field_distance(fields, table, slot) == 0,
    decreases fields.len(),
{
    if fields.len() > 0 {
        let before = fields.drop_last();
        assert(fields[fields.len() - 1].0 != slot);
        assert forall|i: int| 0 <= i < before.len() implies (#[trigger] before[i]).0 != slot by {
            assert(before[i] == fields[i]);
        }
        field_distance_absent(before, table, slot);
    }
}

proof fn vtable_word_stands(
    buf: Seq<u8>,
    end: nat,
    fields: Seq<(u16, nat)>,
    table: nat,
    size: nat,
    at: int,
)
    requires
        stands_at(buf, end, vtable_bytes(fields, table, size)),
        0 <= at,
        at % 2 == 0,
        at + 2 <= vtable_size(fields),
        vtable_word(fields, table, size, at) < 0x1_0000,
    ensures
        wire::u16_at(buf, buf.len() - end + at) == Some(vtable_word(fields, table, size, at) as u16),
{
    let vtable = vtable_bytes(fields, table, size);
    let word = wire::le_bytes(vtable_word(fields, table, size, at), 2);
    wire::le_bytes_hold_their_value(vtable_word(fields, table, size, at), 2);
    assert(word =~= vtable.subrange(at, at + 2)) by {
        assert((at + 1) % 2 == 1);
    }
    part_stands(buf, end, vtable, at, word);
    u16_stands(buf, (end - at) as nat, vtable_word(fields, table, size, at) as u16);
}

/// Closing a table keeps what was written before and stays within its cost.
pub proof fn table_extends(d: Draft, entries: Seq<Entry>)
    requires
        proper_entries(entries),
        d.fields.len() == 0,
    ensures
        ends_in(d.table(entries).bytes, d.bytes),
        d.table(entries).fields.len() == 0,
        !d.table(entries).open,
        d.table(entries).finished == d.finished,
        d.bytes.len() + 4 <= d.table_at(entries) <= d.table(entries).bytes.len(),
        d.table(entries).bytes.len() <= d.bytes.len() + table_cost(entries),
        d.alignment == 0 || scalar_size(d.alignment) ==> d.table(entries).alignment == 4
            || d.table(entries).alignment == 8,
{
    reveal(Draft::close_table);
    reveal(Draft::table_end);
    reveal(Draft::vtable_end);
    add_all_extends(d.opened(), entries);
    let d1 = d.opened().add_all(entries);
    assert forall|i: int| 0 <= i < d1.fields.len() implies (#[trigger] d1.fields[i]).0 < 1000
        && d1.fields[i].0 % 2 == 0 by {
        assert(entries[i].slot() < 1000);
    }
    vtable_size_covers(d1.fields);
    let start = d.bytes.len();
    let x = wire::le_bytes(wire::unsigned((d1.vtable_end(start) - d1.table_end()) as i32) as nat, 4);
    wire::le_bytes_hold_their_value(
        wire::unsigned((d1.vtable_end(start) - d1.table_end()) as i32) as nat,
        4,
    );
    push_extends(d1, x, 4);
    push_extends(d1, zeros(4), 4);
    let t = d1.push(x, 4);
    ends_in_chain(t.bytes, d1.bytes, d.bytes);
    front_ends_in(d1.vtable(start), t.bytes);
    if d.table(entries).bytes != t.bytes {
        ends_in_chain(d.table(entries).bytes, t.bytes, d.bytes);
    }
}

/// A table takes no fewer bytes than its fields.
pub proof fn table_holds_its_fields(d: Draft, entries: Seq<Entry>)
    ensures
        d.opened().add_all(entries).bytes.len() <= d.table(entries).bytes.len(),
{
    reveal(Draft::close_table);
}

/// A buffer that ends in what `table` wrote holds the table's vtable and the way to
/// it.
proof fn table_stands(d: Draft, entries: Seq<Entry>, buf: Seq<u8>)
    requires
        proper_entries(entries),
        entries.len() <= 100,
        d.fields.len() == 0,
        ends_in(buf, d.table(entries).bytes),
        buf.len() <= MAX_BUFFER_LEN,
    ensures
        ({
            let d1 = d.opened().add_all(entries);
            let r = d.table_at(entries);
            let v = d.vtable_at(entries);
            &&& ends_in(buf, d1.bytes)
            &&& d1.bytes.len() + 4 <= r <= d.bytes.len() + 15 * entries.len() + 7
            &&& r <= buf.len()
            &&& stands_at(buf, v, vtable_bytes(d1.fields, r, (r - d.bytes.len()) as nat))
            &&& wire::vtable_of(buf, buf.len() - r) == Some(buf.len() - v)
            &&& 4 <= vtable_size(d1.fields) < 1002
            &&& forall|i: int|
                0 <= i < d1.fields.len() ==> (#[trigger] d1.fields[i]).0 + 2 <= vtable_size(
                    d1.fields,
                )
        }),
{
    reveal(Draft::close_table);
    reveal(Draft::table_end);
    reveal(Draft::vtable_end);
    add_all_extends(d.opened(), entries);
    let d1 = d.opened().add_all(entries);
    let fields = d1.fields;
    let start = d.bytes.len();
    let r = d1.table_end();
    let v = d1.vtable_end(start);
    let vt = d1.vtable(start);
    let x = wire::le_bytes(wire::unsigned((v - r) as i32) as nat, 4);
    wire::le_bytes_hold_their_value(wire::unsigned((v - r) as i32) as nat, 4);
    push_extends(d1, x, 4);
    push_extends(d1, zeros(4), 4);
    let t = d1.push(x, 4);
    assert forall|i: int| 0 <= i < fields.len() implies (#[trigger] fields[i]).0 < 1000
        && fields[i].0 % 2 == 0 by {
        assert(entries[i].slot() < 1000);
    }
    vtable_size_covers(fields);
    let all = d.table(entries).bytes;
    if exists|w: nat| d1.vtables.contains(w) && stands_at(d1.bytes, w, vt) {
        assert(stands_at(d1.bytes, v, vt));
        assert(all == t.bytes);
        ends_in_chain(buf, t.bytes, d1.bytes);
        tail_stands(buf, d1.bytes, v, vt);
    } else {
        assert(all == vt + t.bytes);
        front_ends_in(vt, t.bytes);
        front_stands(vt, t.bytes);
        ends_in_chain(buf, all, t.bytes);
        ends_in_chain(buf, t.bytes, d1.bytes);
        tail_stands(buf, all, v, vt);
    }
    vtable_word_stands(buf, v, fields, r, (r - start) as nat, 0);
    tail_stands(buf, t.bytes, r, x);
    assert(-0x8000_0000 < v - r < 0x8000_0000);
    u32_stands(buf, r, wire::unsigned((v - r) as i32));
    wire::signed_words_round_trip((v - r) as i32, 0);
}

/// A reader of any buffer that ends in what `table` wrote finds the table's vtable
/// and each of its fields, and finds no other field.
pub proof fn table_is_found(d: Draft, entries: Seq<Entry>, buf: Seq<u8>)
    requires
        proper_entries(entries),
        entries.len() <= 100,
        d.fields.len() == 0,
        ends_in(buf, d.table(entries).bytes),
        buf.len() <= MAX_BUFFER_LEN,
    ensures
        ({
            let table = buf.len() - d.table_at(entries);
            let vtable = buf.len() - d.vtable_at(entries);
            &&& 0 <= table
            &&& table + 4 <= buf.len()
            &&& wire::vtable_of(buf, table) == Some(vtable)
            &&& forall|i: int|
                0 <= i < entries.len() ==> {
                    let end = d.field_end(entries, i);
                    &&& wire::field_at(buf, table, vtable, (#[trigger] entries[i]).slot()) == Some(
                        buf.len() - end,
                    )
                    &&& stands_at(buf, end, entries[i].data(end))
                    &&& d.bytes.len() < end
                }
            &&& forall|slot: u16|
                slot % 2 == 0 && slot >= 4 && (forall|i: int|
                    0 <= i < entries.len() ==> (#[trigger] entries[i]).slot() != slot) ==> (
                #[trigger] wire::field_at(buf, table, vtable, slot)) is None
        }),
{
    table_stands(d, entries, buf);
    add_all_extends(d.opened(), entries);
    let d1 = d.opened().add_all(entries);
    let fields = d1.fields;
    let r = d.table_at(entries);
    let v = d.vtable_at(entries);
    let size = (r - d.bytes.len()) as nat;
    let table = buf.len() - r;
    let vtable = buf.len() - v;
    vtable_word_stands(buf, v, fields, r, size, 0);
    assert forall|a: int, b: int| 0 <= a < b < fields.len() implies (#[trigger] fields[a]).0 != (
    #[trigger] fields[b]).0 by {
        assert(entries[a].slot() != entries[b].slot());
    }
    assert forall|i: int| 0 <= i < entries.len() implies {
        let end = d.field_end(entries, i);
        &&& wire::field_at(buf, table, vtable, (#[trigger] entries[i]).slot()) == Some(buf.len() - end)
        &&& stands_at(buf, end, entries[i].data(end))
        &&& d.bytes.len() < end
    } by {
        let (slot, end) = fields[i];
        field_distance_of(fields, r, i);
        vtable_word_stands(buf, v, fields, r, size, slot as int);
        tail_stands(buf, d1.bytes, end, entries[i].data(end));
    }
    assert forall|slot: u16|
        slot % 2 == 0 && slot >= 4 && (forall|i: int|
            0 <= i < entries.len() ==> (#[trigger] entries[i]).slot() != slot) implies (
    #[trigger] wire::field_at(buf, table, vtable, slot)) is None by {
        assert forall|i: int| 0 <= i < fields.len() implies (#[trigger] fields[i]).0 != slot by {
            assert(entries[i].slot() != slot);
        }
        field_distance_absent(fields, r, slot as int);
        if slot + 2 <= vtable_size(fields) {
            vtable_word_stands(buf, v, fields, r, size, slot as int);
        }
    }
}

// ── Vectors and strings ──────────────────────────────────────────────────────

/// What writing a vector or a string does.
pub proof fn block_extends(d: Draft, count: nat, content: Seq<u8>, a: nat)
    requires
        scalar_size(a),
    ensures
        ends_in(d.block(count, content, a).bytes, d.bytes),
        stands_at(
            d.block(count, content, a).bytes,
            d.block(count, content, a).bytes.len(),
            wire::le_bytes(count, 4) + content,
        ),
        d.bytes.len() + content.len() + 4 <= d.block(count, content, a).bytes.len(),
        d.block(count, content, a).bytes.len() <= d.bytes.len() + content.len() + 11,
        d.block(count, content, a).fields == d.fields,
        d.block(count, content, a).open == d.open,
        d.block(count, content, a).finished == d.finished,
        d.alignment == 0 || scalar_size(d.alignment) ==> scalar_size(
            d.block(count, content, a).alignment,
        ),
{
    reveal(Draft::block);
    let width = wider(a, 4);
    let head = wire::le_bytes(count, 4);
    wire::le_bytes_hold_their_value(count, 4);
    push_extends(d, content, width);
    let p = d.push(content, width);
    front_ends_in(head, p.bytes);
    ends_in_chain(head + p.bytes, p.bytes, d.bytes);
    let pad = zeros(padding((d.bytes.len() + content.len()) as int, width as int) as nat);
    assert(head + p.bytes =~= (head + content) + (pad + d.bytes));
    front_stands(head + content, pad + d.bytes);
}

/// The length and the content of a vector stand where it was written.
pub proof fn block_stands(buf: Seq<u8>, end: nat, count: u32, content: Seq<u8>)
    requires
        stands_at(buf, end, wire::le_bytes(count as nat, 4) + content),
    ensures
        wire::u32_at(buf, buf.len() - end) == Some(count),
        end >= content.len() + 4,
        stands_at(buf, (end - 4) as nat, content),
{
    let head = wire::le_bytes(count as nat, 4);
    wire::le_bytes_hold_their_value(count as nat, 4);
    assert((head + content).subrange(0, 4) =~= head);
    assert((head + content).subrange(4, (4 + content.len()) as int) =~= content);
    part_stands(buf, end, head + content, 0, head);
    part_stands(buf, end, head + content, 4, content);
    u32_stands(buf, end, count);
}

/// A byte vector is read back.
pub proof fn u8s_are_found(buf: Seq<u8>, end: nat, items: Seq<u8>)
    requires
        items.len() <= u32::MAX,
        stands_at(buf, end, wire::le_bytes(items.len(), 4) + items),
    ensures
        wire::u8s_at(buf, buf.len() - end) == Some(items),
{
    block_stands(buf, end, items.len() as u32, items);
}

/// A string is read back.
pub proof fn string_is_found(buf: Seq<u8>, end: nat, text: Seq<char>)
    requires
        vstd::utf8::encode_utf8(text).len() <= u32::MAX,
        stands_at(
            buf,
            end,
            wire::le_bytes(vstd::utf8::encode_utf8(text).len(), 4) + vstd::utf8::encode_utf8(text).push(
                0,
            ),
        ),
    ensures
        wire::string_at(buf, buf.len() - end) == Some(text),
{
    let bytes = vstd::utf8::encode_utf8(text);
    block_stands(buf, end, bytes.len() as u32, bytes.push(0));
    assert(bytes.push(0).subrange(0, bytes.len() as int) =~= bytes);
    part_stands(buf, (end - 4) as nat, bytes.push(0), 0, bytes);
    vstd::utf8::encode_utf8_valid_utf8(text);
    vstd::utf8::encode_utf8_decode_utf8(text);
}

/// Each number of a run of words stands at its place.
pub proof fn word_stands(items: Seq<nat>, n: nat, i: int)
    requires
        n == 4 || n == 8,
        0 <= i < items.len(),
    ensures
        words(items, n).len() == n * items.len(),
        n * i + n <= n * items.len(),
        words(items, n).subrange(n * i, n * i + n) == wire::le_bytes(items[i], n),
    decreases items.len(),
{
    words_len(items, n);
    words_len(items.drop_last(), n);
    wire::le_bytes_hold_their_value(items.last(), n);
    if i == items.len() - 1 {
        assert(words(items, n).subrange(n * i, n * i + n) =~= wire::le_bytes(items[i], n));
    } else {
        word_stands(items.drop_last(), n, i);
        assert(words(items, n).subrange(n * i, n * i + n) =~= words(
            items.drop_last(),
            n,
        ).subrange(n * i, n * i + n));
    }
}

/// A run of words has as many bytes as its numbers take.
pub proof fn words_len(items: Seq<nat>, n: nat)
    requires
        n == 4 || n == 8,
    ensures
        words(items, n).len() == n * items.len(),
    decreases items.len(),
{
    if items.len() > 0 {
        words_len(items.drop_last(), n);
        wire::le_bytes_hold_their_value(items.last(), n);
    }
}

/// `u32` numbers as mathematical ones.
pub open spec fn u32_words(items: Seq<u32>) -> Seq<nat> {
    items.map_values(|x: u32| x as nat)
}

/// Floating-point numbers as their bit patterns.
pub open spec fn f64_words(items: Seq<Float64>) -> Seq<nat> {
    items.map_values(|x: Float64| x.bits as nat)
}

/// A `u32` vector is read back.
pub proof fn u32s_are_found(buf: Seq<u8>, end: nat, items: Seq<u32>)
    requires
        items.len() <= u32::MAX,
        stands_at(buf, end, wire::le_bytes(items.len(), 4) + words(u32_words(items), 4)),
    ensures
        wire::u32s_at(buf, buf.len() - end) == Some(items),
{
    let content = words(u32_words(items), 4);
    words_len(u32_words(items), 4);
    block_stands(buf, end, items.len() as u32, content);
    let pos = buf.len() - end;
    let read = Seq::new(items.len(), |i: int| wire::u32_at(buf, pos + 4 + i * 4)->0);
    assert forall|i: int| 0 <= i < items.len() implies #[trigger] read[i] == items[i] by {
        word_stands(u32_words(items), 4, i);
        part_stands(buf, (end - 4) as nat, content, 4 * i, wire::le_bytes(items[i] as nat, 4));
        u32_stands(buf, (end - 4 - 4 * i) as nat, items[i]);
    }
    assert(read =~= items);
}

/// A floating-point vector is read back.
pub proof fn f64s_are_found(buf: Seq<u8>, end: nat, items: Seq<Float64>)
    requires
        items.len() <= u32::MAX,
        stands_at(buf, end, wire::le_bytes(items.len(), 4) + words(f64_words(items), 8)),
    ensures
        wire::f64s_at(buf, buf.len() - end) == Some(items),
{
    let content = words(f64_words(items), 8);
    words_len(f64_words(items), 8);
    block_stands(buf, end, items.len() as u32, content);
    let pos = buf.len() - end;
    let read = Seq::new(items.len(), |i: int| wire::f64_at(buf, pos + 4 + i * 8)->0);
    assert forall|i: int| 0 <= i < items.len() implies #[trigger] read[i] == items[i] by {
        word_stands(f64_words(items), 8, i);
        part_stands(buf, (end - 4) as nat, content, 8 * i, wire::le_bytes(items[i].bits as nat, 8));
        u64_stands(buf, (end - 4 - 8 * i) as nat, items[i].bits);
    }
    assert(read =~= items);
}

/// What writing an offset vector does.
pub proof fn offset_block_extends(d: Draft, targets: Seq<nat>)
    ensures
        ends_in(d.offset_block(targets).bytes, d.bytes),
        d.bytes.len() + 4 * targets.len() + 4 <= d.offset_block(targets).bytes.len(),
        d.offset_block(targets).bytes.len() <= d.bytes.len() + 4 * targets.len() + 11,
        d.offset_block(targets).bytes.len() == d.offsets_end(targets.len()) + 4,
        d.offset_block(targets).fields == d.fields,
        d.offset_block(targets).open == d.open,
        d.offset_block(targets).finished == d.finished,
        stands_at(
            d.offset_block(targets).bytes,
            d.offset_block(targets).bytes.len(),
            wire::le_bytes(targets.len(), 4) + words(
                offsets(d.offsets_end(targets.len()), targets),
                4,
            ),
        ),
        d.alignment == 0 || scalar_size(d.alignment) ==> scalar_size(
            d.offset_block(targets).alignment,
        ),
{
    reveal(Draft::block);
    reveal(Draft::offset_block);
    let content = words(offsets(d.offsets_end(targets.len()), targets), 4);
    words_len(offsets(d.offsets_end(targets.len()), targets), 4);
    block_extends(d, targets.len(), content, 4);
    wire::le_bytes_hold_their_value(targets.len(), 4);
    push_extends(d, zeros(4 * targets.len()), 4);
    push_extends(d, content, 4);
}

/// An offset vector is read back: its elements lead to their targets.
pub proof fn targets_are_found(d: Draft, targets: Seq<nat>, buf: Seq<u8>)
    requires
        ends_in(buf, d.offset_block(targets).bytes),
        buf.len() <= MAX_BUFFER_LEN,
        forall|i: int| 0 <= i < targets.len() ==> #[trigger] targets[i] <= d.bytes.len(),
    ensures
        wire::targets_at(buf, buf.len() - d.offset_block(targets).bytes.len()) == Some(
            Seq::new(targets.len(), |i: int| buf.len() - targets[i]),
        ),
{
    offset_block_extends(d, targets);
    let end = d.offset_block(targets).bytes.len();
    let items = offsets(d.offsets_end(targets.len()), targets);
    let content = words(items, 4);
    words_len(items, 4);
    tail_stands(buf, d.offset_block(targets).bytes, end, wire::le_bytes(targets.len(), 4) + content);
    block_stands(buf, end, targets.len() as u32, content);
    let pos = buf.len() - end;
    assert forall|i: int| 0 <= i < targets.len() implies (#[trigger] wire::target_of(
        buf,
        pos + 4 + i * 4,
    )) == Some(buf.len() - targets[i]) by {
        word_stands(items, 4, i);
        part_stands(buf, (end - 4) as nat, content, 4 * i, wire::le_bytes(items[i], 4));
        assert(items[i] == end - 4 - 4 * i - targets[i]);
        u32_stands(buf, (end - 4 - 4 * i) as nat, items[i] as u32);
    }
    assert(wire::targets_at(buf, pos)->0 =~= Seq::new(targets.len(), |i: int| buf.len() - targets[i]));
}

/// A stored `u64` is read back.
pub proof fn u64_stands(buf: Seq<u8>, end: nat, x: u64)
    requires
        stands_at(buf, end, wire::le_bytes(x as nat, 8)),
    ensures
        wire::u64_at(buf, buf.len() - end) == Some(x),
{
    wire::le_bytes_hold_their_value(x as nat, 8);
    wire::byte_ranges();
}

/// A stored `i32` is read back.
pub proof fn i32_stands(buf: Seq<u8>, end: nat, x: i32)
    requires
        stands_at(buf, end, wire::le_bytes(wire::unsigned(x) as nat, 4)),
    ensures
        wire::i32_at(buf, buf.len() - end) == Some(x),
{
    u32_stands(buf, end, wire::unsigned(x));
    wire::signed_words_round_trip(x, 0);
}

/// A stored byte is read back.
pub proof fn u8_stands(buf: Seq<u8>, end: nat, x: u8)
    requires
        stands_at(buf, end, seq![x]),
    ensures
        wire::u8_at(buf, buf.len() - end) == Some(x),
{
    assert(buf.subrange(buf.len() - end, buf.len() - end + 1)[0] == seq![x][0]);
}

/// A field that leads to an object is followed to it.
pub proof fn offset_stands(buf: Seq<u8>, end: nat, target: nat)
    requires
        target <= end,
        buf.len() <= MAX_BUFFER_LEN,
        stands_at(buf, end, wire::le_bytes((end - target) as nat, 4)),
    ensures
        wire::target_of(buf, buf.len() - end) == Some(buf.len() - target),
{
    u32_stands(buf, end, (end - target) as u32);
}

// ── The finished buffer ──────────────────────────────────────────────────────

/// Finishing a buffer puts 8 bytes and some padding in front.
pub proof fn finish_len(d: Draft, root: nat, identifier: Seq<u8>)
    requires
        d.alignment == 4 || d.alignment == 8,
        identifier.len() == 4,
    ensures
        d.bytes.len() + 8 <= d.finish(root, identifier).bytes.len() <= d.bytes.len() + 15,
{
    reveal(Draft::finish);
    padding_is_short((d.bytes.len() + 8) as int, d.alignment as int);
    wire::le_bytes_lengths();
}

/// A finished buffer starts with the way to its root table and its identifier.
pub proof fn finish_is_found(d: Draft, root: nat, identifier: Seq<u8>)
    requires
        d.alignment == 4 || d.alignment == 8,
        identifier.len() == 4,
        4 <= root <= d.bytes.len(),
        d.finish(root, identifier).bytes.len() <= MAX_BUFFER_LEN,
    ensures
        ({
            let buf = d.finish(root, identifier).bytes;
            &&& ends_in(buf, d.bytes)
            &&& buf.len() <= d.bytes.len() + 15
            &&& wire::root_of(buf) == Some(buf.len() - root)
            &&& buf.len() >= 8
            &&& buf.subrange(4, 8) == identifier
        }),
{
    reveal(Draft::finish);
    let a = d.alignment as int;
    padding_is_short((d.bytes.len() + 8) as int, a);
    let pad = zeros(padding((d.bytes.len() + 8) as int, a) as nat);
    let end = 8 + pad.len() + d.bytes.len();
    let head = wire::le_bytes((end - root) as nat, 4);
    let buf = d.finish(root, identifier).bytes;
    wire::le_bytes_hold_their_value((end - root) as nat, 4);
    front_ends_in(head + identifier + pad, d.bytes);
    assert(buf =~= head + (identifier + pad + d.bytes));
    front_stands(head, identifier + pad + d.bytes);
    u32_stands(buf, end, (end - root) as u32);
    assert(buf.subrange(4, 8) =~= identifier);
}

} // verus!
