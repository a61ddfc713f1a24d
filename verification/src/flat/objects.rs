//! Objects and lists of objects in a buffer: what they are, how they are written
//! and that they are found again.

use vstd::prelude::*;

use crate::flat::builder;
use crate::flat::builder::Builder;
use crate::flat::layout;
use crate::flat::layout::{Draft, Entry};
use crate::flat::wire;
use crate::float::Float64;

verus! {

/// No table is open, and the buffer can grow.
pub open spec fn ready(d: Draft) -> bool {
    &&& d.fields.len() == 0
    &&& !d.open
    &&& !d.finished
    &&& d.alignment == 0 || layout::scalar_size(d.alignment)
}

/// A value that can be written into a buffer and found there again.
pub trait Encoded: Sized {
    /// The draft with the value put in front.
    spec fn put(self, d: Draft) -> Draft;

    /// The value's distance from the end of that draft.
    spec fn put_at(self, d: Draft) -> nat;

    /// The most bytes that putting the value takes.
    spec fn cost(self) -> nat;

    /// A reader finds the value at `pos`.
    spec fn found(self, buf: Seq<u8>, pos: int) -> bool;

    /// Putting a value only puts something in front.
    proof fn put_extends(self, d: Draft)
        requires
            ready(d),
        ensures
            ready(self.put(d)),
            layout::ends_in(self.put(d).bytes, d.bytes),
            d.bytes.len() < self.put_at(d) <= self.put(d).bytes.len(),
            self.put(d).bytes.len() <= d.bytes.len() + self.cost(),
    ;

    /// A reader of any buffer that ends in the draft finds the value.
    proof fn put_is_found(self, d: Draft, buf: Seq<u8>)
        requires
            ready(d),
            layout::ends_in(buf, self.put(d).bytes),
            buf.len() <= layout::MAX_BUFFER_LEN,
        ensures
            self.found(buf, buf.len() - self.put_at(d)),
    ;
}

// ── Lists ────────────────────────────────────────────────────────────────────

/// Puts values in front, one after the other.
pub open spec fn put_all<T: Encoded>(items: Seq<T>, d: Draft) -> Draft
    decreases items.len(),
{
    if items.len() == 0 {
        d
    } else {
        items.last().put(put_all(items.drop_last(), d))
    }
}

/// The distances of those values from the end.
pub open spec fn offsets_of<T: Encoded>(items: Seq<T>, d: Draft) -> Seq<nat>
    decreases items.len(),
{
    if items.len() == 0 {
        Seq::empty()
    } else {
        offsets_of(items.drop_last(), d).push(items.last().put_at(put_all(items.drop_last(), d)))
    }
}

/// The most bytes that those values take.
pub open spec fn cost_of<T: Encoded>(items: Seq<T>) -> nat
    decreases items.len(),
{
    if items.len() == 0 {
        0
    } else {
        cost_of(items.drop_last()) + items.last().cost()
    }
}

/// Putting values only puts something in front.
pub proof fn put_all_extends<T: Encoded>(items: Seq<T>, d: Draft)
    requires
        ready(d),
    ensures
        ready(put_all(items, d)),
        layout::ends_in(put_all(items, d).bytes, d.bytes),
        put_all(items, d).bytes.len() <= d.bytes.len() + cost_of(items),
        offsets_of(items, d).len() == items.len(),
        forall|i: int|
            0 <= i < items.len() ==> 0 < #[trigger] offsets_of(items, d)[i] <= put_all(
                items,
                d,
            ).bytes.len(),
    decreases items.len(),
{
    if items.len() == 0 {
        assert(d.bytes.subrange(0, d.bytes.len() as int) =~= d.bytes);
    } else {
        let before = items.drop_last();
        put_all_extends(before, d);
        items.last().put_extends(put_all(before, d));
        layout::ends_in_chain(put_all(items, d).bytes, put_all(before, d).bytes, d.bytes);
        assert forall|i: int| 0 <= i < items.len() implies 0 < #[trigger] offsets_of(items, d)[i]
            <= put_all(items, d).bytes.len() by {
            if i < before.len() {
                assert(offsets_of(items, d)[i] == offsets_of(before, d)[i]);
            }
        }
    }
}

/// A reader of any buffer that ends in the draft finds each value.
pub proof fn put_all_is_found<T: Encoded>(items: Seq<T>, d: Draft, buf: Seq<u8>)
    requires
        ready(d),
        layout::ends_in(buf, put_all(items, d).bytes),
        buf.len() <= layout::MAX_BUFFER_LEN,
    ensures
        offsets_of(items, d).len() == items.len(),
        forall|i: int|
            0 <= i < items.len() ==> items[i].found(
                buf,
                buf.len() - #[trigger] offsets_of(items, d)[i],
            ),
    decreases items.len(),
{
    put_all_extends(items, d);
    if items.len() > 0 {
        let before = items.drop_last();
        put_all_extends(before, d);
        items.last().put_extends(put_all(before, d));
        layout::ends_in_chain(buf, put_all(items, d).bytes, put_all(before, d).bytes);
        put_all_is_found(before, d, buf);
        items.last().put_is_found(put_all(before, d), buf);
        assert forall|i: int| 0 <= i < items.len() implies items[i].found(
            buf,
            buf.len() - #[trigger] offsets_of(items, d)[i],
        ) by {
            if i < before.len() {
                assert(offsets_of(items, d)[i] == offsets_of(before, d)[i]);
                assert(before[i] == items[i]);
            }
        }
    }
}

/// Fewer values take no more bytes.
pub proof fn put_all_grows<T: Encoded>(items: Seq<T>, n: int, d: Draft)
    requires
        ready(d),
        0 <= n <= items.len(),
    ensures
        put_all(items.take(n), d).bytes.len() <= put_all(items, d).bytes.len(),
    decreases items.len() - n,
{
    if n == items.len() {
        assert(items.take(n) =~= items);
    } else {
        let before = items.take(n);
        assert(items.take(n + 1).drop_last() =~= before);
        put_all_extends(before, d);
        items[n].put_extends(put_all(before, d));
        put_all_grows(items, n + 1, d);
    }
}

// ── Writing ──────────────────────────────────────────────────────────────────

/// Something that can be written with a builder.
pub trait Buildable {
    /// The value that is written.
    type Value: Encoded;

    /// The value that is written.
    spec fn value(&self) -> Self::Value;

    /// Writes the value and gives its distance from the end.
    fn build(&self, b: &mut Builder) -> (r: u32)
        requires
            ready(builder::draft(*old(b))),
            self.value().put(builder::draft(*old(b))).bytes.len() <= layout::MAX_BUFFER_LEN,
        ensures
            builder::draft(*final(b)) == self.value().put(builder::draft(*old(b))),
            r == self.value().put_at(builder::draft(*old(b))),
    ;
}

/// The values that are written.
pub open spec fn values_of<T: Buildable>(items: Seq<T>) -> Seq<T::Value> {
    Seq::new(items.len(), |i: int| items[i].value())
}

/// Writes values one after the other, and gives their distances from the end.
pub(crate) fn build_all<T: Buildable>(b: &mut Builder, items: &[T]) -> (r: Vec<u32>)
    requires
        ready(builder::draft(*old(b))),
        put_all(values_of(items@), builder::draft(*old(b))).bytes.len() <= layout::MAX_BUFFER_LEN,
    ensures
        builder::draft(*final(b)) == put_all(values_of(items@), builder::draft(*old(b))),
        layout::u32_words(r@) == offsets_of(values_of(items@), builder::draft(*old(b))),
{
    let ghost d = builder::draft(*b);
    let ghost all = values_of(items@);
    let mut out: Vec<u32> = Vec::new();
    proof {
        assert(layout::u32_words(out@) =~= offsets_of(all.take(0), d));
    }
    for i in 0..items.len()
        invariant
            ready(d),
            all == values_of(items@),
            put_all(all, d).bytes.len() <= layout::MAX_BUFFER_LEN,
            builder::draft(*b) == put_all(all.take(i as int), d),
            layout::u32_words(out@) == offsets_of(all.take(i as int), d),
    {
        let ghost before = all.take(i as int);
        let ghost after = all.take(i + 1);
        let ghost written = out@;
        proof {
            assert(after.drop_last() =~= before);
            assert(after.last() == items@[i as int].value());
            put_all_extends(before, d);
            put_all_grows(all, i + 1, d);
        }
        let end: u32 = items[i].build(b);
        out.push(end);
        proof {
            assert(layout::u32_words(out@) =~= layout::u32_words(written).push(end as nat));
        }
    }
    proof {
        assert(all.take(items@.len() as int) =~= all);
    }
    out
}

/// Writes a list of objects: the objects and then the vector that leads to them.
/// Gives the vector's distance from the end.
pub open spec fn put_list<T: Encoded>(items: Seq<T>, d: Draft) -> Draft {
    put_all(items, d).offset_block(offsets_of(items, d))
}

// ── Tables ───────────────────────────────────────────────────────────────────

/// The field that holds a `u32`.
pub open spec fn u32_entry(slot: u16, x: u32) -> Entry {
    Entry::Scalar(slot, wire::le_bytes(x as nat, 4))
}

/// The field that holds an `i32`.
pub open spec fn i32_entry(slot: u16, x: i32) -> Entry {
    Entry::Scalar(slot, wire::le_bytes(wire::unsigned(x) as nat, 4))
}

/// The field that holds a `u64`.
pub open spec fn u64_entry(slot: u16, x: u64) -> Entry {
    Entry::Scalar(slot, wire::le_bytes(x as nat, 8))
}

/// The field that holds a floating-point number.
pub open spec fn f64_entry(slot: u16, x: Float64) -> Entry {
    u64_entry(slot, x.bits)
}

/// A field of a table: its slot and its value.
#[derive(Clone, Copy, Debug)]
pub enum Field {
    /// A byte.
    U8(u16, u8),
    /// A flag.
    Bool(u16, bool),
    /// An unsigned 32-bit number.
    U32(u16, u32),
    /// A signed 32-bit number.
    I32(u16, i32),
    /// An unsigned 64-bit number.
    U64(u16, u64),
    /// A floating-point number.
    F64(u16, Float64),
    /// The way to an object written before, by its distance from the end.
    Offset(u16, u32),
}

impl Field {
    /// What the field is in a table.
    pub open spec fn entry(self) -> Entry {
        match self {
            Field::U8(slot, x) => Entry::Scalar(slot, seq![x]),
            Field::Bool(slot, x) => Entry::Scalar(slot, builder::flag_byte(x)),
            Field::U32(slot, x) => u32_entry(slot, x),
            Field::I32(slot, x) => i32_entry(slot, x),
            Field::U64(slot, x) => u64_entry(slot, x),
            Field::F64(slot, x) => f64_entry(slot, x),
            Field::Offset(slot, target) => Entry::Offset(slot, target as nat),
        }
    }

    /// Where the field leads is among the first `n` bytes.
    pub open spec fn leads_into(self, n: nat) -> bool {
        self matches Field::Offset(_, target) ==> target <= n
    }
}

/// What fields are in a table.
pub open spec fn entries_of(fields: Seq<Field>) -> Seq<Entry> {
    fields.map_values(|f: Field| f.entry())
}

/// Writes one field of the open table.
fn write_field(b: &mut Builder, field: &Field)
    requires
        builder::in_table(*old(b)),
        field.leads_into(builder::written(*old(b)).len()),
        builder::draft(*old(b)).add(field.entry()).bytes.len() <= layout::MAX_BUFFER_LEN,
    ensures
        builder::draft(*final(b)) == builder::draft(*old(b)).add(field.entry()),
{
    match *field {
        Field::U8(slot, x) => builder::push_slot_u8(b, slot, x),
        Field::Bool(slot, x) => builder::push_slot_bool(b, slot, x),
        Field::U32(slot, x) => builder::push_slot_u32(b, slot, x),
        Field::I32(slot, x) => builder::push_slot_i32(b, slot, x),
        Field::U64(slot, x) => builder::push_slot_u64(b, slot, x),
        Field::F64(slot, x) => builder::push_slot_u64(b, slot, x.bits),
        Field::Offset(slot, target) => builder::push_slot_offset(b, slot, target),
    }
}

/// Fewer fields take no more bytes, and they leave the table open.
proof fn add_all_stays(d: Draft, entries: Seq<Entry>, n: int)
    requires
        layout::sized_entries(entries),
        0 <= n <= entries.len(),
    ensures
        d.bytes.len() <= d.add_all(entries.take(n)).bytes.len() <= d.add_all(entries).bytes.len(),
        d.add_all(entries.take(n)).open == d.open,
    decreases entries.len() - n,
{
    let before = entries.take(n);
    assert(layout::sized_entries(before)) by {
        assert forall|i: int| 0 <= i < before.len() implies layout::scalar_size(
            (#[trigger] before[i]).size(),
        ) by {
            assert(before[i] == entries[i]);
        }
    }
    layout::add_all_grows(d, before);
    if n == entries.len() {
        assert(before =~= entries);
    } else {
        assert(entries.take(n + 1).drop_last() =~= before);
        layout::add_extends(d.add_all(before), entries[n]);
        add_all_stays(d, entries, n + 1);
    }
}

/// Writes a table and gives its distance from the end.
pub(crate) fn build_table(b: &mut Builder, fields: &Vec<Field>) -> (r: u32)
    requires
        ready(builder::draft(*old(b))),
        layout::proper_entries(entries_of(fields@)),
        fields@.len() <= 100,
        forall|i: int|
            0 <= i < fields@.len() ==> (#[trigger] fields@[i]).leads_into(
                builder::written(*old(b)).len(),
            ),
        builder::draft(*old(b)).table(entries_of(fields@)).bytes.len() <= layout::MAX_BUFFER_LEN,
    ensures
        builder::draft(*final(b)) == builder::draft(*old(b)).table(entries_of(fields@)),
        r == builder::draft(*old(b)).table_at(entries_of(fields@)),
{
    let ghost d = builder::draft(*b);
    let ghost o = d.opened();
    let ghost all = entries_of(fields@);
    proof {
        layout::table_extends(d, all);
        layout::add_all_extends(o, all);
        layout::table_holds_its_fields(d, all);
    }
    let start: u32 = builder::start_table(b);
    assert(all.take(0) =~= Seq::<Entry>::empty());
    for i in 0..fields.len()
        invariant
            o == d.opened(),
            all == entries_of(fields@),
            layout::proper_entries(all),
            forall|j: int| 0 <= j < fields@.len() ==> (#[trigger] fields@[j]).leads_into(d.bytes.len()),
            o.add_all(all).bytes.len() <= layout::MAX_BUFFER_LEN,
            builder::draft(*b) == o.add_all(all.take(i as int)),
    {
        proof {
            add_all_stays(o, all, i as int);
            add_all_stays(o, all, i + 1);
            assert(all.take(i + 1).drop_last() =~= all.take(i as int));
            assert(fields@[i as int].leads_into(d.bytes.len()));
        }
        write_field(b, &fields[i]);
    }
    proof {
        assert(all.take(all.len() as int) =~= all);
        let open = builder::open_fields(*b);
        assert(open == o.add_all(all).fields);
        assert forall|i: int| 0 <= i < open.len() implies {
            let (slot, end) = #[trigger] open[i];
            slot % 2 == 0 && 4 <= slot < 1000 && start < end <= builder::written(*b).len()
        } by {
            assert(all[i].slot() == open[i].0);
        }
        assert forall|i: int, j: int| 0 <= i < j < open.len() implies (#[trigger] open[i]).0 != (
        #[trigger] open[j]).0 by {
            assert(all[i].slot() != all[j].slot());
        }
        reveal(Draft::table_end);
        layout::push_extends(o.add_all(all), layout::zeros(4), 4);
    }
    builder::end_table(b, start)
}

// ── Tables read back ─────────────────────────────────────────────────────────

/// The buffer ends in the table with the fields `entries` that was put before the
/// draft `d`.
pub open spec fn tabled(d: Draft, entries: Seq<Entry>, buf: Seq<u8>) -> bool {
    &&& layout::proper_entries(entries)
    &&& entries.len() <= 100
    &&& d.fields.len() == 0
    &&& layout::ends_in(buf, d.table(entries).bytes)
    &&& buf.len() <= layout::MAX_BUFFER_LEN
}

/// Where a reader finds that table.
pub open spec fn table_pos(d: Draft, entries: Seq<Entry>, buf: Seq<u8>) -> int {
    buf.len() - d.table_at(entries)
}

/// Where a reader finds its vtable.
pub open spec fn vtable_pos(d: Draft, entries: Seq<Entry>, buf: Seq<u8>) -> int {
    buf.len() - d.vtable_at(entries)
}

/// The table has a vtable.
pub proof fn finds_vtable(d: Draft, entries: Seq<Entry>, buf: Seq<u8>)
    requires
        tabled(d, entries, buf),
    ensures
        wire::vtable_of(buf, table_pos(d, entries, buf)) == Some(vtable_pos(d, entries, buf)),
{
    layout::table_is_found(d, entries, buf);
}

/// A byte field is found.
pub proof fn finds_u8(
    d: Draft,
    entries: Seq<Entry>,
    buf: Seq<u8>,
    i: int,
    slot: u16,
    x: u8,
    default: u8,
)
    requires
        tabled(d, entries, buf),
        0 <= i < entries.len(),
        entries[i] == Entry::Scalar(slot, seq![x]),
    ensures
        wire::u8_field(
            buf,
            table_pos(d, entries, buf),
            vtable_pos(d, entries, buf),
            slot,
            default,
        ) == Some(x),
{
    layout::table_is_found(d, entries, buf);
    assert(entries[i].slot() == slot);
    layout::u8_stands(buf, d.field_end(entries, i), x);
}

/// A flag field is found.
pub proof fn finds_bool(d: Draft, entries: Seq<Entry>, buf: Seq<u8>, i: int, slot: u16, x: bool)
    requires
        tabled(d, entries, buf),
        0 <= i < entries.len(),
        entries[i] == Entry::Scalar(slot, builder::flag_byte(x)),
    ensures
        wire::bool_field(buf, table_pos(d, entries, buf), vtable_pos(d, entries, buf), slot) == Some(
            x,
        ),
{
    layout::table_is_found(d, entries, buf);
    assert(entries[i].slot() == slot);
    let byte: u8 = if x {
        1
    } else {
        0
    };
    layout::u8_stands(buf, d.field_end(entries, i), byte);
}

/// A `u32` field is found.
pub proof fn finds_u32(d: Draft, entries: Seq<Entry>, buf: Seq<u8>, i: int, slot: u16, x: u32)
    requires
        tabled(d, entries, buf),
        0 <= i < entries.len(),
        entries[i] == u32_entry(slot, x),
    ensures
        wire::u32_field(buf, table_pos(d, entries, buf), vtable_pos(d, entries, buf), slot) == Some(
            x,
        ),
{
    layout::table_is_found(d, entries, buf);
    assert(entries[i].slot() == slot);
    layout::u32_stands(buf, d.field_end(entries, i), x);
}

/// An `i32` field is found.
pub proof fn finds_i32(
    d: Draft,
    entries: Seq<Entry>,
    buf: Seq<u8>,
    i: int,
    slot: u16,
    x: i32,
    default: i32,
)
    requires
        tabled(d, entries, buf),
        0 <= i < entries.len(),
        entries[i] == i32_entry(slot, x),
    ensures
        wire::i32_field(
            buf,
            table_pos(d, entries, buf),
            vtable_pos(d, entries, buf),
            slot,
            default,
        ) == Some(x),
{
    layout::table_is_found(d, entries, buf);
    assert(entries[i].slot() == slot);
    layout::i32_stands(buf, d.field_end(entries, i), x);
}

/// A `u64` field is found.
pub proof fn finds_u64(d: Draft, entries: Seq<Entry>, buf: Seq<u8>, i: int, slot: u16, x: u64)
    requires
        tabled(d, entries, buf),
        0 <= i < entries.len(),
        entries[i] == u64_entry(slot, x),
    ensures
        wire::u64_field(buf, table_pos(d, entries, buf), vtable_pos(d, entries, buf), slot) == Some(
            x,
        ),
{
    layout::table_is_found(d, entries, buf);
    assert(entries[i].slot() == slot);
    layout::u64_stands(buf, d.field_end(entries, i), x);
}

/// A floating-point field is found.
pub proof fn finds_f64(d: Draft, entries: Seq<Entry>, buf: Seq<u8>, i: int, slot: u16, x: Float64)
    requires
        tabled(d, entries, buf),
        0 <= i < entries.len(),
        entries[i] == f64_entry(slot, x),
    ensures
        wire::f64_field(buf, table_pos(d, entries, buf), vtable_pos(d, entries, buf), slot)
            == Some(Some(x)),
{
    layout::table_is_found(d, entries, buf);
    assert(entries[i].slot() == slot);
    layout::u64_stands(buf, d.field_end(entries, i), x.bits);
}

/// A field that leads to an object is found and leads to it.
pub proof fn finds_offset(
    d: Draft,
    entries: Seq<Entry>,
    buf: Seq<u8>,
    i: int,
    slot: u16,
    target: nat,
)
    requires
        tabled(d, entries, buf),
        0 <= i < entries.len(),
        entries[i] == Entry::Offset(slot, target),
        target <= d.bytes.len(),
    ensures
        ({
            let pos = wire::field_at(
                buf,
                table_pos(d, entries, buf),
                vtable_pos(d, entries, buf),
                slot,
            );
            pos is Some && wire::target_of(buf, pos->0) == Some(buf.len() - target)
        }),
{
    layout::table_is_found(d, entries, buf);
    assert(entries[i].slot() == slot);
    layout::offset_stands(buf, d.field_end(entries, i), target);
}

/// A field that was not written is not found.
pub proof fn finds_nothing(d: Draft, entries: Seq<Entry>, buf: Seq<u8>, slot: u16)
    requires
        tabled(d, entries, buf),
        slot % 2 == 0,
        slot >= 4,
        forall|i: int| 0 <= i < entries.len() ==> (#[trigger] entries[i]).slot() != slot,
    ensures
        wire::field_at(buf, table_pos(d, entries, buf), vtable_pos(d, entries, buf), slot) is None,
{
    layout::table_is_found(d, entries, buf);
}

} // verus!
