//! The FlatBuffers builder of the `flatbuffers` crate.
//!
//! [`Builder`] holds a `FlatBufferBuilder`. Its functions are those of that type;
//! what they do is said over the [`Draft`] that the builder holds. Offsets are
//! plain `u32` distances from the buffer's end, as `WIPOffset::value` gives them,
//! and floating-point numbers are written by their bit patterns, which are the
//! bytes that the builder writes for an `f64` of that value.
//!
//! The builder aligns a value as the target does. The layout is that of targets that
//! align each integer to its own size, which [`with_capacity`] asks for
//! ([`naturally_aligned`]): every builder comes from it, so the other functions need
//! not ask again.

use vstd::prelude::*;

use crate::flat::layout;
use crate::flat::layout::Draft;
use crate::flat::wire;
use crate::float::Float64;

verus! {

/// A `flatbuffers::FlatBufferBuilder` with the default allocator.
#[verifier::external_body]
pub struct Builder {
    inner: flatbuffers::FlatBufferBuilder<'static>,
}

/// The bytes that the builder has written, those of `unfinished_data`.
pub uninterp spec fn written(b: Builder) -> Seq<u8>;

/// The builder's `field_locs`: slot and offset of each field of the open table.
pub uninterp spec fn open_fields(b: Builder) -> Seq<(u16, nat)>;

/// The builder's `written_vtable_revpos`: the offsets of the vtables it has
/// written.
pub uninterp spec fn vtable_offsets(b: Builder) -> Set<nat>;

/// The builder's `min_align`: the widest alignment asked for so far.
pub uninterp spec fn widest_alignment(b: Builder) -> nat;

/// The builder's `nested` flag: whether a table is open.
pub uninterp spec fn in_table(b: Builder) -> bool;

/// The builder's `finished` flag.
pub uninterp spec fn is_finished(b: Builder) -> bool;

/// What the builder holds.
pub open spec fn draft(b: Builder) -> Draft {
    Draft {
        bytes: written(b),
        fields: open_fields(b),
        vtables: vtable_offsets(b),
        alignment: widest_alignment(b),
        open: in_table(b),
        finished: is_finished(b),
    }
}

/// The largest capacity that a builder can start with.
pub const MAX_CAPACITY: usize = 0x8000_0000;

/// Whether the target aligns each integer to its own size. A caller learns it from
/// `core::mem::align_of`.
pub open spec fn naturally_aligned() -> bool {
    &&& vstd::layout::align_of::<u16>() == 2
    &&& vstd::layout::align_of::<u32>() == 4
    &&& vstd::layout::align_of::<i32>() == 4
    &&& vstd::layout::align_of::<u64>() == 8
}

/// `FlatBufferBuilder::with_capacity`: an empty builder. It panics above 2 GiB.
#[verifier::external_body]
pub(crate) fn with_capacity(size: usize) -> (b: Builder)
    requires
        naturally_aligned(),
        size <= MAX_CAPACITY,
    ensures
        written(b) == Seq::<u8>::empty(),
        open_fields(b) == Seq::<(u16, nat)>::empty(),
        vtable_offsets(b) == Set::<nat>::empty(),
        widest_alignment(b) == 0,
        !in_table(b),
        !is_finished(b),
{
    Builder { inner: flatbuffers::FlatBufferBuilder::with_capacity(size) }
}

/// `FlatBufferBuilder::create_vector` on bytes: puts the padding, the bytes and
/// their number in front, and gives the new length.
#[verifier::external_body]
pub(crate) fn create_u8_vector(b: &mut Builder, items: &[u8]) -> (r: u32)
    requires
        draft(*old(b)).block(items@.len(), items@, 1).bytes.len() <= layout::MAX_BUFFER_LEN,
    ensures
        draft(*final(b)) == draft(*old(b)).block(items@.len(), items@, 1),
        r == written(*final(b)).len(),
{
    b.inner.create_vector(items).value()
}

/// `FlatBufferBuilder::create_vector` on `u32` numbers: puts the padding, the
/// numbers and their count in front, and gives the new length.
#[verifier::external_body]
pub(crate) fn create_u32_vector(b: &mut Builder, items: &[u32]) -> (r: u32)
    requires
        draft(*old(b)).block(
            items@.len(),
            layout::words(layout::u32_words(items@), 4),
            4,
        ).bytes.len() <= layout::MAX_BUFFER_LEN,
    ensures
        draft(*final(b)) == draft(*old(b)).block(
            items@.len(),
            layout::words(layout::u32_words(items@), 4),
            4,
        ),
        r == written(*final(b)).len(),
{
    b.inner.create_vector(items).value()
}

/// `FlatBufferBuilder::create_vector` on the bit patterns of floating-point
/// numbers: puts the padding, the numbers and their count in front, and gives the
/// new length.
#[verifier::external_body]
pub(crate) fn create_f64_vector(b: &mut Builder, items: &[Float64]) -> (r: u32)
    requires
        draft(*old(b)).block(
            items@.len(),
            layout::words(layout::f64_words(items@), 8),
            8,
        ).bytes.len() <= layout::MAX_BUFFER_LEN,
    ensures
        draft(*final(b)) == draft(*old(b)).block(
            items@.len(),
            layout::words(layout::f64_words(items@), 8),
            8,
        ),
        r == written(*final(b)).len(),
{
    let bits: Vec<u64> = items.iter().map(|x| x.bits).collect();
    b.inner.create_vector(&bits).value()
}

/// `FlatBufferBuilder::create_vector` on offsets of objects written before: puts
/// the padding, the self-relative offsets and their count in front, and gives the
/// new length. The kind of object that an offset leads to is a type parameter
/// without effect on the bytes.
#[verifier::external_body]
pub(crate) fn create_offset_vector(b: &mut Builder, targets: &[u32]) -> (r: u32)
    requires
        forall|i: int| 0 <= i < targets@.len() ==> #[trigger] targets@[i] <= written(*old(b)).len(),
        draft(*old(b)).offset_block(layout::u32_words(targets@)).bytes.len()
            <= layout::MAX_BUFFER_LEN,
    ensures
        draft(*final(b)) == draft(*old(b)).offset_block(layout::u32_words(targets@)),
        r == written(*final(b)).len(),
{
    let offsets: Vec<flatbuffers::WIPOffset<flatbuffers::TableFinishedWIPOffset>> =
        targets.iter().map(|x| flatbuffers::WIPOffset::new(*x)).collect();
    b.inner.create_vector(&offsets).value()
}

/// `FlatBufferBuilder::create_string`: puts the padding, a zero byte, the text's
/// UTF-8 bytes and their number in front, and gives the new length. It asserts
/// that no table is open.
#[verifier::external_body]
pub(crate) fn create_string(b: &mut Builder, text: &str) -> (r: u32)
    requires
        !in_table(*old(b)),
        draft(*old(b)).block(
            vstd::utf8::encode_utf8(text@).len(),
            vstd::utf8::encode_utf8(text@).push(0),
            4,
        ).bytes.len() <= layout::MAX_BUFFER_LEN,
    ensures
        draft(*final(b)) == draft(*old(b)).block(
            vstd::utf8::encode_utf8(text@).len(),
            vstd::utf8::encode_utf8(text@).push(0),
            4,
        ),
        r == written(*final(b)).len(),
{
    b.inner.create_string(text).value()
}

/// `FlatBufferBuilder::start_table`: opens a table and gives the length so far. It
/// asserts that no table is open.
#[verifier::external_body]
pub(crate) fn start_table(b: &mut Builder) -> (r: u32)
    requires
        !in_table(*old(b)),
        written(*old(b)).len() <= layout::MAX_BUFFER_LEN,
    ensures
        draft(*final(b)) == draft(*old(b)).opened(),
        r == written(*old(b)).len(),
{
    b.inner.start_table().value()
}

/// `FlatBufferBuilder::push_slot_always` on a byte: puts it in front and notes
/// it under `slot`. It asserts that a table is open.
#[verifier::external_body]
pub(crate) fn push_slot_u8(b: &mut Builder, slot: u16, x: u8)
    requires
        in_table(*old(b)),
        draft(*old(b)).scalar_field(slot, seq![x]).bytes.len() <= layout::MAX_BUFFER_LEN,
    ensures
        draft(*final(b)) == draft(*old(b)).scalar_field(slot, seq![x]),
{
    b.inner.push_slot_always::<u8>(slot, x);
}

/// `FlatBufferBuilder::push_slot_always` on a flag: puts a byte of 0 or 1 in front
/// and notes it under `slot`. It asserts that a table is open.
#[verifier::external_body]
pub(crate) fn push_slot_bool(b: &mut Builder, slot: u16, x: bool)
    requires
        in_table(*old(b)),
        draft(*old(b)).scalar_field(slot, flag_byte(x)).bytes.len() <= layout::MAX_BUFFER_LEN,
    ensures
        draft(*final(b)) == draft(*old(b)).scalar_field(slot, flag_byte(x)),
{
    b.inner.push_slot_always::<bool>(slot, x);
}

/// The byte that stands for a flag.
pub open spec fn flag_byte(x: bool) -> Seq<u8> {
    if x {
        seq![1u8]
    } else {
        seq![0u8]
    }
}

/// `FlatBufferBuilder::push_slot_always` on a `u32`: puts its bytes in front and
/// notes them under `slot`. It asserts that a table is open.
#[verifier::external_body]
pub(crate) fn push_slot_u32(b: &mut Builder, slot: u16, x: u32)
    requires
        in_table(*old(b)),
        draft(*old(b)).scalar_field(slot, wire::le_bytes(x as nat, 4)).bytes.len()
            <= layout::MAX_BUFFER_LEN,
    ensures
        draft(*final(b)) == draft(*old(b)).scalar_field(slot, wire::le_bytes(x as nat, 4)),
{
    b.inner.push_slot_always::<u32>(slot, x);
}

/// `FlatBufferBuilder::push_slot_always` on an `i32`: puts its two's complement
/// bytes in front and notes them under `slot`. It asserts that a table is open.
#[verifier::external_body]
pub(crate) fn push_slot_i32(b: &mut Builder, slot: u16, x: i32)
    requires
        in_table(*old(b)),
        draft(*old(b)).scalar_field(
            slot,
            wire::le_bytes(wire::unsigned(x) as nat, 4),
        ).bytes.len() <= layout::MAX_BUFFER_LEN,
    ensures
        draft(*final(b)) == draft(*old(b)).scalar_field(
            slot,
            wire::le_bytes(wire::unsigned(x) as nat, 4),
        ),
{
    b.inner.push_slot_always::<i32>(slot, x);
}

/// `FlatBufferBuilder::push_slot_always` on a `u64`: puts its bytes in front and
/// notes them under `slot`. It asserts that a table is open.
#[verifier::external_body]
pub(crate) fn push_slot_u64(b: &mut Builder, slot: u16, x: u64)
    requires
        in_table(*old(b)),
        draft(*old(b)).scalar_field(slot, wire::le_bytes(x as nat, 8)).bytes.len()
            <= layout::MAX_BUFFER_LEN,
    ensures
        draft(*final(b)) == draft(*old(b)).scalar_field(slot, wire::le_bytes(x as nat, 8)),
{
    b.inner.push_slot_always::<u64>(slot, x);
}

/// `FlatBufferBuilder::push_slot_always` on the offset of an object written
/// before: puts the self-relative offset in front and notes it under `slot`. It
/// asserts that a table is open.
#[verifier::external_body]
pub(crate) fn push_slot_offset(b: &mut Builder, slot: u16, target: u32)
    requires
        in_table(*old(b)),
        target <= written(*old(b)).len(),
        draft(*old(b)).offset_field(slot, target as nat).bytes.len() <= layout::MAX_BUFFER_LEN,
    ensures
        draft(*final(b)) == draft(*old(b)).offset_field(slot, target as nat),
{
    let offset: flatbuffers::WIPOffset<flatbuffers::TableFinishedWIPOffset> =
        flatbuffers::WIPOffset::new(target);
    b.inner.push_slot_always(slot, offset);
}

/// `FlatBufferBuilder::end_table`: closes the table that was opened at length
/// `start` and gives its offset. The builder keeps its vtables sorted and without
/// repetition, so at most one of them equals the new one; it is then used in its
/// place. It asserts that a table is open and that it is shorter than 64 KiB.
#[verifier::external_body]
pub(crate) fn end_table(b: &mut Builder, start: u32) -> (r: u32)
    requires
        in_table(*old(b)),
        start <= written(*old(b)).len(),
        forall|i: int|
            0 <= i < open_fields(*old(b)).len() ==> {
                let (slot, end) = #[trigger] open_fields(*old(b))[i];
                slot % 2 == 0 && 4 <= slot < 1000 && start < end <= written(*old(b)).len()
            },
        forall|i: int, j: int|
            0 <= i < j < open_fields(*old(b)).len() ==> (#[trigger] open_fields(*old(b))[i]).0 != (
            #[trigger] open_fields(*old(b))[j]).0,
        draft(*old(b)).table_end() - start < 0x1_0000,
        draft(*old(b)).close_table(start as nat).bytes.len() <= layout::MAX_BUFFER_LEN,
    ensures
        draft(*final(b)) == draft(*old(b)).close_table(start as nat),
        r == draft(*old(b)).table_end(),
{
    b.inner.end_table(flatbuffers::WIPOffset::new(start)).value()
}

/// `FlatBufferBuilder::finish`: puts the padding, the file identifier and the way
/// to the root table in front. It asserts that no table is open, that the buffer
/// is not finished and that the identifier has four bytes.
#[verifier::external_body]
pub(crate) fn finish(b: &mut Builder, root: u32, identifier: &str)
    requires
        !in_table(*old(b)),
        !is_finished(*old(b)),
        vstd::utf8::encode_utf8(identifier@).len() == 4,
        widest_alignment(*old(b)) == 4 || widest_alignment(*old(b)) == 8,
        root <= written(*old(b)).len(),
        draft(*old(b)).finish(
            root as nat,
            vstd::utf8::encode_utf8(identifier@),
        ).bytes.len() <= layout::MAX_BUFFER_LEN,
    ensures
        written(*final(b)) == draft(*old(b)).finish(
            root as nat,
            vstd::utf8::encode_utf8(identifier@),
        ).bytes,
        is_finished(*final(b)),
{
    let offset: flatbuffers::WIPOffset<flatbuffers::TableFinishedWIPOffset> =
        flatbuffers::WIPOffset::new(root);
    b.inner.finish(offset, Some(identifier));
}

/// `FlatBufferBuilder::finished_data`: the bytes of the finished buffer. It asserts
/// that the buffer is finished.
#[verifier::external_body]
pub(crate) fn finished_data(b: &Builder) -> (r: Vec<u8>)
    requires
        is_finished(*b),
    ensures
        r@ == written(*b),
{
    b.inner.finished_data().to_vec()
}

} // verus!
