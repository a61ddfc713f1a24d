//! Reading the FlatBuffers wire format out of raw bytes.
//!
//! A buffer starts with a `u32` offset of its root table, followed by a four-byte
//! file identifier. All integers are little-endian. A table starts with a signed
//! offset to its vtable, which lies that many bytes before it. The vtable holds
//! its own size, the table's size and then, per field slot, the distance of the
//! field's data from the table's start, where 0 stands for an absent field. A
//! nested vector, string or table is reached through a `u32` that is added to its
//! own position. A vector is a `u32` length and then its elements.

use vstd::prelude::*;

use crate::float::Float64;

verus! {

// ── Little-endian integers ───────────────────────────────────────────────────

/// The number that `s` holds, least significant byte first.
pub open spec fn le_value(s: Seq<u8>) -> nat
    decreases s.len(),
{
    if s.len() == 0 {
        0
    } else {
        s[0] as nat + 256 * le_value(s.skip(1))
    }
}

/// The lowest `n` bytes of `x`, least significant byte first.
pub open spec fn le_bytes(x: nat, n: nat) -> Seq<u8>
    decreases n,
{
    if n == 0 {
        Seq::empty()
    } else {
        seq![(x % 256) as u8] + le_bytes(x / 256, (n - 1) as nat)
    }
}

/// 256 to the power of `n`: how many values `n` bytes can hold.
pub open spec fn byte_range(n: nat) -> nat
    decreases n,
{
    if n == 0 {
        1
    } else {
        256 * byte_range((n - 1) as nat)
    }
}

/// The two's complement reading of a 32-bit word.
pub open spec fn signed(word: u32) -> i32 {
    if word < 0x8000_0000 {
        word as i32
    } else {
        (word - 0x1_0000_0000) as i32
    }
}

/// The 32-bit word whose two's complement reading is `x`.
pub open spec fn unsigned(x: i32) -> u32 {
    if x >= 0 {
        x as u32
    } else {
        (x + 0x1_0000_0000) as u32
    }
}

/// `le_bytes` gives `n` bytes, and they hold the number again if it fits.
pub proof fn le_bytes_hold_their_value(x: nat, n: nat)
    ensures
        le_bytes(x, n).len() == n,
        x < byte_range(n) ==> le_value(le_bytes(x, n)) == x,
    decreases n,
{
    if n > 0 {
        le_bytes_hold_their_value(x / 256, (n - 1) as nat);
        assert(le_bytes(x, n).skip(1) =~= le_bytes(x / 256, (n - 1) as nat));
    }
}

/// `le_bytes` gives as many bytes as it is asked for.
pub proof fn le_bytes_lengths()
    ensures
        forall|x: nat, n: nat| (#[trigger] le_bytes(x, n)).len() == n,
{
    assert forall|x: nat, n: nat| (#[trigger] le_bytes(x, n)).len() == n by {
        le_bytes_hold_their_value(x, n);
    }
}

/// The sizes of one to eight bytes.
pub proof fn byte_ranges()
    ensures
        byte_range(1) == 0x100,
        byte_range(2) == 0x1_0000,
        byte_range(4) == 0x1_0000_0000,
        byte_range(8) == 0x1_0000_0000_0000_0000,
{
    reveal_with_fuel(byte_range, 9);
}

/// `signed` and `unsigned` undo each other.
pub proof fn signed_words_round_trip(x: i32, word: u32)
    ensures
        signed(unsigned(x)) == x,
        unsigned(signed(word)) == word,
{
}

proof fn le_value_of_two(s: Seq<u8>)
    requires
        s.len() == 2,
    ensures
        le_value(s) == s[0] + 0x100 * s[1],
{
    reveal_with_fuel(le_value, 3);
}

proof fn le_value_of_four(s: Seq<u8>)
    requires
        s.len() == 4,
    ensures
        le_value(s) == s[0] + 0x100 * s[1] + 0x1_0000 * s[2] + 0x100_0000 * s[3],
{
    le_value_of_two(s.skip(1).skip(1));
    reveal_with_fuel(le_value, 3);
}

proof fn le_value_of_eight(s: Seq<u8>)
    requires
        s.len() == 8,
    ensures
        le_value(s) == le_value(s.take(4)) + 0x1_0000_0000 * le_value(s.skip(4)),
{
    le_value_of_four(s.take(4));
    let tail = s.skip(4);
    assert(s.skip(1).skip(1).skip(1).skip(1) =~= tail);
    assert(le_value(s) == s[0] + 256 * le_value(s.skip(1)));
    assert(le_value(s.skip(1)) == s[1] + 256 * le_value(s.skip(1).skip(1)));
    assert(le_value(s.skip(1).skip(1)) == s[2] + 256 * le_value(s.skip(1).skip(1).skip(1)));
    assert(le_value(s.skip(1).skip(1).skip(1)) == s[3] + 256 * le_value(tail));
}

// ── Values at a position ─────────────────────────────────────────────────────

/// The byte at `pos`, if the buffer reaches that far.
pub open spec fn u8_at(buf: Seq<u8>, pos: int) -> Option<u8> {
    if 0 <= pos && pos < buf.len() {
        Some(buf[pos])
    } else {
        None
    }
}

/// The flag at `pos`: any byte but 0 is true.
pub open spec fn bool_at(buf: Seq<u8>, pos: int) -> Option<bool> {
    match u8_at(buf, pos) {
        Some(b) => Some(b != 0),
        None => None,
    }
}

/// The `u16` at `pos`, if the buffer holds both its bytes.
pub open spec fn u16_at(buf: Seq<u8>, pos: int) -> Option<u16> {
    if 0 <= pos && pos + 2 <= buf.len() {
        Some(le_value(buf.subrange(pos, pos + 2)) as u16)
    } else {
        None
    }
}

/// The `u32` at `pos`, if the buffer holds all its bytes.
pub open spec fn u32_at(buf: Seq<u8>, pos: int) -> Option<u32> {
    if 0 <= pos && pos + 4 <= buf.len() {
        Some(le_value(buf.subrange(pos, pos + 4)) as u32)
    } else {
        None
    }
}

/// The `i32` at `pos`, if the buffer holds all its bytes.
pub open spec fn i32_at(buf: Seq<u8>, pos: int) -> Option<i32> {
    match u32_at(buf, pos) {
        Some(word) => Some(signed(word)),
        None => None,
    }
}

/// The `u64` at `pos`, if the buffer holds all its bytes.
pub open spec fn u64_at(buf: Seq<u8>, pos: int) -> Option<u64> {
    if 0 <= pos && pos + 8 <= buf.len() {
        Some(le_value(buf.subrange(pos, pos + 8)) as u64)
    } else {
        None
    }
}

/// The floating-point number at `pos`, if the buffer holds all its bytes.
pub open spec fn f64_at(buf: Seq<u8>, pos: int) -> Option<Float64> {
    match u64_at(buf, pos) {
        Some(bits) => Some(Float64 { bits }),
        None => None,
    }
}

/// Reads the byte at `offset`.
pub fn read_u8(buf: &[u8], offset: usize) -> (r: Option<u8>)
    ensures
        r == u8_at(buf@, offset as int),
{
    if offset < buf.len() {
        Some(buf[offset])
    } else {
        None
    }
}

/// Reads the flag at `offset`.
pub fn read_bool_byte(buf: &[u8], offset: usize) -> (r: Option<bool>)
    ensures
        r == bool_at(buf@, offset as int),
{
    match read_u8(buf, offset) {
        Some(b) => Some(b != 0),
        None => None,
    }
}

/// Reads the little-endian `u16` at `offset`.
pub fn read_u16_le(buf: &[u8], offset: usize) -> (r: Option<u16>)
    ensures
        r == u16_at(buf@, offset as int),
{
    if buf.len() < 2 || offset > buf.len() - 2 {
        return None;
    }
    proof {
        le_value_of_two(buf@.subrange(offset as int, offset + 2));
    }
    Some(buf[offset] as u16 + 0x100 * (buf[offset + 1] as u16))
}

/// Reads the little-endian `u32` at `offset`.
pub fn read_u32_le(buf: &[u8], offset: usize) -> (r: Option<u32>)
    ensures
        r == u32_at(buf@, offset as int),
{
    if buf.len() < 4 || offset > buf.len() - 4 {
        return None;
    }
    proof {
        le_value_of_four(buf@.subrange(offset as int, offset + 4));
    }
    Some(
        buf[offset] as u32 + 0x100 * (buf[offset + 1] as u32) + 0x1_0000 * (buf[offset + 2] as u32)
            + 0x100_0000 * (buf[offset + 3] as u32),
    )
}

/// Reads the little-endian `i32` at `offset`.
pub fn read_i32_le(buf: &[u8], offset: usize) -> (r: Option<i32>)
    ensures
        r == i32_at(buf@, offset as int),
{
    match read_u32_le(buf, offset) {
        Some(word) => {
            if word < 0x8000_0000 {
                Some(word as i32)
            } else {
                Some((word as i64 - 0x1_0000_0000) as i32)
            }
        },
        None => None,
    }
}

/// Reads the little-endian `u64` at `offset`.
pub fn read_u64_le(buf: &[u8], offset: usize) -> (r: Option<u64>)
    ensures
        r == u64_at(buf@, offset as int),
{
    if buf.len() < 8 || offset > buf.len() - 8 {
        return None;
    }
    let low: Option<u32> = read_u32_le(buf, offset);
    let high: Option<u32> = read_u32_le(buf, offset + 4);
    match (low, high) {
        (Some(low), Some(high)) => {
            proof {
                let s = buf@.subrange(offset as int, offset + 8);
                le_value_of_eight(s);
                le_value_of_four(s.take(4));
                le_value_of_four(s.skip(4));
                assert(s.take(4) =~= buf@.subrange(offset as int, offset + 4));
                assert(s.skip(4) =~= buf@.subrange(offset + 4, offset + 8));
            }
            Some(low as u64 + 0x1_0000_0000 * (high as u64))
        },
        _ => None,
    }
}

/// Reads the little-endian floating-point number at `offset`.
pub fn read_f64_le(buf: &[u8], offset: usize) -> (r: Option<Float64>)
    ensures
        r == f64_at(buf@, offset as int),
{
    match read_u64_le(buf, offset) {
        Some(bits) => Some(Float64 { bits }),
        None => None,
    }
}

// ── Tables ───────────────────────────────────────────────────────────────────

/// Where the root table starts: the buffer's first word, if it leaves room for a
/// table's vtable offset.
pub open spec fn root_of(buf: Seq<u8>) -> Option<int> {
    match u32_at(buf, 0) {
        Some(offset) => if offset + 4 <= buf.len() {
            Some(offset as int)
        } else {
            None
        },
        None => None,
    }
}

/// Where the vtable of the table at `table` starts: the signed word at the
/// table's start counts backwards. `i32::MIN` is no offset. The buffer holds the
/// whole vtable, whose size is its first word.
pub open spec fn vtable_of(buf: Seq<u8>, table: int) -> Option<int> {
    match i32_at(buf, table) {
        Some(back) => {
            let vtable = table - back;
            if back != i32::MIN && 0 <= vtable && vtable + 4 <= buf.len() && vtable + u16_at(
                buf,
                vtable,
            )->0 <= buf.len() {
                Some(vtable)
            } else {
                None
            }
        },
        None => None,
    }
}

/// Where the data of the field with vtable slot `slot` starts. `None` where the
/// field is absent: its slot lies past the vtable's end, or holds 0. A place past
/// the largest address is given as that, where no buffer has a byte.
pub open spec fn field_at(buf: Seq<u8>, table: int, vtable: int, slot: u16) -> Option<int> {
    match u16_at(buf, vtable) {
        Some(size) => if vtable + size <= usize::MAX && slot + 2 <= size {
            match u16_at(buf, vtable + slot) {
                Some(distance) => if distance == 0 {
                    None
                } else if table + distance <= usize::MAX {
                    Some(table + distance)
                } else {
                    Some(usize::MAX as int)
                },
                None => None,
            }
        } else {
            None
        },
        None => None,
    }
}

/// Where the offset stored at `pos` leads: it counts forward from itself.
pub open spec fn target_of(buf: Seq<u8>, pos: int) -> Option<int> {
    match u32_at(buf, pos) {
        Some(offset) => if pos + offset <= usize::MAX {
            Some(pos + offset)
        } else {
            None
        },
        None => None,
    }
}

/// Reads where the root table starts.
pub fn resolve_root(buf: &[u8]) -> (r: Option<usize>)
    ensures
        match r {
            Some(pos) => root_of(buf@) == Some(pos as int),
            None => root_of(buf@) is None,
        },
{
    match read_u32_le(buf, 0) {
        Some(offset) => {
            let offset: usize = offset as usize;
            if buf.len() >= 4 && offset <= buf.len() - 4 {
                Some(offset)
            } else {
                None
            }
        },
        None => None,
    }
}

/// Reads where the vtable of the table at `table_pos` starts.
pub fn resolve_vtable_pos(buf: &[u8], table_pos: usize) -> (r: Option<usize>)
    ensures
        match r {
            Some(pos) => vtable_of(buf@, table_pos as int) == Some(pos as int),
            None => vtable_of(buf@, table_pos as int) is None,
        },
{
    let len: usize = buf.len();
    match read_i32_le(buf, table_pos) {
        Some(back) => {
            if back == i32::MIN {
                return None;
            }
            let vtable: Option<usize> = if back >= 0 {
                table_pos.checked_sub(back as usize)
            } else {
                table_pos.checked_add((-back) as usize)
            };
            match vtable {
                Some(vtable) => {
                    if len < 4 || vtable > len - 4 {
                        return None;
                    }
                    match read_u16_le(buf, vtable) {
                        Some(size) => if size as usize <= len - vtable {
                            Some(vtable)
                        } else {
                            None
                        },
                        None => None,
                    }
                },
                None => None,
            }
        },
        None => None,
    }
}

/// Reads the stored distance of a field's data from its table's start: `Some(0)`
/// for an absent field, `None` where the vtable itself cannot be read.
pub fn field_data_offset(buf: &[u8], vtable_pos: usize, slot: u16) -> (r: Option<u16>)
    ensures
        r == (match u16_at(buf@, vtable_pos as int) {
            Some(size) => if vtable_pos + slot + 2 <= usize::MAX && vtable_pos + size
                <= usize::MAX {
                if slot + 2 > size {
                    Some(0u16)
                } else {
                    u16_at(buf@, vtable_pos + slot)
                }
            } else {
                None
            },
            None => None,
        }),
{
    match read_u16_le(buf, vtable_pos) {
        Some(size) => {
            let slot_end: Option<usize> = vtable_pos.checked_add(slot as usize + 2);
            let vtable_end: Option<usize> = vtable_pos.checked_add(size as usize);
            match (slot_end, vtable_end) {
                (Some(slot_end), Some(vtable_end)) => {
                    if slot_end > vtable_end {
                        Some(0)
                    } else {
                        read_u16_le(buf, slot_end - 2)
                    }
                },
                _ => None,
            }
        },
        None => None,
    }
}

/// Reads where a field's data starts, or `None` for an absent field.
pub fn field_pos(buf: &[u8], table_pos: usize, vtable_pos: usize, slot: u16) -> (r: Option<usize>)
    ensures
        match r {
            Some(pos) => field_at(buf@, table_pos as int, vtable_pos as int, slot) == Some(
                pos as int,
            ),
            None => field_at(buf@, table_pos as int, vtable_pos as int, slot) is None,
        },
{
    match field_data_offset(buf, vtable_pos, slot) {
        Some(distance) => {
            if distance == 0 {
                None
            } else {
                match table_pos.checked_add(distance as usize) {
                    Some(pos) => Some(pos),
                    None => Some(usize::MAX),
                }
            }
        },
        None => None,
    }
}

/// Reads where the offset stored at `pos` leads.
pub fn follow_uoffset(buf: &[u8], pos: usize) -> (r: Option<usize>)
    ensures
        match r {
            Some(to) => target_of(buf@, pos as int) == Some(to as int),
            None => target_of(buf@, pos as int) is None,
        },
{
    match read_u32_le(buf, pos) {
        Some(offset) => pos.checked_add(offset as usize),
        None => None,
    }
}

// ── Scalar fields ────────────────────────────────────────────────────────────

/// A byte field, `default` where it is absent. `None` where it is there but the buffer ends
/// before it does.
pub open spec fn u8_field(buf: Seq<u8>, table: int, vtable: int, slot: u16, default: u8) -> Option<u8> {
    match field_at(buf, table, vtable, slot) {
        Some(pos) => u8_at(buf, pos),
        None => Some(default),
    }
}

/// A flag field, false where it is absent. `None` where it is there but the buffer ends
/// before it does.
pub open spec fn bool_field(buf: Seq<u8>, table: int, vtable: int, slot: u16) -> Option<bool> {
    match field_at(buf, table, vtable, slot) {
        Some(pos) => bool_at(buf, pos),
        None => Some(false),
    }
}

/// A `u32` field, 0 where it is absent. `None` where it is there but the buffer ends
/// before it does.
pub open spec fn u32_field(buf: Seq<u8>, table: int, vtable: int, slot: u16) -> Option<u32> {
    match field_at(buf, table, vtable, slot) {
        Some(pos) => u32_at(buf, pos),
        None => Some(0),
    }
}

/// An `i32` field, `default` where it is absent. `None` where it is there but the buffer ends
/// before it does.
pub open spec fn i32_field(buf: Seq<u8>, table: int, vtable: int, slot: u16, default: i32) -> Option<i32> {
    match field_at(buf, table, vtable, slot) {
        Some(pos) => i32_at(buf, pos),
        None => Some(default),
    }
}

/// A `u64` field, 0 where it is absent. `None` where it is there but the buffer ends
/// before it does.
pub open spec fn u64_field(buf: Seq<u8>, table: int, vtable: int, slot: u16) -> Option<u64> {
    match field_at(buf, table, vtable, slot) {
        Some(pos) => u64_at(buf, pos),
        None => Some(0),
    }
}

/// A floating-point field that may be absent. `None` where it is there but the
/// buffer ends before it does.
pub open spec fn f64_field(buf: Seq<u8>, table: int, vtable: int, slot: u16) -> Option<
    Option<Float64>,
> {
    match field_at(buf, table, vtable, slot) {
        Some(pos) => match f64_at(buf, pos) {
            Some(x) => Some(Some(x)),
            None => None,
        },
        None => Some(None),
    }
}

/// A floating-point field, zero where it is absent. `None` where it is there but
/// the buffer ends before it does.
pub open spec fn f64_field_or_zero(buf: Seq<u8>, table: int, vtable: int, slot: u16) -> Option<
    Float64,
> {
    match f64_field(buf, table, vtable, slot) {
        Some(Some(x)) => Some(x),
        Some(None) => Some(Float64 { bits: 0 }),
        None => None,
    }
}

/// Reads a byte field, or gives `default`.
pub fn read_u8_field(buf: &[u8], table: usize, vtable: usize, slot: u16, default: u8) -> (r: Option<u8>)
    ensures
        r == u8_field(buf@, table as int, vtable as int, slot, default),
{
    match field_pos(buf, table, vtable, slot) {
        Some(pos) => read_u8(buf, pos),
        None => Some(default),
    }
}

/// Reads a flag field, or gives false.
pub fn read_bool_field(buf: &[u8], table: usize, vtable: usize, slot: u16) -> (r: Option<bool>)
    ensures
        r == bool_field(buf@, table as int, vtable as int, slot),
{
    match field_pos(buf, table, vtable, slot) {
        Some(pos) => read_bool_byte(buf, pos),
        None => Some(false),
    }
}

/// Reads a `u32` field, or gives 0.
pub fn read_u32_field(buf: &[u8], table: usize, vtable: usize, slot: u16) -> (r: Option<u32>)
    ensures
        r == u32_field(buf@, table as int, vtable as int, slot),
{
    match field_pos(buf, table, vtable, slot) {
        Some(pos) => read_u32_le(buf, pos),
        None => Some(0),
    }
}

/// Reads an `i32` field, or gives `default`.
pub fn read_i32_field(buf: &[u8], table: usize, vtable: usize, slot: u16, default: i32) -> (r: Option<i32>)
    ensures
        r == i32_field(buf@, table as int, vtable as int, slot, default),
{
    match field_pos(buf, table, vtable, slot) {
        Some(pos) => read_i32_le(buf, pos),
        None => Some(default),
    }
}

/// Reads a `u64` field, or gives 0.
pub fn read_u64_field(buf: &[u8], table: usize, vtable: usize, slot: u16) -> (r: Option<u64>)
    ensures
        r == u64_field(buf@, table as int, vtable as int, slot),
{
    match field_pos(buf, table, vtable, slot) {
        Some(pos) => read_u64_le(buf, pos),
        None => Some(0),
    }
}

/// Reads a floating-point field, if it is there.
pub fn read_f64_field(buf: &[u8], table: usize, vtable: usize, slot: u16) -> (r: Option<
    Option<Float64>,
>)
    ensures
        r == f64_field(buf@, table as int, vtable as int, slot),
{
    match field_pos(buf, table, vtable, slot) {
        Some(pos) => match read_f64_le(buf, pos) {
            Some(x) => Some(Some(x)),
            None => None,
        },
        None => Some(None),
    }
}

/// Reads a floating-point field, or gives zero.
pub fn read_f64_field_or_zero(buf: &[u8], table: usize, vtable: usize, slot: u16) -> (r: Option<
    Float64,
>)
    ensures
        r == f64_field_or_zero(buf@, table as int, vtable as int, slot),
{
    match read_f64_field(buf, table, vtable, slot) {
        Some(Some(x)) => Some(x),
        Some(None) => Some(Float64 { bits: 0 }),
        None => None,
    }
}

// ── Vectors and strings ──────────────────────────────────────────────────────

/// How many elements the vector at `pos` has, if the buffer holds all of them at
/// `size` bytes each.
pub open spec fn vector_len(buf: Seq<u8>, pos: int, size: int) -> Option<int> {
    match u32_at(buf, pos) {
        Some(n) => if pos + 4 + n * size <= buf.len() {
            Some(n as int)
        } else {
            None
        },
        None => None,
    }
}

/// The bytes of the byte vector at `pos`.
pub open spec fn u8s_at(buf: Seq<u8>, pos: int) -> Option<Seq<u8>> {
    match vector_len(buf, pos, 1) {
        Some(n) => Some(buf.subrange(pos + 4, pos + 4 + n)),
        None => None,
    }
}

/// The words of the `u32` vector at `pos`.
pub open spec fn u32s_at(buf: Seq<u8>, pos: int) -> Option<Seq<u32>> {
    match vector_len(buf, pos, 4) {
        Some(n) => Some(Seq::new(n as nat, |i: int| u32_at(buf, pos + 4 + i * 4)->0)),
        None => None,
    }
}

/// The numbers of the floating-point vector at `pos`.
pub open spec fn f64s_at(buf: Seq<u8>, pos: int) -> Option<Seq<Float64>> {
    match vector_len(buf, pos, 8) {
        Some(n) => Some(Seq::new(n as nat, |i: int| f64_at(buf, pos + 4 + i * 8)->0)),
        None => None,
    }
}

/// Where the elements of the offset vector at `pos` lead, if all of them lead
/// somewhere.
pub open spec fn targets_at(buf: Seq<u8>, pos: int) -> Option<Seq<int>> {
    match vector_len(buf, pos, 4) {
        Some(n) => if forall|i: int|
            0 <= i < n ==> (#[trigger] target_of(buf, pos + 4 + i * 4)) is Some {
            Some(Seq::new(n as nat, |i: int| target_of(buf, pos + 4 + i * 4)->0))
        } else {
            None
        },
        None => None,
    }
}

/// The text of the length-prefixed UTF-8 string at `pos`.
pub open spec fn string_at(buf: Seq<u8>, pos: int) -> Option<Seq<char>> {
    match u8s_at(buf, pos) {
        Some(bytes) => if vstd::utf8::valid_utf8(bytes) {
            Some(vstd::utf8::decode_utf8(bytes))
        } else {
            None
        },
        None => None,
    }
}

/// Reads how many elements of `size` bytes the vector at `pos` has.
fn read_vector_len(buf: &[u8], pos: usize, size: usize) -> (r: Option<usize>)
    requires
        0 < size <= 8,
    ensures
        match r {
            Some(n) => {
                &&& vector_len(buf@, pos as int, size as int) == Some(n as int)
                &&& pos + 4 + n * size <= buf@.len() <= usize::MAX
            },
            None => vector_len(buf@, pos as int, size as int) is None,
        },
{
    let len: usize = buf.len();
    match read_u32_le(buf, pos) {
        Some(n) => {
            assert(n * size <= 0xffff_ffff * 8) by (nonlinear_arith)
                requires
                    0 <= n <= 0xffff_ffff,
                    0 < size <= 8,
            ;
            let bytes: u64 = n as u64 * size as u64;
            if bytes <= (len - pos - 4) as u64 {
                Some(n as usize)
            } else {
                None
            }
        },
        None => None,
    }
}

/// Reads the byte vector at `vec_pos`.
pub fn read_u8_vector(buf: &[u8], vec_pos: usize) -> (r: Option<Vec<u8>>)
    ensures
        match r {
            Some(v) => u8s_at(buf@, vec_pos as int) == Some(v@),
            None => u8s_at(buf@, vec_pos as int) is None,
        },
{
    match read_vector_len(buf, vec_pos, 1) {
        Some(n) => {
            let bytes: &[u8] = vstd::slice::slice_subrange(buf, vec_pos + 4, vec_pos + 4 + n);
            Some(vstd::slice::slice_to_vec(bytes))
        },
        None => None,
    }
}

/// Reads the `u32` vector at `vec_pos`.
pub fn read_u32_vector(buf: &[u8], vec_pos: usize) -> (r: Option<Vec<u32>>)
    ensures
        match r {
            Some(v) => u32s_at(buf@, vec_pos as int) == Some(v@),
            None => u32s_at(buf@, vec_pos as int) is None,
        },
{
    let n: usize = match read_vector_len(buf, vec_pos, 4) {
        Some(n) => n,
        None => return None,
    };
    let mut out: Vec<u32> = Vec::new();
    for i in 0..n
        invariant
            vec_pos + 4 + n * 4 <= buf@.len() <= usize::MAX,
            out.len() == i,
            forall|j: int| 0 <= j < i ==> Some(out[j]) == u32_at(buf@, vec_pos + 4 + j * 4),
    {
        match read_u32_le(buf, vec_pos + 4 + i * 4) {
            Some(x) => out.push(x),
            None => return None,
        }
    }
    proof {
        assert(out@ =~= u32s_at(buf@, vec_pos as int)->0);
    }
    Some(out)
}

/// Reads the floating-point vector at `vec_pos`.
pub fn read_f64_vector(buf: &[u8], vec_pos: usize) -> (r: Option<Vec<Float64>>)
    ensures
        match r {
            Some(v) => f64s_at(buf@, vec_pos as int) == Some(v@),
            None => f64s_at(buf@, vec_pos as int) is None,
        },
{
    let n: usize = match read_vector_len(buf, vec_pos, 8) {
        Some(n) => n,
        None => return None,
    };
    let mut out: Vec<Float64> = Vec::new();
    for i in 0..n
        invariant
            vec_pos + 4 + n * 8 <= buf@.len() <= usize::MAX,
            out.len() == i,
            forall|j: int| 0 <= j < i ==> Some(out[j]) == f64_at(buf@, vec_pos + 4 + j * 8),
    {
        match read_f64_le(buf, vec_pos + 4 + i * 8) {
            Some(x) => out.push(x),
            None => return None,
        }
    }
    proof {
        assert(out@ =~= f64s_at(buf@, vec_pos as int)->0);
    }
    Some(out)
}

/// Positions as mathematical integers.
pub open spec fn ints(positions: Seq<usize>) -> Seq<int> {
    positions.map_values(|p: usize| p as int)
}

/// Reads where the elements of the offset vector at `vec_pos` lead.
pub fn read_table_vector_positions(buf: &[u8], vec_pos: usize) -> (r: Option<Vec<usize>>)
    ensures
        match r {
            Some(v) => targets_at(buf@, vec_pos as int) == Some(ints(v@)),
            None => targets_at(buf@, vec_pos as int) is None,
        },
{
    let n: usize = match read_vector_len(buf, vec_pos, 4) {
        Some(n) => n,
        None => return None,
    };
    let mut out: Vec<usize> = Vec::new();
    for i in 0..n
        invariant
            vec_pos + 4 + n * 4 <= buf@.len() <= usize::MAX,
            vector_len(buf@, vec_pos as int, 4) == Some(n as int),
            out.len() == i,
            forall|j: int|
                0 <= j < i ==> (#[trigger] target_of(buf@, vec_pos + 4 + j * 4)) == Some(
                    out[j] as int,
                ),
    {
        match follow_uoffset(buf, vec_pos + 4 + i * 4) {
            Some(x) => out.push(x),
            None => {
                assert(target_of(buf@, vec_pos + 4 + i * 4) is None);
                return None;
            },
        }
    }
    proof {
        assert forall|j: int| 0 <= j < n implies (#[trigger] target_of(
            buf@,
            vec_pos + 4 + j * 4,
        )) is Some by {}
        assert(ints(out@) =~= targets_at(buf@, vec_pos as int)->0);
    }
    Some(out)
}

/// `std::str::from_utf8`: the text that `bytes` encodes, where they are valid
/// UTF-8 in the sense of `vstd::utf8`.
#[verifier::external_body]
fn utf8_text(bytes: &[u8]) -> (r: Option<String>)
    ensures
        match r {
            Some(s) => vstd::utf8::valid_utf8(bytes@) && s@ == vstd::utf8::decode_utf8(bytes@),
            None => !vstd::utf8::valid_utf8(bytes@),
        },
{
    std::str::from_utf8(bytes).ok().map(str::to_owned)
}

/// Reads the length-prefixed UTF-8 string at `str_pos`.
pub fn read_string(buf: &[u8], str_pos: usize) -> (r: Option<String>)
    ensures
        match r {
            Some(s) => string_at(buf@, str_pos as int) == Some(s@),
            None => string_at(buf@, str_pos as int) is None,
        },
{
    match read_vector_len(buf, str_pos, 1) {
        Some(n) => utf8_text(
            vstd::slice::slice_subrange(buf, str_pos + 4, str_pos + 4 + n),
        ),
        None => None,
    }
}

// ── Lists of records ─────────────────────────────────────────────────────────

/// The records at `positions`, or the index of the first position that holds none.
pub open spec fn read_all<T>(at: spec_fn(int) -> Option<T>, positions: Seq<int>) -> Result<
    Seq<T>,
    nat,
>
    decreases positions.len(),
{
    if positions.len() == 0 {
        Ok(Seq::empty())
    } else {
        match read_all(at, positions.drop_last()) {
            Ok(records) => match at(positions.last()) {
                Some(record) => Ok(records.push(record)),
                None => Err((positions.len() - 1) as nat),
            },
            Err(index) => Err(index),
        }
    }
}

/// A failure among the first positions is the failure of all of them.
pub proof fn read_all_keeps_the_first_failure<T>(
    at: spec_fn(int) -> Option<T>,
    positions: Seq<int>,
    n: int,
)
    requires
        0 <= n <= positions.len(),
        read_all(at, positions.take(n)) is Err,
    ensures
        read_all(at, positions) == read_all(at, positions.take(n)),
    decreases positions.len() - n,
{
    if n == positions.len() {
        assert(positions.take(n) =~= positions);
    } else {
        assert(positions.take(n + 1).drop_last() =~= positions.take(n));
        read_all_keeps_the_first_failure(at, positions, n + 1);
    }
}

/// Where every position holds a record, `read_all` gives them in order.
pub proof fn read_all_in_order<T>(
    at: spec_fn(int) -> Option<T>,
    positions: Seq<int>,
    records: Seq<T>,
)
    requires
        positions.len() == records.len(),
        forall|i: int| 0 <= i < records.len() ==> at(#[trigger] positions[i]) == Some(records[i]),
    ensures
        read_all(at, positions) == Ok::<Seq<T>, nat>(records),
    decreases positions.len(),
{
    if positions.len() > 0 {
        read_all_in_order(at, positions.drop_last(), records.drop_last());
        assert(records.drop_last().push(records.last()) =~= records);
    } else {
        assert(records =~= Seq::empty());
    }
}

/// A truth value is false where its byte is zero, and true where it is any other.
pub proof fn any_byte_but_zero_is_true(buf: Seq<u8>, pos: int)
    requires
        0 <= pos < buf.len(),
    ensures
        bool_at(buf, pos) == Some(buf[pos] != 0),
{
}

/// What stands at a position is read with the least byte first, where the buffer holds all
/// its bytes, and not at all where it does not. A signed word from the upper half counts down
/// from zero.
pub proof fn words_begin_with_their_least_byte(buf: Seq<u8>, pos: int)
    requires
        0 <= pos,
    ensures
        u8_at(buf, pos) is Some <==> pos + 1 <= buf.len(),
        u16_at(buf, pos) is Some <==> pos + 2 <= buf.len(),
        u32_at(buf, pos) is Some <==> pos + 4 <= buf.len(),
        i32_at(buf, pos) is Some <==> pos + 4 <= buf.len(),
        u64_at(buf, pos) is Some <==> pos + 8 <= buf.len(),
        f64_at(buf, pos) is Some <==> pos + 8 <= buf.len(),
        u8_at(buf, pos) matches Some(x) ==> x == buf[pos],
        u16_at(buf, pos) matches Some(x) ==> x == buf[pos] + 0x100 * buf[pos + 1],
        u32_at(buf, pos) matches Some(x) ==> x == buf[pos] + 0x100 * buf[pos + 1] + 0x1_0000
            * buf[pos + 2] + 0x100_0000 * buf[pos + 3],
        i32_at(buf, pos) matches Some(x) ==> x == u32_at(buf, pos)->0 - if buf[pos + 3] >= 0x80 {
            0x1_0000_0000int
        } else {
            0
        },
        u64_at(buf, pos) matches Some(x) ==> x == u32_at(buf, pos)->0 + 0x1_0000_0000 * u32_at(
            buf,
            pos + 4,
        )->0,
        f64_at(buf, pos) matches Some(x) ==> Some(x.bits) == u64_at(buf, pos),
{
    if pos + 2 <= buf.len() {
        le_value_of_two(buf.subrange(pos, pos + 2));
    }
    if pos + 4 <= buf.len() {
        le_value_of_four(buf.subrange(pos, pos + 4));
    }
    if pos + 8 <= buf.len() {
        let s = buf.subrange(pos, pos + 8);
        le_value_of_four(buf.subrange(pos + 4, pos + 8));
        le_value_of_eight(s);
        assert(s.take(4) =~= buf.subrange(pos, pos + 4));
        assert(s.skip(4) =~= buf.subrange(pos + 4, pos + 8));
    }
}

/// Where a table lies: the root where the first word says, its vtable as far before it as
/// its own first word says, and the data of a field as far behind it as the field's entry in
/// the vtable says.
pub proof fn tables_lie_where_their_words_say(
    buf: Seq<u8>,
    table: int,
    vtable: int,
    slot: u16,
    pos: int,
)
    ensures
        root_of(buf) == Some(table) <==> u32_at(buf, 0) is Some && u32_at(buf, 0)->0 == table
            && table + 4 <= buf.len(),
        vtable_of(buf, table) == Some(vtable) ==> i32_at(buf, table) is Some && table - i32_at(
            buf,
            table,
        )->0 == vtable && 0 <= vtable && vtable + u16_at(buf, vtable)->0 <= buf.len(),
        field_at(buf, table, vtable, slot) == Some(pos) && pos != usize::MAX ==> {
            &&& u16_at(buf, vtable) is Some && slot + 2 <= u16_at(buf, vtable)->0
            &&& u16_at(buf, vtable + slot) is Some && u16_at(buf, vtable + slot)->0 == pos - table
            &&& pos > table
        },
        u16_at(buf, vtable + slot) == Some(0u16) ==> field_at(buf, table, vtable, slot) is None,
        (u16_at(buf, vtable) matches Some(size) && slot + 2 > size) ==> field_at(
            buf,
            table,
            vtable,
            slot,
        ) is None,
        target_of(buf, table) == Some(pos) ==> u32_at(buf, table) is Some && pos == table + u32_at(
            buf,
            table,
        )->0,
{
}

/// A field that is absent has its default, which is zero, false or nothing where none is
/// given, and one that is there has what stands where its data is.
pub proof fn absent_fields_have_their_defaults(
    buf: Seq<u8>,
    table: int,
    vtable: int,
    slot: u16,
    byte: u8,
    number: i32,
)
    ensures
        match field_at(buf, table, vtable, slot) {
            None => {
                &&& u8_field(buf, table, vtable, slot, byte) == Some(byte)
                &&& bool_field(buf, table, vtable, slot) == Some(false)
                &&& u32_field(buf, table, vtable, slot) == Some(0u32)
                &&& i32_field(buf, table, vtable, slot, number) == Some(number)
                &&& u64_field(buf, table, vtable, slot) == Some(0u64)
                &&& f64_field(buf, table, vtable, slot) == Some(None::<Float64>)
                &&& f64_field_or_zero(buf, table, vtable, slot) is Some
                &&& f64_field_or_zero(buf, table, vtable, slot)->0.bits == 0
            },
            Some(pos) => {
                &&& u8_field(buf, table, vtable, slot, byte) == u8_at(buf, pos)
                &&& bool_field(buf, table, vtable, slot) == bool_at(buf, pos)
                &&& u32_field(buf, table, vtable, slot) == u32_at(buf, pos)
                &&& i32_field(buf, table, vtable, slot, number) == i32_at(buf, pos)
                &&& u64_field(buf, table, vtable, slot) == u64_at(buf, pos)
                &&& f64_at(buf, pos) is Some ==> f64_field(buf, table, vtable, slot) == Some(
                    f64_at(buf, pos),
                )
                &&& f64_at(buf, pos) is None ==> f64_field(buf, table, vtable, slot) is None
                &&& f64_field_or_zero(buf, table, vtable, slot) == f64_at(buf, pos)
            },
        },
{
}

/// A vector is a word that says how many elements there are, and the elements behind it, one
/// behind the other. One that the buffer does not hold whole is not read.
pub proof fn elements_follow_their_number(buf: Seq<u8>, pos: int, i: int)
    requires
        0 <= pos,
        0 <= i,
    ensures
        u8s_at(buf, pos) is Some <==> (u32_at(buf, pos) matches Some(n) && pos + 4 + n
            <= buf.len()),
        u32s_at(buf, pos) is Some <==> (u32_at(buf, pos) matches Some(n) && pos + 4 + 4 * n
            <= buf.len()),
        f64s_at(buf, pos) is Some <==> (u32_at(buf, pos) matches Some(n) && pos + 4 + 8 * n
            <= buf.len()),
        u8s_at(buf, pos) matches Some(xs) ==> xs.len() == u32_at(buf, pos)->0 && (i < xs.len()
            ==> xs[i] == buf[pos + 4 + i]),
        u32s_at(buf, pos) matches Some(xs) ==> xs.len() == u32_at(buf, pos)->0 && (i < xs.len()
            ==> u32_at(buf, pos + 4 + 4 * i) == Some(xs[i])),
        f64s_at(buf, pos) matches Some(xs) ==> xs.len() == u32_at(buf, pos)->0 && (i < xs.len()
            ==> f64_at(buf, pos + 4 + 8 * i) == Some(xs[i])),
        targets_at(buf, pos) matches Some(xs) ==> xs.len() == u32_at(buf, pos)->0 && (i < xs.len()
            ==> target_of(buf, pos + 4 + 4 * i) == Some(xs[i])),
        string_at(buf, pos) matches Some(text) ==> u8s_at(buf, pos) == Some(
            vstd::utf8::encode_utf8(text),
        ),
{
    if u32_at(buf, pos) is Some {
        let n = u32_at(buf, pos)->0;
        if i < n {
            assert(i * 4 + 4 <= n * 4 && i * 8 + 8 <= n * 8) by (nonlinear_arith)
                requires
                    i < n,
            ;
        }
        if targets_at(buf, pos) is Some && i < n {
            assert(target_of(buf, pos + 4 + i * 4) is Some);
        }
    }
    if string_at(buf, pos) is Some {
        vstd::utf8::decode_utf8_encode_utf8(u8s_at(buf, pos)->0);
    }
}

} // verus!
