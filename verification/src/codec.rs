//! Fixed-width fields at fixed byte offsets of a record buffer.
//!
//! Numbers are stored little-endian, signed ones in two's complement, with no
//! padding between fields. Every accessor takes the offset of its field and
//! touches the bytes of that field only.

use vstd::prelude::*;

verus! {

/// The number that eight bytes spell in little-endian order.
pub open spec fn u64_from_le(bytes: Seq<u8>) -> u64
    recommends
        bytes.len() == 8,
{
    (bytes[0] as int + bytes[1] as int * 0x100 + bytes[2] as int * 0x1_0000 + bytes[3] as int
        * 0x100_0000 + bytes[4] as int * 0x1_0000_0000 + bytes[5] as int * 0x100_0000_0000
        + bytes[6] as int * 0x1_0000_0000_0000 + bytes[7] as int * 0x100_0000_0000_0000) as u64
}

/// The eight bytes that spell `value` in little-endian order.
pub open spec fn u64_to_le(value: u64) -> Seq<u8> {
    seq![
        (value % 0x100) as u8,
        (value / 0x100 % 0x100) as u8,
        (value / 0x1_0000 % 0x100) as u8,
        (value / 0x100_0000 % 0x100) as u8,
        (value / 0x1_0000_0000 % 0x100) as u8,
        (value / 0x100_0000_0000 % 0x100) as u8,
        (value / 0x1_0000_0000_0000 % 0x100) as u8,
        (value / 0x100_0000_0000_0000 % 0x100) as u8,
    ]
}

/// The unsigned number with the same 64 bits as `value` in two's complement.
pub open spec fn i64_bits(value: i64) -> u64 {
    if value >= 0 {
        value as u64
    } else {
        (value + 0x1_0000_0000_0000_0000) as u64
    }
}

/// The signed number that the 64 bits of `bits` stand for in two's complement.
pub open spec fn i64_of_bits(bits: u64) -> i64 {
    if bits < 0x8000_0000_0000_0000 {
        bits as i64
    } else {
        (bits - 0x1_0000_0000_0000_0000) as i64
    }
}

/// The signed number that eight bytes spell in little-endian two's complement.
pub open spec fn i64_from_le(bytes: Seq<u8>) -> i64
    recommends
        bytes.len() == 8,
{
    i64_of_bits(u64_from_le(bytes))
}

/// The eight bytes that spell `value` in little-endian two's complement.
pub open spec fn i64_to_le(value: i64) -> Seq<u8> {
    u64_to_le(i64_bits(value))
}

/// `buffer` with the bytes of `field` laid over it from `offset` on; every
/// other byte, and the length, stay as they are.
pub open spec fn overlaid(buffer: Seq<u8>, offset: int, field: Seq<u8>) -> Seq<u8>
    recommends
        0 <= offset,
        offset + field.len() <= buffer.len(),
{
    Seq::new(
        buffer.len(),
        |i: int|
            if offset <= i < offset + field.len() {
                field[i - offset]
            } else {
                buffer[i]
            },
    )
}

/// Decoding the bytes of a number gives the number back.
pub proof fn lemma_u64_value_round_trip(value: u64)
    ensures
        u64_to_le(value).len() == 8,
        u64_from_le(u64_to_le(value)) == value,
{
    let v = value as int;
    let q1 = v / 0x100;
    let q2 = v / 0x1_0000;
    let q3 = v / 0x100_0000;
    let q4 = v / 0x1_0000_0000;
    let q5 = v / 0x100_0000_0000;
    let q6 = v / 0x1_0000_0000_0000;
    let q7 = v / 0x100_0000_0000_0000;
    assert(q2 == q1 / 0x100);
    assert(q3 == q2 / 0x100);
    assert(q4 == q3 / 0x100);
    assert(q5 == q4 / 0x100);
    assert(q6 == q5 / 0x100);
    assert(q7 == q6 / 0x100);
    assert(q7 < 0x100);
}

/// Encoding the number that eight bytes spell gives the same eight bytes.
pub proof fn lemma_u64_bytes_round_trip(bytes: Seq<u8>)
    requires
        bytes.len() == 8,
    ensures
        u64_to_le(u64_from_le(bytes)) == bytes,
{
    let v = u64_from_le(bytes) as int;
    let t7 = bytes[7] as int;
    let t6 = bytes[6] as int + t7 * 0x100;
    let t5 = bytes[5] as int + t6 * 0x100;
    let t4 = bytes[4] as int + t5 * 0x100;
    let t3 = bytes[3] as int + t4 * 0x100;
    let t2 = bytes[2] as int + t3 * 0x100;
    let t1 = bytes[1] as int + t2 * 0x100;
    let t0 = bytes[0] as int + t1 * 0x100;
    assert(v == t0);
    assert(v / 0x100 == t1);
    assert(v / 0x1_0000 == t2);
    assert(v / 0x100_0000 == t3);
    assert(v / 0x1_0000_0000 == t4);
    assert(v / 0x100_0000_0000 == t5);
    assert(v / 0x1_0000_0000_0000 == t6);
    assert(v / 0x100_0000_0000_0000 == t7);
}

/// Decoding the bytes of a signed number gives the number back, for negative
/// numbers as for others.
pub proof fn lemma_i64_value_round_trip(value: i64)
    ensures
        i64_to_le(value).len() == 8,
        i64_from_le(i64_to_le(value)) == value,
{
    lemma_u64_value_round_trip(i64_bits(value));
}

/// Encoding the signed number that eight bytes spell gives the same bytes.
pub proof fn lemma_i64_bytes_round_trip(bytes: Seq<u8>)
    requires
        bytes.len() == 8,
    ensures
        i64_to_le(i64_from_le(bytes)) == bytes,
{
    lemma_u64_bytes_round_trip(bytes);
}

/// Reads the one-byte field at `offset`.
pub fn read_u8(buffer: &[u8], offset: usize) -> (value: u8)
    requires
        offset < buffer@.len(),
    ensures
        value == buffer@[offset as int],
{
    buffer[offset]
}

/// Reads the unsigned 64-bit field that starts at `offset`.
pub fn read_u64(buffer: &[u8], offset: usize) -> (value: u64)
    requires
        offset + 8 <= buffer@.len(),
    ensures
        value == u64_from_le(buffer@.subrange(offset as int, offset + 8)),
{
    let b0: u64 = buffer[offset] as u64;
    let b1: u64 = buffer[offset + 1] as u64;
    let b2: u64 = buffer[offset + 2] as u64;
    let b3: u64 = buffer[offset + 3] as u64;
    let b4: u64 = buffer[offset + 4] as u64;
    let b5: u64 = buffer[offset + 5] as u64;
    let b6: u64 = buffer[offset + 6] as u64;
    let b7: u64 = buffer[offset + 7] as u64;
    b0 + b1 * 0x100 + b2 * 0x1_0000 + b3 * 0x100_0000 + b4 * 0x1_0000_0000 + b5 * 0x100_0000_0000
        + b6 * 0x1_0000_0000_0000 + b7 * 0x100_0000_0000_0000
}

/// Reads the signed 64-bit field that starts at `offset`.
pub fn read_i64(buffer: &[u8], offset: usize) -> (value: i64)
    requires
        offset + 8 <= buffer@.len(),
    ensures
        value == i64_from_le(buffer@.subrange(offset as int, offset + 8)),
{
    let bits: u64 = read_u64(buffer, offset);
    if bits < 0x8000_0000_0000_0000 {
        bits as i64
    } else {
        let low: u64 = bits - 0x8000_0000_0000_0000;
        (low as i64) + i64::MIN
    }
}

/// Reads the 32-byte address that starts at `offset`.
pub fn read_key(buffer: &[u8], offset: usize) -> (key: [u8; 32])
    requires
        offset + 32 <= buffer@.len(),
    ensures
        key@ == buffer@.subrange(offset as int, offset + 32),
{
    let mut key: [u8; 32] = [0u8; 32];
    let mut i: usize = 0;
    while i < 32
        invariant
            i <= 32,
            offset + 32 <= buffer.len(),
            forall|j: int| 0 <= j < i ==> key@[j] == buffer@[offset + j],
        decreases 32 - i,
    {
        key[i] = buffer[offset + i];
        i += 1;
    }
    assert(key@ =~= buffer@.subrange(offset as int, offset + 32));
    key
}

/// Overwrites the one-byte field at `offset`.
pub fn write_u8(buffer: &mut [u8], offset: usize, value: u8)
    requires
        offset < old(buffer)@.len(),
    ensures
        final(buffer)@ == overlaid(old(buffer)@, offset as int, seq![value]),
{
    buffer[offset] = value;
}

/// Overwrites the unsigned 64-bit field that starts at `offset`.
pub fn write_u64(buffer: &mut [u8], offset: usize, value: u64)
    requires
        offset + 8 <= old(buffer)@.len(),
    ensures
        final(buffer)@ == overlaid(old(buffer)@, offset as int, u64_to_le(value)),
{
    buffer[offset] = (value % 0x100) as u8;
    buffer[offset + 1] = (value / 0x100 % 0x100) as u8;
    buffer[offset + 2] = (value / 0x1_0000 % 0x100) as u8;
    buffer[offset + 3] = (value / 0x100_0000 % 0x100) as u8;
    buffer[offset + 4] = (value / 0x1_0000_0000 % 0x100) as u8;
    buffer[offset + 5] = (value / 0x100_0000_0000 % 0x100) as u8;
    buffer[offset + 6] = (value / 0x1_0000_0000_0000 % 0x100) as u8;
    buffer[offset + 7] = (value / 0x100_0000_0000_0000 % 0x100) as u8;
    assert(buffer@ =~= overlaid(old(buffer)@, offset as int, u64_to_le(value)));
}

/// Overwrites the signed 64-bit field that starts at `offset`.
pub fn write_i64(buffer: &mut [u8], offset: usize, value: i64)
    requires
        offset + 8 <= old(buffer)@.len(),
    ensures
        final(buffer)@ == overlaid(old(buffer)@, offset as int, i64_to_le(value)),
{
    let bits: u64 = if value >= 0 {
        value as u64
    } else {
        ((value - i64::MIN) as u64) + 0x8000_0000_0000_0000
    };
    write_u64(buffer, offset, bits);
}

/// Overwrites the 32-byte address that starts at `offset`.
pub fn write_key(buffer: &mut [u8], offset: usize, key: &[u8; 32])
    requires
        offset + 32 <= old(buffer)@.len(),
    ensures
        final(buffer)@ == overlaid(old(buffer)@, offset as int, key@),
{
    let mut i: usize = 0;
    while i < 32
        invariant
            i <= 32,
            offset + 32 <= buffer.len(),
            buffer@.len() == old(buffer)@.len(),
            forall|j: int| 0 <= j < i ==> buffer@[offset + j] == key@[j],
            forall|j: int|
                0 <= j < buffer@.len() && !(offset <= j < offset + i) ==> buffer@[j] == old(
                    buffer,
                )@[j],
        decreases 32 - i,
    {
        buffer[offset + i] = key[i];
        i += 1;
    }
}

/// Tells whether two addresses are the same, byte for byte.
pub fn same_key(left: &[u8; 32], right: &[u8; 32]) -> (same: bool)
    ensures
        same == (left@ == right@),
{
    let mut i: usize = 0;
    while i < 32
        invariant
            i <= 32,
            forall|j: int| 0 <= j < i ==> left@[j] == right@[j],
        decreases 32 - i,
    {
        if left[i] != right[i] {
            return false;
        }
        i += 1;
    }
    assert(left@ =~= right@);
    true
}

} // verus!
