//! The bytes of a vibration particle's data: a block position source and the arrival time.
use vstd::prelude::*;

use crate::math::BlockPos;

verus! {

/// A block position packed into 64 bits: 26 bits of x, then 26 bits of z, then 12 bits of y.
pub open spec fn spec_as_long(pos: BlockPos) -> i64 {
    (((pos.x as i64) & 0x3FF_FFFFi64) << 38i64) | (((pos.z as i64) & 0x3FF_FFFFi64) << 12i64) | ((
    pos.y as i64) & 0xFFFi64)
}

/// Packs a block position into 64 bits.
pub fn as_long(pos: BlockPos) -> (r: i64)
    ensures
        r == spec_as_long(pos),
{
    (((pos.x as i64) & 0x3FF_FFFFi64) << 38i64) | (((pos.z as i64) & 0x3FF_FFFFi64) << 12i64) | ((
    pos.y as i64) & 0xFFFi64)
}

/// The eight bytes of `v`, most significant first.
pub open spec fn be_bytes(v: i64) -> Seq<u8> {
    let u = v as u64;
    seq![
        (u >> 56u64) as u8,
        (u >> 48u64) as u8,
        (u >> 40u64) as u8,
        (u >> 32u64) as u8,
        (u >> 24u64) as u8,
        (u >> 16u64) as u8,
        (u >> 8u64) as u8,
        u as u8,
    ]
}

/// A 32-bit value as a variable-length integer: seven bits per byte, least significant group
/// first, the high bit set on every byte but the last.
pub open spec fn varint_bytes(v: u32) -> Seq<u8>
    decreases v,
{
    if v < 128 {
        seq![v as u8]
    } else {
        seq![(v % 128 + 128) as u8] + varint_bytes(v / 128)
    }
}

/// A variable-length integer of a 32-bit value takes one to five bytes.
pub proof fn lemma_varint_length(v: u32)
    ensures
        1 <= varint_bytes(v).len() <= 5,
        v < 128 <==> varint_bytes(v).len() == 1,
    decreases v,
{
    if v >= 128 {
        lemma_varint_length(v / 128);
        lemma_varint_length_bound(v);
    }
}

proof fn lemma_varint_length_bound(v: u32)
    ensures
        varint_bytes(v).len() <= 5,
{
    reveal_with_fuel(varint_bytes, 5);
    assert(v / 128 / 128 / 128 / 128 < 128);
}

/// Appends the variable-length integer of `value` (as its 32 bits).
pub fn write_varint(out: &mut Vec<u8>, value: i32)
    ensures
        final(out)@ == old(out)@ + varint_bytes(value as u32),
{
    let mut v = value as u32;
    while v >= 128
        invariant
            out@ + varint_bytes(v) == old(out)@ + varint_bytes(value as u32),
        decreases v,
    {
        let ghost before = out@;
        out.push((v % 128 + 128) as u8);
        assert(before + varint_bytes(v) =~= out@ + varint_bytes(v / 128));
        v = v / 128;
    }
    let ghost before = out@;
    out.push(v as u8);
    assert(before + varint_bytes(v) =~= out@);
}

/// The data of a vibration particle heading for the block at `destination` and arriving in
/// `arrival_in_ticks`: a 0 (a block position source), the packed position in eight bytes,
/// and the arrival time as a variable-length integer.
pub open spec fn spec_vibration_particle_data(destination: BlockPos, arrival_in_ticks: i32) -> Seq<
    u8,
> {
    seq![0u8] + be_bytes(spec_as_long(destination)) + varint_bytes(arrival_in_ticks as u32)
}

/// Encodes the data of a vibration particle.
pub fn vibration_particle_data(destination: BlockPos, arrival_in_ticks: i32) -> (r: Vec<u8>)
    ensures
        r@ == spec_vibration_particle_data(destination, arrival_in_ticks),
{
    let mut data: Vec<u8> = Vec::new();
    data.push(0);
    let u = as_long(destination) as u64;
    data.push((u >> 56u64) as u8);
    data.push((u >> 48u64) as u8);
    data.push((u >> 40u64) as u8);
    data.push((u >> 32u64) as u8);
    data.push((u >> 24u64) as u8);
    data.push((u >> 16u64) as u8);
    data.push((u >> 8u64) as u8);
    data.push(u as u8);
    assert(data@ =~= seq![0u8] + be_bytes(spec_as_long(destination)));
    write_varint(&mut data, arrival_in_ticks);
    data
}

/// The data of a vibration particle takes 10 to 14 bytes.
pub proof fn lemma_particle_data_length(destination: BlockPos, arrival_in_ticks: i32)
    ensures
        10 <= spec_vibration_particle_data(destination, arrival_in_ticks).len() <= 14,
{
    lemma_varint_length(arrival_in_ticks as u32);
}

} // verus!
