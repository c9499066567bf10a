//! The 128-bit block behind an identifier: the tag, bit-reversed, in the high
//! half and the row id's bit pattern in the low half.

use vstd::prelude::*;
use vstd::bytes::{
    lemma_auto_spec_u128_to_from_le_bytes, spec_u128_from_le_bytes, spec_u128_to_le_bytes,
    u128_from_le_bytes, u128_to_le_bytes,
};
use vstd::array::array_as_slice;

verus! {

/// Whether bit `i` of `x` is set.
pub open spec fn bit(x: u64, i: u64) -> bool {
    (x >> i) & 1 == 1
}

/// `x` with the order of its 64 bits reversed, by swapping neighbouring bits,
/// then pairs, nibbles, bytes, 16-bit words and the two halves.
pub open spec fn reversed(x: u64) -> u64 {
    let a = ((x >> 1) & 0x5555_5555_5555_5555) | ((x & 0x5555_5555_5555_5555) << 1);
    let b = ((a >> 2) & 0x3333_3333_3333_3333) | ((a & 0x3333_3333_3333_3333) << 2);
    let c = ((b >> 4) & 0x0f0f_0f0f_0f0f_0f0f) | ((b & 0x0f0f_0f0f_0f0f_0f0f) << 4);
    let d = ((c >> 8) & 0x00ff_00ff_00ff_00ff) | ((c & 0x00ff_00ff_00ff_00ff) << 8);
    let e = ((d >> 16) & 0x0000_ffff_0000_ffff) | ((d & 0x0000_ffff_0000_ffff) << 16);
    (e >> 32) | (e << 32)
}

/// Bit `i` of `x` is bit `63 - i` of `reversed(x)`.
pub proof fn lemma_reversed_bits(x: u64, i: u64)
    requires
        i < 64,
    ensures
        bit(reversed(x), (63 - i) as u64) == bit(x, i),
{
    assert(bit(reversed(x), (63 - i) as u64) == bit(x, i)) by (bit_vector)
        requires
            i < 64,
    ;
}

/// Reversing twice gives the number back.
pub proof fn lemma_reversed_twice(x: u64)
    ensures
        reversed(reversed(x)) == x,
{
    assert(reversed(reversed(x)) == x) by (bit_vector);
}

/// Reverses the order of the bits of `x`.
pub fn reverse_bits(x: u64) -> (r: u64)
    ensures
        r == reversed(x),
{
    let a: u64 = ((x >> 1) & 0x5555_5555_5555_5555) | ((x & 0x5555_5555_5555_5555) << 1);
    let b: u64 = ((a >> 2) & 0x3333_3333_3333_3333) | ((a & 0x3333_3333_3333_3333) << 2);
    let c: u64 = ((b >> 4) & 0x0f0f_0f0f_0f0f_0f0f) | ((b & 0x0f0f_0f0f_0f0f_0f0f) << 4);
    let d: u64 = ((c >> 8) & 0x00ff_00ff_00ff_00ff) | ((c & 0x00ff_00ff_00ff_00ff) << 8);
    let e: u64 = ((d >> 16) & 0x0000_ffff_0000_ffff) | ((d & 0x0000_ffff_0000_ffff) << 16);
    (e >> 32) | (e << 32)
}

/// The block that holds `tag` and `id`.
pub open spec fn pack(tag: u64, id: i64) -> u128 {
    ((reversed(tag) as u128) << 64) | ((id as u64) as u128)
}

/// The tag and the row id that a block holds.
pub open spec fn unpack(block: u128) -> (u64, i64) {
    (reversed((block >> 64) as u64), ((block & 0xffff_ffff_ffff_ffff) as u64) as i64)
}

/// Unpacking a packed block gives the tag and the row id back.
pub proof fn lemma_unpack_pack(tag: u64, id: i64)
    ensures
        unpack(pack(tag, id)) == (tag, id),
{
    let high = reversed(tag);
    let low = id as u64;
    let block = ((high as u128) << 64) | (low as u128);
    assert(((block >> 64) as u64) == high && ((block & 0xffff_ffff_ffff_ffff) as u64) == low)
        by (bit_vector)
        requires
            block == ((high as u128) << 64) | (low as u128),
    ;
    assert((low as i64) == id) by (bit_vector)
        requires
            low == id as u64,
    ;
    lemma_reversed_twice(tag);
}

/// Packing what a block holds gives the block back.
pub proof fn lemma_pack_unpack(block: u128)
    ensures
        pack(unpack(block).0, unpack(block).1) == block,
{
    let high = (block >> 64) as u64;
    let low = (block & 0xffff_ffff_ffff_ffff) as u64;
    lemma_reversed_twice(high);
    assert(((low as i64) as u64) == low) by (bit_vector);
    assert(((high as u128) << 64) | (low as u128) == block) by (bit_vector)
        requires
            high == (block >> 64) as u64,
            low == (block & 0xffff_ffff_ffff_ffff) as u64,
    ;
}

/// The sixteen bytes of the block that holds `tag` and `id`, lowest first.
pub open spec fn concat_spec(tag: u64, id: i64) -> Seq<u8> {
    spec_u128_to_le_bytes(pack(tag, id))
}

/// The tag and the row id in a block of sixteen bytes, lowest first.
pub open spec fn bisect_spec(bytes: Seq<u8>) -> (u64, i64) {
    unpack(spec_u128_from_le_bytes(bytes))
}

/// Splitting the bytes of a packed block gives the tag and the row id back.
pub proof fn lemma_bisect_concat(tag: u64, id: i64)
    ensures
        concat_spec(tag, id).len() == 16,
        bisect_spec(concat_spec(tag, id)) == (tag, id),
{
    lemma_auto_spec_u128_to_from_le_bytes();
    let block = pack(tag, id);
    assert(spec_u128_to_le_bytes(block).len() == 16);
    assert(spec_u128_from_le_bytes(spec_u128_to_le_bytes(block)) == block);
    lemma_unpack_pack(tag, id);
}

/// The bytes of what a block of sixteen bytes holds are the block.
pub proof fn lemma_concat_bisect(bytes: Seq<u8>)
    requires
        bytes.len() == 16,
    ensures
        concat_spec(bisect_spec(bytes).0, bisect_spec(bytes).1) == bytes,
{
    lemma_auto_spec_u128_to_from_le_bytes();
    let block = spec_u128_from_le_bytes(bytes);
    assert(spec_u128_to_le_bytes(block) == bytes);
    lemma_pack_unpack(block);
}

/// Packs a tag and a row id into one block of sixteen bytes.
pub fn concat(tag: u64, id: i64) -> (bytes: [u8; 16])
    ensures
        bytes@ == concat_spec(tag, id),
{
    let high: u128 = reverse_bits(tag) as u128;
    let low: u128 = (id as u64) as u128;
    let v = u128_to_le_bytes((high << 64) | low);
    let bytes: [u8; 16] = [
        v[0], v[1], v[2], v[3], v[4], v[5], v[6], v[7],
        v[8], v[9], v[10], v[11], v[12], v[13], v[14], v[15],
    ];
    assert(bytes@ =~= v@);
    bytes
}

/// Splits a block of sixteen bytes into its tag and its row id.
pub fn bisect(bytes: [u8; 16]) -> (parts: (u64, i64))
    ensures
        parts == bisect_spec(bytes@),
{
    let tagged: u128 = u128_from_le_bytes(array_as_slice(&bytes));
    let tag: u64 = reverse_bits((tagged >> 64) as u64);
    let id: u64 = (tagged & 0xffff_ffff_ffff_ffff) as u64;
    (tag, id as i64)
}

} // verus!
