//! Byte-level encoding helpers of the Pololu protocol.

use vstd::prelude::*;

verus! {

/// The two data bytes that carry `microsec` on the wire: its seven low-order
/// bits first, then the next seven. The two top bits of the value are not
/// carried.
pub open spec fn target_bytes(microsec: u16) -> (u8, u8) {
    ((microsec % 128) as u8, ((microsec / 128) % 128) as u8)
}

/// Given a `u8`, clears the top bit by applying a mask to it.
pub fn mask_byte(byte: u8) -> (masked: u8)
    ensures
        masked == byte & 0x7f,
        masked == byte % 128,
        masked & 0x80 == 0,
{
    let top_mask: u8 = 0x7fu8;
    assert(byte & 0x7f == byte % 128) by (bit_vector);
    assert((byte & 0x7f) & 0x80 == 0) by (bit_vector);
    byte & top_mask
}

/// The Pololu protocol requires that a `u16` be split in a specific manner
/// before it is embedded in a frame.
///
/// 1. Bits 0 to 6, padded with a 0 in bit 7, form the lower byte.
/// 2. Bits 7 to 13, shifted down by 7 and padded with a 0 in bit 7, form the
///    upper byte.
///
/// Bits 14 and 15 are left out, as the protocol requires.
pub fn microsec_to_target(microsec: u16) -> (bytes: (u8, u8))
    ensures
        bytes == target_bytes(microsec),
        bytes.0 & 0x80 == 0,
        bytes.1 & 0x80 == 0,
{
    let down_shift: usize = 7usize;
    let shifted: u16 = microsec >> down_shift;
    assert(microsec >> 7usize == microsec / 128) by (bit_vector);
    assert((microsec as u8) % 128 == microsec % 128) by (bit_vector);
    assert(((microsec / 128) as u8) % 128 == (microsec / 128) % 128) by (bit_vector);
    let lower = mask_byte(microsec as u8);
    let upper = mask_byte(shifted as u8);
    (lower, upper)
}

/// The two data bytes of a frame together carry exactly the fourteen low-order
/// bits of the value they were made from.
pub proof fn lemma_target_bytes_carry_fourteen_bits(microsec: u16)
    ensures
        target_bytes(microsec).0 < 128,
        target_bytes(microsec).1 < 128,
        target_bytes(microsec).0 + 128 * target_bytes(microsec).1 == microsec % 16384,
{
}

/// Neither data byte of a frame has its top bit set.
pub proof fn lemma_target_bytes_top_bit_clear(microsec: u16)
    ensures
        target_bytes(microsec).0 & 0x80 == 0,
        target_bytes(microsec).1 & 0x80 == 0,
{
    let (low, high) = target_bytes(microsec);
    assert(low < 128 ==> low & 0x80 == 0) by (bit_vector);
    assert(high < 128 ==> high & 0x80 == 0) by (bit_vector);
}

/// Whether bit number `bit` of `data` is set.
pub open spec fn bit_is_set(data: u16, bit: u16) -> bool {
    (data >> bit) & 1 == 1
}

/// The positions below `upto` at which `data` has a bit set, in ascending
/// order.
pub open spec fn active_positions(data: u16, upto: nat) -> Seq<u16>
    decreases upto,
{
    if upto == 0 {
        Seq::empty()
    } else {
        let below = active_positions(data, (upto - 1) as nat);
        if bit_is_set(data, (upto - 1) as u16) {
            below.push((upto - 1) as u16)
        } else {
            below
        }
    }
}

/// What `active_positions` holds: only positions below `upto` whose bit is
/// set, each of them, and in strictly ascending order.
pub proof fn lemma_active_positions(data: u16, upto: nat)
    requires
        upto <= 16,
    ensures
        active_positions(data, upto).len() <= upto,
        forall|i: int|
            0 <= i < active_positions(data, upto).len() ==> {
                &&& (#[trigger] active_positions(data, upto)[i]) < upto
                &&& bit_is_set(data, active_positions(data, upto)[i])
            },
        forall|bit: u16|
            bit < upto && #[trigger] bit_is_set(data, bit) ==> active_positions(
                data,
                upto,
            ).contains(bit),
        forall|i: int, j: int|
            0 <= i < j < active_positions(data, upto).len() ==> (#[trigger] active_positions(
                data,
                upto,
            )[i]) < #[trigger] active_positions(data, upto)[j],
    decreases upto,
{
    if upto > 0 {
        let below = active_positions(data, (upto - 1) as nat);
        let top = (upto - 1) as u16;
        lemma_active_positions(data, (upto - 1) as nat);
        if bit_is_set(data, top) {
            let all = below.push(top);
            assert(all[below.len() as int] == top);
            assert forall|bit: u16|
                bit < upto && #[trigger] bit_is_set(data, bit) implies all.contains(bit) by {
                if bit == top {
                    assert(all[below.len() as int] == bit);
                } else {
                    assert(below.contains(bit));
                    let k = choose|k: int| 0 <= k < below.len() && below[k] == bit;
                    assert(all[k] == bit);
                }
            }
        }
    }
}

/// Bits of `data` at or above position `upto` have no part in
/// `active_positions(data, upto)`.
pub proof fn lemma_active_positions_ignore_high_bits(first: u16, second: u16, upto: nat)
    requires
        upto <= 16,
        forall|bit: u16| bit < upto ==> bit_is_set(first, bit) == bit_is_set(second, bit),
    ensures
        active_positions(first, upto) == active_positions(second, upto),
    decreases upto,
{
    if upto > 0 {
        lemma_active_positions_ignore_high_bits(first, second, (upto - 1) as nat);
    }
}

} // verus!
