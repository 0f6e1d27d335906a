//! The wire frame: four bytes per gauge, the slot index first, then the
//! three most significant bytes of the value's 32-bit little-endian float.

use vstd::prelude::*;

use crate::config::MAX_CHANNEL;

verus! {

/// The frame for one gauge: `slot`, then bytes 1, 2 and 3 of the
/// little-endian encoding of `bits` (byte 0, the least significant one,
/// gives way to the slot).
pub open spec fn frame_of(slot: u8, bits: u32) -> Seq<u8> {
    seq![
        slot,
        ((bits as int / 0x100) % 0x100) as u8,
        ((bits as int / 0x1_0000) % 0x100) as u8,
        (bits as int / 0x100_0000) as u8,
    ]
}

/// The frames of one tick: the value in position `k` goes out in slot `k`
/// (modulo 256, the range of the slot byte).
pub open spec fn frames_of(values: Seq<u32>) -> Seq<Seq<u8>> {
    Seq::new(values.len(), |k: int| frame_of((k % 256) as u8, values[k]))
}

/// Encodes one gauge value, given as the bit pattern of its `f32`, for
/// the given slot.
pub fn encode_frame(slot: u8, bits: u32) -> (r: [u8; 4])
    ensures
        r@ == frame_of(slot, bits),
{
    let b1 = ((bits >> 8u32) & 0xffu32) as u8;
    let b2 = ((bits >> 16u32) & 0xffu32) as u8;
    let b3 = (bits >> 24u32) as u8;
    proof {
        assert(((bits >> 8u32) & 0xffu32) == (bits / 0x100u32) % 0x100u32) by (bit_vector);
        assert(((bits >> 16u32) & 0xffu32) == (bits / 0x1_0000u32) % 0x100u32) by (bit_vector);
        assert((bits >> 24u32) == bits / 0x100_0000u32) by (bit_vector);
        assert(bits / 0x100_0000u32 < 0x100u32) by (bit_vector);
    }
    let r = [slot, b1, b2, b3];
    assert(r@ =~= frame_of(slot, bits));
    r
}

/// Encodes the values of one tick, one frame per value, in slot order.
pub fn encode_frames(values: &Vec<u32>) -> (r: Vec<[u8; 4]>)
    ensures
        r.len() == values.len(),
        forall|k: int| 0 <= k < r.len() ==> (#[trigger] r[k])@ == frames_of(values@)[k],
{
    let mut r: Vec<[u8; 4]> = Vec::new();
    let mut k: usize = 0;
    while k < values.len()
        invariant
            k <= values.len(),
            r.len() == k,
            forall|j: int| 0 <= j < k ==> (#[trigger] r[j])@ == frames_of(values@)[j],
        decreases values.len() - k,
    {
        let f = encode_frame((k % 256) as u8, values[k]);
        r.push(f);
        k = k + 1;
    }
    r
}

/// A zero value goes out as its slot followed by three zero bytes.
pub proof fn lemma_zero_frame(slot: u8)
    ensures
        frame_of(slot, 0) == seq![slot, 0u8, 0u8, 0u8],
{
    assert(frame_of(slot, 0) =~= seq![slot, 0u8, 0u8, 0u8]);
}

/// Slot stability: whatever the gauges are, the frame of the `k`-th value
/// of a tick carries `k` as its slot byte, for a tick of at most
/// `MAX_CHANNEL` values.
pub proof fn lemma_slot_stability(values: Seq<u32>, k: int)
    requires
        0 <= k < values.len() <= MAX_CHANNEL,
    ensures
        frames_of(values)[k][0] == k,
{
}

} // verus!
