//! The per-sample volume transform.

use vstd::prelude::*;

verus! {

/// What a sample becomes at a volume level: shifted right by
/// `8 - volume` bits, so level 8 plays the sample as it is and level 1
/// leaves only its topmost bit.
pub open spec fn spec_scaled(sample: u8, volume: u8) -> u8
    recommends
        1 <= volume <= 8,
{
    sample >> (8 - volume) as u8
}

/// Apply the volume transform in place to the first `count` bytes of a
/// block; the rest of the block is left alone.
pub fn apply_volume(buf: &mut Vec<u8>, count: usize, volume: u8)
    requires
        1 <= volume <= 8,
        count <= old(buf)@.len(),
    ensures
        final(buf)@.len() == old(buf)@.len(),
        forall|i: int| 0 <= i < count ==> final(buf)@[i] == spec_scaled(old(buf)@[i], volume),
        forall|i: int| count <= i < old(buf)@.len() ==> final(buf)@[i] == old(buf)@[i],
{
    let shift: u8 = 8 - volume;
    let mut i: usize = 0;
    while i < count
        invariant
            i <= count,
            count <= buf@.len(),
            shift == 8 - volume,
            1 <= volume <= 8,
            buf@.len() == old(buf)@.len(),
            forall|k: int| 0 <= k < i ==> buf@[k] == spec_scaled(old(buf)@[k], volume),
            forall|k: int| i <= k < buf@.len() ==> buf@[k] == old(buf)@[k],
        decreases count - i,
    {
        let scaled = buf[i] >> shift;
        buf[i] = scaled;
        i = i + 1;
    }
}

/// Scaling a track piecewise is scaling it whole: the volume transform
/// of two adjacent stretches, laid end to end, is the transform of the
/// combined stretch.
pub proof fn lemma_scaled_concat(data: Seq<u8>, a: int, b: int, c: int, volume: u8)
    requires
        0 <= a <= b <= c <= data.len(),
    ensures
        data.subrange(a, b).map_values(|x: u8| spec_scaled(x, volume)) + data.subrange(
            b,
            c,
        ).map_values(|x: u8| spec_scaled(x, volume)) == data.subrange(a, c).map_values(
            |x: u8| spec_scaled(x, volume),
        ),
{
    let lhs = data.subrange(a, b).map_values(|x: u8| spec_scaled(x, volume)) + data.subrange(
        b,
        c,
    ).map_values(|x: u8| spec_scaled(x, volume));
    let rhs = data.subrange(a, c).map_values(|x: u8| spec_scaled(x, volume));
    assert(lhs.len() == rhs.len());
    assert forall|i: int| 0 <= i < rhs.len() implies lhs[i] == rhs[i] by {
        if i < b - a {
            assert(lhs[i] == spec_scaled(data[a + i], volume));
        } else {
            assert(lhs[i] == spec_scaled(data[b + (i - (b - a))], volume));
        }
        assert(rhs[i] == spec_scaled(data[a + i], volume));
    }
    assert(lhs =~= rhs);
}

/// Volume level 8 is the identity transform.
pub proof fn lemma_volume_identity(sample: u8)
    ensures
        spec_scaled(sample, 8) == sample,
{
    assert(sample >> 0u8 == sample) by (bit_vector);
}

/// Volume level 1 maps any input to at most 1.
pub proof fn lemma_volume_floor(sample: u8)
    ensures
        spec_scaled(sample, 1) <= 1,
{
    assert(sample >> 7u8 <= 1) by (bit_vector);
}

} // verus!
