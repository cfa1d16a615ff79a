//! The audio pattern: 16 bytes that stand for 128 samples of one bit.

use vstd::prelude::*;

verus! {

/// Number of samples in a pattern.
pub const PATTERN_SAMPLES: usize = 128;

/// Sample `k` of the pattern `buffer`: the bits of each byte in turn, the
/// highest first.
pub open spec fn spec_sample(buffer: Seq<u8>, k: int) -> bool {
    (buffer[k / 8] >> ((7 - k % 8) as u8)) & 1 == 1
}

/// The samples of the pattern `buffer`, in the order in which they sound.
pub fn pattern_samples(buffer: &[u8; 16]) -> (samples: Vec<bool>)
    ensures
        samples@.len() == PATTERN_SAMPLES,
        forall|k: int| 0 <= k < PATTERN_SAMPLES ==> samples@[k] == spec_sample(buffer@, k),
{
    let mut samples: Vec<bool> = Vec::new();
    let mut i: usize = 0;
    while i < 16
        invariant
            i <= 16,
            samples@.len() == 8 * i,
            forall|k: int| 0 <= k < 8 * i ==> samples@[k] == spec_sample(buffer@, k),
        decreases 16 - i,
    {
        let byte = buffer[i];
        let mut idx_bit: u8 = 0;
        while idx_bit < 8
            invariant
                i < 16,
                idx_bit <= 8,
                byte == buffer@[i as int],
                samples@.len() == 8 * i + idx_bit,
                forall|k: int| 0 <= k < 8 * i + idx_bit ==> samples@[k] == spec_sample(buffer@, k),
            decreases 8 - idx_bit,
        {
            let bit = (byte >> (7 - idx_bit)) & 1 == 1;
            proof {
                let k = 8 * i + idx_bit;
                assert(k / 8 == i && k % 8 == idx_bit);
            }
            samples.push(bit);
            idx_bit += 1;
        }
        i += 1;
    }
    samples
}

} // verus!
