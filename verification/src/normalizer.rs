//! Scaling of absolute axis values onto the virtual desktop range.

use vstd::prelude::*;

verus! {

/// Maps values of one absolute axis from the device's own range onto the
/// 16-bit range a virtual desktop coordinate expects.
#[derive(Clone, Copy, Debug)]
pub struct AxisNormalizer {
    pub min: i32,
    pub max: i32,
}

/// What `normalize` computes: zero on a degenerate range, otherwise the
/// scaled value.
pub open spec fn spec_normalize(min: int, max: int, value: int) -> int {
    if max == min {
        0
    } else {
        (value * 65535 - min) / (max - min)
    }
}

impl AxisNormalizer {
    /// A normalizer for a device range.
    pub fn new(min: i32, max: i32) -> (r: AxisNormalizer)
        ensures
            r == (AxisNormalizer { min, max }),
    {
        AxisNormalizer { min, max }
    }

    /// The scaled value.  The range must be non-negative and the value
    /// inside it, and the scaled result must fit the output type; outside
    /// those machine limits the arithmetic would overflow.
    pub fn normalize(&self, value: i32) -> (r: i32)
        requires
            0 <= self.min,
            self.min <= self.max,
            self.min <= value <= self.max,
            spec_normalize(self.min as int, self.max as int, value as int) <= i32::MAX,
        ensures
            r == spec_normalize(self.min as int, self.max as int, value as int),
    {
        if self.max == self.min {
            return 0;
        }
        let num: u64 = (value as u64) * 65535 - (self.min as u64);
        let den: u64 = (self.max - self.min) as u64;
        let q: u64 = num / den;
        proof {
            assert(q == spec_normalize(self.min as int, self.max as int, value as int));
        }
        q as i32
    }
}

} // verus!
