//! Filtering and scaling of raw analog temperature samples. The raw
//! sampling stays outside; the node hands in five ADC readings, the
//! extremes are discarded and the middle three averaged, and the result
//! is scaled to tenths of a degree for the sensor-data payload. The
//! calibration works in tenths of a degree so the whole computation
//! stays on integers.

use vstd::prelude::*;

verus! {

/// The smaller of two readings.
pub open spec fn spec_min2(a: u16, b: u16) -> u16 {
    if a <= b {
        a
    } else {
        b
    }
}

/// The larger of two readings.
pub open spec fn spec_max2(a: u16, b: u16) -> u16 {
    if a >= b {
        a
    } else {
        b
    }
}

/// The smallest of five readings.
pub open spec fn spec_min5(r: Seq<u16>) -> u16 {
    spec_min2(spec_min2(spec_min2(r[0], r[1]), spec_min2(r[2], r[3])), r[4])
}

/// The largest of five readings.
pub open spec fn spec_max5(r: Seq<u16>) -> u16 {
    spec_max2(spec_max2(spec_max2(r[0], r[1]), spec_max2(r[2], r[3])), r[4])
}

/// The sum of five readings.
pub open spec fn spec_sum5(r: Seq<u16>) -> int {
    r[0] + r[1] + r[2] + r[3] + r[4]
}

/// The outlier-filtered average: the five readings without their smallest
/// and largest, averaged.
pub open spec fn spec_filtered_average(r: Seq<u16>) -> int {
    (spec_sum5(r) - spec_min5(r) - spec_max5(r)) / 3
}

/// The extremes are genuine readings, so removing them leaves the sum of
/// exactly three readings: never negative and never above three times the
/// largest possible reading.
pub proof fn lemma_middle_sum_bounds(r: Seq<u16>)
    requires
        r.len() == 5,
    ensures
        0 <= spec_sum5(r) - spec_min5(r) - spec_max5(r) <= 3 * 0xFFFF,
{
}

/// Averages five raw readings after discarding the smallest and the
/// largest.
#[verifier::rlimit(100)]
pub fn filtered_average(r: &[u16; 5]) -> (avg: u16)
    ensures
        avg == spec_filtered_average(r@),
{
    let min1 = if r[0] <= r[1] {
        r[0]
    } else {
        r[1]
    };
    let min2 = if r[2] <= r[3] {
        r[2]
    } else {
        r[3]
    };
    let min3 = if min1 <= min2 {
        min1
    } else {
        min2
    };
    let mn = if min3 <= r[4] {
        min3
    } else {
        r[4]
    };
    let max1 = if r[0] >= r[1] {
        r[0]
    } else {
        r[1]
    };
    let max2 = if r[2] >= r[3] {
        r[2]
    } else {
        r[3]
    };
    let max3 = if max1 >= max2 {
        max1
    } else {
        max2
    };
    let mx = if max3 >= r[4] {
        max3
    } else {
        r[4]
    };
    let sum: u32 = r[0] as u32 + r[1] as u32 + r[2] as u32 + r[3] as u32 + r[4] as u32;
    proof {
        assert(mn == spec_min5(r@));
        assert(mx == spec_max5(r@));
        lemma_middle_sum_bounds(r@);
    }
    let middle = sum - mn as u32 - mx as u32;
    (middle / 3) as u16
}

/// A reading scaled to tenths of a degree: a 12-bit sample against a
/// 3.3-volt reference, ten millivolts per degree, so 3300 tenths over the
/// full 4095-count range.
pub open spec fn spec_temp_tenths(reading: u16) -> int {
    (reading * 3300) / 4095
}

/// Scales a filtered reading to tenths of a degree.
pub fn temp_tenths_from_reading(reading: u16) -> (tenths: u64)
    ensures
        tenths == spec_temp_tenths(reading),
{
    (reading as u64 * 3300) / 4095
}

/// An indoor-plausible temperature: at most 60.0 degrees. Readings above
/// are treated as sensor faults and dropped for the cycle.
pub fn temp_in_range(tenths: u64) -> (r: bool)
    ensures
        r == (tenths <= 600),
{
    tenths <= 600
}

} // verus!
