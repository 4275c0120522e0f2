//! The attitude of the device, read off two axes of an accelerometer.

use vstd::prelude::*;

verus! {

/// The four attitudes that the device tells apart, named by the axis that
/// gravity pulls along.
#[derive(Clone, Copy, Debug, PartialEq, Eq, Structural)]
pub enum Orientation {
    YDown,
    XUp,
    YUp,
    XDown,
}

/// What one axis reads against its thresholds: below the negative one,
/// within the deadband, or above the positive one.
#[derive(Clone, Copy, Debug, PartialEq, Eq, Structural)]
pub enum Tilt {
    Low,
    Level,
    High,
}

/// The 16-bit signed number whose little-endian bytes are `lo` and `hi`.
pub open spec fn le_i16(lo: u8, hi: u8) -> int {
    if hi >= 128 {
        lo + 256 * hi - 65536
    } else {
        lo + 256 * hi
    }
}

/// The orientation after a sample: the x axis decides where it is out of
/// the deadband, then the y axis; with both axes level the orientation
/// stays what it was.
pub open spec fn classified(previous: Orientation, x: Tilt, y: Tilt) -> Orientation {
    match x {
        Tilt::High => Orientation::XUp,
        Tilt::Low => Orientation::XDown,
        Tilt::Level => match y {
            Tilt::High => Orientation::YUp,
            Tilt::Low => Orientation::YDown,
            Tilt::Level => previous,
        },
    }
}

/// The acceleration along x and y, in sensor counts, of a reading of four
/// bytes: two little-endian 16-bit signed numbers. A reading that failed
/// counts as no acceleration at all.
pub fn decode_sample(reading: Option<[u8; 4]>) -> (sample: (i16, i16))
    ensures
        reading matches Some(bytes) ==> sample.0 == le_i16(bytes@[0], bytes@[1]),
        reading matches Some(bytes) ==> sample.1 == le_i16(bytes@[2], bytes@[3]),
        reading is None ==> sample == (0i16, 0i16),
{
    match reading {
        Some(bytes) => (signed_le(bytes[0], bytes[1]), signed_le(bytes[2], bytes[3])),
        None => (0, 0),
    }
}

/// The 16-bit signed number whose little-endian bytes are `lo` and `hi`.
pub fn signed_le(lo: u8, hi: u8) -> (value: i16)
    ensures
        value == le_i16(lo, hi),
{
    if hi >= 128 {
        let high: i16 = hi as i16 - 256;
        256 * high + lo as i16
    } else {
        256 * (hi as i16) + lo as i16
    }
}

/// Updates the orientation from what the two axes read.
pub fn classify(previous: Orientation, x: Tilt, y: Tilt) -> (now: Orientation)
    ensures
        now == classified(previous, x, y),
{
    match x {
        Tilt::High => Orientation::XUp,
        Tilt::Low => Orientation::XDown,
        Tilt::Level => match y {
            Tilt::High => Orientation::YUp,
            Tilt::Low => Orientation::YDown,
            Tilt::Level => previous,
        },
    }
}

/// A sample within the deadband on both axes changes nothing: an
/// orientation, once taken, stays until a threshold is crossed.
pub proof fn lemma_level_sample_keeps_orientation(previous: Orientation, y: Tilt)
    ensures
        classified(previous, Tilt::Level, Tilt::Level) == previous,
        classified(classified(previous, Tilt::High, y), Tilt::Level, Tilt::Level)
            == Orientation::XUp,
{
}

/// Where the x axis is out of the deadband, the y axis and the previous
/// orientation do not matter.
pub proof fn lemma_x_axis_decides_first(p: Orientation, q: Orientation, x: Tilt, y: Tilt, z: Tilt)
    requires
        x != Tilt::Level,
    ensures
        classified(p, x, y) == classified(q, x, z),
{
}

} // verus!
