//! The figures of the line that reports each round.
use vstd::prelude::*;

verus! {

/// `t` millidegrees Celsius in tenths of a degree, halves rounded away from
/// zero.
pub open spec fn rounded_tenths(t: int) -> int {
    if t >= 0 {
        (t + 50) / 100
    } else {
        -((-t + 50) / 100)
    }
}

/// A temperature to one decimal place: `whole.tenth` degrees Celsius, with
/// a minus sign when `negative`.
#[derive(Clone, Copy, Debug, PartialEq, Eq, Structural)]
pub struct OneDecimal {
    pub negative: bool,
    pub whole: u64,
    pub tenth: u8,
}

impl OneDecimal {
    /// The value in tenths of a degree.
    pub open spec fn tenths(self) -> int {
        let magnitude = self.whole * 10 + self.tenth;
        if self.negative {
            -magnitude
        } else {
            magnitude
        }
    }
}

/// Rounds a temperature in millidegrees Celsius to one decimal place.
pub fn one_decimal(millidegrees: i64) -> (r: OneDecimal)
    ensures
        r.tenths() == rounded_tenths(millidegrees as int),
        r.tenth < 10,
        r.negative == (rounded_tenths(millidegrees as int) < 0),
{
    let wide = millidegrees as i128;
    let magnitude: i128 = if wide >= 0 {
        (wide + 50) / 100
    } else {
        (-wide + 50) / 100
    };
    OneDecimal {
        negative: wide < 0 && magnitude > 0,
        whole: (magnitude / 10) as u64,
        tenth: (magnitude % 10) as u8,
    }
}

} // verus!
