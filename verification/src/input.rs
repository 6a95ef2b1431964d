//! The one piece of the input subsystem that is logic rather than hardware:
//! mapping a raw 12-bit analog reading onto an engineering range.  Reading
//! the converter itself is the input collaborator's job; this function turns
//! whatever it hands back into a setpoint the driver understands.

use vstd::prelude::*;

verus! {

/// What the mapping returns: the raw reading, saturated to the 12-bit
/// range, scaled linearly onto `[out_min, out_max]` with truncating
/// division.
pub open spec fn ain_map_spec(raw: u16, out_min: u32, out_max: u32) -> int {
    let x = if raw > 4095 {
        4095 as int
    } else {
        raw as int
    };
    x * (out_max - out_min) / 4095 + out_min
}

/// Maps a raw analog reading onto the range `[out_min, out_max]`: zero maps
/// to `out_min`, a full-scale reading to `out_max`.
pub fn ain_map(raw: u16, out_min: u32, out_max: u32) -> (mapped: u32)
    requires
        out_min <= out_max,
        (out_max - out_min) * 4095 <= u32::MAX,
    ensures
        mapped == ain_map_spec(raw, out_min, out_max),
        out_min <= mapped <= out_max,
{
    let x: u32 = if raw > 4095 {
        4095
    } else {
        raw as u32
    };
    let span: u32 = out_max - out_min;
    proof {
        assert(x * span <= 4095 * span) by (nonlinear_arith)
            requires
                x <= 4095,
                span >= 0,
        ;
        vstd::arithmetic::div_mod::lemma_div_is_ordered(x * span, 4095 * span, 4095);
        vstd::arithmetic::div_mod::lemma_div_by_multiple(span as int, 4095);
        assert(4095 * span == span * 4095) by (nonlinear_arith);
    }
    let scaled: u32 = x * span;
    scaled / 4095 + out_min
}

} // verus!
