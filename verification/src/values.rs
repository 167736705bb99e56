use vstd::prelude::*;

verus! {

/// A 32-bit floating-point number carried by its IEEE-754 bit pattern (what `f32::to_bits`
/// gives), so that it passes through the library unchanged.
#[derive(Clone, Copy, Debug, PartialEq, Eq, Structural)]
pub struct F32Bits {
    pub bits: u32,
}

/// The bit pattern of `0.001f32`.
pub const THOUSANDTH_BITS: u32 = 0x3a83_126f;

/// Whether the magnitude of the number is below `0.001f32`, as `x.abs() < 0.001` decides it.
/// For IEEE-754 numbers the magnitude is the pattern without its sign bit, and magnitudes are
/// ordered as those patterns are; a NaN pattern lies above every finite one, and a NaN compares
/// false, as it does here.
pub open spec fn below_thousandth(x: F32Bits) -> bool {
    (x.bits & 0x7fff_ffffu32) < THOUSANDTH_BITS
}

impl F32Bits {
    /// Whether the magnitude of this number is below `0.001`.
    pub fn is_below_thousandth(&self) -> (r: bool)
        ensures
            r == below_thousandth(*self),
    {
        (self.bits & 0x7fff_ffffu32) < THOUSANDTH_BITS
    }
}

/// A travel speed: the number, and the text by which it is written into G-code (the number's
/// decimal display).
#[derive(Debug)]
pub struct TravelSpeed {
    pub value: F32Bits,
    pub text: String,
}

impl TravelSpeed {
    /// A copy of this speed.
    pub fn copy(&self) -> (r: TravelSpeed)
        ensures
            r == *self,
    {
        TravelSpeed { value: self.value, text: self.text.clone() }
    }
}


/// What an extruder description says: nozzle and filament diameters, nozzle offsets, and the
/// G-code that selects and deselects the extruder.
pub struct ExtruderView {
    pub nozzle: F32Bits,
    pub filament: F32Bits,
    pub offset_x: F32Bits,
    pub offset_y: F32Bits,
    pub select: Seq<char>,
    pub deselect: Seq<char>,
}


/// Whether a number is below 0.001 does not depend on its sign, and a number of no larger
/// magnitude than one below 0.001 is below it too; 0.001 itself is not below it, and the largest
/// `f32` under it is.
pub proof fn lemma_thousandth_threshold(x: F32Bits, y: F32Bits)
    ensures
        below_thousandth(x) == below_thousandth(F32Bits { bits: x.bits ^ 0x8000_0000u32 }),
        (y.bits & 0x7fff_ffffu32) <= (x.bits & 0x7fff_ffffu32) && below_thousandth(x)
            ==> below_thousandth(y),
        !below_thousandth(F32Bits { bits: 0x3a83_126fu32 }),
        below_thousandth(F32Bits { bits: 0x3a83_126eu32 }),
{
    let b = x.bits;
    assert((b ^ 0x8000_0000u32) & 0x7fff_ffffu32 == b & 0x7fff_ffffu32) by (bit_vector);
    assert(0x3a83_126fu32 & 0x7fff_ffffu32 == 0x3a83_126fu32) by (bit_vector);
    assert(0x3a83_126eu32 & 0x7fff_ffffu32 == 0x3a83_126eu32) by (bit_vector);
}

} // verus!
