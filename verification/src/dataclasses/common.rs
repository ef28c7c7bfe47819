use vstd::prelude::*;

verus! {

/// A colour, as the integer of its hexadecimal code (`0xRRGGBB`).
#[derive(Clone, Copy, Debug, PartialEq, Eq, Hash, Structural)]
pub struct HexCode {
    pub value: u32,
}

impl HexCode {
    /// The largest colour: `0xFFFFFF`.
    pub const MAX: u32 = 0xff_ffff;

    /// The colour with this code, or `None` where the code has more than
    /// 24 bits.
    pub fn new(value: u32) -> (r: Option<HexCode>)
        ensures
            value <= HexCode::MAX <==> r is Some,
            r matches Some(c) ==> c.value == value,
    {
        if value <= HexCode::MAX {
            Some(HexCode { value })
        } else {
            None
        }
    }

    /// Red, green and blue, each from 0 to 255.
    pub fn from_rgb(red: u8, green: u8, blue: u8) -> (r: HexCode)
        ensures
            r.value == red as u32 * 65536 + green as u32 * 256 + blue as u32,
            r.value <= HexCode::MAX,
    {
        HexCode { value: red as u32 * 65536 + green as u32 * 256 + blue as u32 }
    }
}

} // verus!
