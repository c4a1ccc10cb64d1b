use vstd::prelude::*;

verus! {

/// A 16-bit value split into its two bytes, low byte first as the 6502 stores it.
#[derive(Clone, Copy, Debug, PartialEq, Eq, Structural)]
pub struct Word {
    pub low: u8,
    pub high: u8,
}

/// The 16-bit value whose low byte is `low` and whose high byte is `high`.
pub open spec fn join(low: u8, high: u8) -> u16 {
    (low as int + 256 * high as int) as u16
}

impl Word {
    pub open spec fn value(self) -> u16 {
        join(self.low, self.high)
    }

    /// Splits `value` into its low and high bytes.
    pub fn from_u16(value: u16) -> (r: Word)
        ensures
            r.low == value % 256,
            r.high == value / 256,
            r.value() == value,
    {
        let r = Word { low: (value & 0xff) as u8, high: (value >> 8) as u8 };
        assert(value & 0xff == value % 256) by (bit_vector);
        assert(value >> 8 == value / 256) by (bit_vector);
        r
    }

    /// Joins the two bytes into one 16-bit value.
    pub fn to_u16(self) -> (r: u16)
        ensures
            r == self.value(),
    {
        let low = self.low;
        let high = self.high;
        let r = (low as u16) | ((high as u16) << 8);
        assert((low as u16) | ((high as u16) << 8) == low as int + 256 * high as int) by (bit_vector);
        r
    }
}

} // verus!
