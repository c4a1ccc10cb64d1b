use vstd::prelude::*;

verus! {

pub const CARRY: u8 = 0b0000_0001;

pub const ZERO: u8 = 0b0000_0010;

pub const INTERRUPT_DISABLE: u8 = 0b0000_0100;

pub const DECIMAL_MODE: u8 = 0b0000_1000;

pub const BREAK_COMMAND: u8 = 0b0001_0000;

pub const UNUSED: u8 = 0b0010_0000;

pub const OVERFLOW: u8 = 0b0100_0000;

pub const NEGATIVE: u8 = 0b1000_0000;

/// The processor status register P, one bit per flag.
#[derive(Clone, Copy, Debug, PartialEq, Eq, Structural)]
pub struct Flags {
    pub bits: u8,
}

/// The single-bit masks of the eight flags.
pub open spec fn is_flag(mask: u8) -> bool {
    mask == CARRY || mask == ZERO || mask == INTERRUPT_DISABLE || mask == DECIMAL_MODE
        || mask == BREAK_COMMAND || mask == UNUSED || mask == OVERFLOW || mask == NEGATIVE
}

impl Flags {
    pub open spec fn has(self, mask: u8) -> bool {
        self.bits & mask != 0
    }

    /// The register with the bits of `mask` set when `on` holds and cleared otherwise.
    pub open spec fn with(self, mask: u8, on: bool) -> Flags {
        if on {
            Flags { bits: self.bits | mask }
        } else {
            Flags { bits: self.bits & !mask }
        }
    }

    /// NEGATIVE and ZERO set from a result byte.
    pub open spec fn with_nz(self, r: u8) -> Flags {
        self.with(NEGATIVE, r >= 128).with(ZERO, r == 0)
    }

    pub fn from_bits_retain(bits: u8) -> (r: Flags)
        ensures
            r.bits == bits,
    {
        Flags { bits }
    }

    pub fn bits(&self) -> (r: u8)
        ensures
            r == self.bits,
    {
        self.bits
    }

    pub fn contains(&self, mask: u8) -> (r: bool)
        ensures
            r == self.has(mask),
    {
        self.bits & mask != 0
    }

    pub fn set(&mut self, mask: u8, on: bool)
        ensures
            *final(self) == old(self).with(mask, on),
    {
        if on {
            self.bits = self.bits | mask;
        } else {
            self.bits = self.bits & !mask;
        }
    }

    /// Sets NEGATIVE from bit 7 of `r` and ZERO from whether `r` is zero.
    pub fn set_nz(&mut self, r: u8)
        ensures
            *final(self) == old(self).with_nz(r),
    {
        self.set(NEGATIVE, r >= 0x80);
        self.set(ZERO, r == 0);
    }
}

/// Setting or clearing one flag decides that flag and leaves every other flag as it was.
pub proof fn lemma_with(f: Flags, mask: u8, on: bool, other: u8)
    requires
        is_flag(mask),
        is_flag(other),
    ensures
        f.with(mask, on).has(mask) == on,
        other != mask ==> f.with(mask, on).has(other) == f.has(other),
{
    let b = f.bits;
    assert(is_flag(mask) && is_flag(other) ==> (b | mask) & mask != 0 && (b & !mask) & mask == 0
        && (other != mask ==> ((b | mask) & other != 0) == (b & other != 0) && ((b & !mask) & other
        != 0) == (b & other != 0))) by (bit_vector);
}

/// `lemma_with` for every register, flag and value at once.
pub proof fn lemma_with_all()
    ensures
        forall|f: Flags, mask: u8, on: bool, other: u8|
            is_flag(mask) && is_flag(other) ==> #[trigger] f.with(mask, on).has(other) == if other
                == mask {
                on
            } else {
                f.has(other)
            },
{
    assert forall|f: Flags, mask: u8, on: bool, other: u8|
        is_flag(mask) && is_flag(other) implies #[trigger] f.with(mask, on).has(other) == if other
            == mask {
            on
        } else {
            f.has(other)
        } by {
        lemma_with(f, mask, on, other);
    }
}

} // verus!
