use vstd::prelude::*;

verus! {

pub const BLOCK_SIZE: usize = 1024 * 8;

/// The size of the cartridge's character ROM, in blocks of 8 KiB.
#[derive(Clone, Copy, Debug, PartialEq, Eq, Structural)]
pub struct Size(pub u8);

impl Size {
    pub fn in_blocks(&self) -> (r: u8)
        ensures
            r == self.0,
    {
        self.0
    }

    pub fn in_bytes(&self) -> (r: usize)
        ensures
            r == self.0 * BLOCK_SIZE,
    {
        (self.in_blocks() as usize) * BLOCK_SIZE
    }
}

} // verus!
