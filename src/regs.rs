use vstd::prelude::*;

verus! {

/// A value read from the DMA channel 1 debug register.
#[derive(Debug, Clone, Copy, PartialEq, Eq, Structural)]
pub struct R {
    pub bits: u32,
}

impl R {
    /// Bits 0..=5: the transfer-request counter of DMA channel 1.
    pub fn ch1_dbg_ctdreq(&self) -> (r: u8)
        ensures
            r == self.bits % 64,
    {
        let b: u32 = self.bits;
        let v: u32 = b & 0x3f;
        assert(b & 0x3f == b % 64) by (bit_vector);
        v as u8
    }
}

} // verus!
