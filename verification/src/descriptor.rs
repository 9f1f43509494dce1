//! DMA descriptors: the four 32-bit words that the CPU and the DMA engine hand back and
//! forth. These are values; the platform layer loads and stores them in DMA memory.
use crate::regs::dma::{DESC_OWN, RDES3_RDES0_VALID};
use vstd::prelude::*;

verus! {

/// A normal (non-extended) DMA descriptor.
#[derive(PartialEq, Eq, Structural, Clone, Copy, Debug)]
pub struct DmaDescriptor {
    /// Buffer 1 address (low 32 bits) or additional info.
    des0: u32,
    /// Buffer 2 address (low 32 bits) or additional info.
    des1: u32,
    /// Buffer sizes, VLAN tag, control bits.
    des2: u32,
    /// Control bits, packet length, status.
    des3: u32,
}

impl DmaDescriptor {
    pub closed spec fn w0(&self) -> u32 {
        self.des0
    }

    pub closed spec fn w1(&self) -> u32 {
        self.des1
    }

    pub closed spec fn w2(&self) -> u32 {
        self.des2
    }

    pub closed spec fn w3(&self) -> u32 {
        self.des3
    }

    /// Whether the DMA engine owns the descriptor.
    pub open spec fn owned(&self) -> bool {
        self.w3() & DESC_OWN != 0
    }

    /// The descriptor with words `des0` to `des3`, as loaded from DMA memory.
    pub fn from_raw(des0: u32, des1: u32, des2: u32, des3: u32) -> (d: Self)
        ensures
            d.w0() == des0,
            d.w1() == des1,
            d.w2() == des2,
            d.w3() == des3,
    {
        DmaDescriptor { des0, des1, des2, des3 }
    }

    pub fn des0(&self) -> (r: u32)
        ensures
            r == self.w0(),
    {
        self.des0
    }

    pub fn set_des0(&mut self, des0: u32)
        ensures
            final(self).w0() == des0,
            final(self).w1() == old(self).w1(),
            final(self).w2() == old(self).w2(),
            final(self).w3() == old(self).w3(),
    {
        self.des0 = des0;
    }

    pub fn des1(&self) -> (r: u32)
        ensures
            r == self.w1(),
    {
        self.des1
    }

    pub fn set_des1(&mut self, des1: u32)
        ensures
            final(self).w0() == old(self).w0(),
            final(self).w1() == des1,
            final(self).w2() == old(self).w2(),
            final(self).w3() == old(self).w3(),
    {
        self.des1 = des1;
    }

    pub fn des2(&self) -> (r: u32)
        ensures
            r == self.w2(),
    {
        self.des2
    }

    pub fn set_des2(&mut self, des2: u32)
        ensures
            final(self).w0() == old(self).w0(),
            final(self).w1() == old(self).w1(),
            final(self).w2() == des2,
            final(self).w3() == old(self).w3(),
    {
        self.des2 = des2;
    }

    pub fn des3(&self) -> (r: u32)
        ensures
            r == self.w3(),
    {
        self.des3
    }

    /// Stores `des3` into word 3, always with the RDES0-valid bit set.
    pub fn set_des3(&mut self, des3: u32)
        ensures
            final(self).w0() == old(self).w0(),
            final(self).w1() == old(self).w1(),
            final(self).w2() == old(self).w2(),
            final(self).w3() == des3 | RDES3_RDES0_VALID,
    {
        self.des3 = des3 | RDES3_RDES0_VALID;
    }

    /// Hands the descriptor to the DMA engine.
    pub fn set_own(&mut self)
        ensures
            final(self).w0() == old(self).w0(),
            final(self).w1() == old(self).w1(),
            final(self).w2() == old(self).w2(),
            final(self).w3() == (old(self).w3() | DESC_OWN) | RDES3_RDES0_VALID,
            final(self).owned(),
    {
        let d3 = self.des3();
        let v = d3 | DESC_OWN;
        self.set_des3(v);
        assert(((d3 | 0x8000_0000u32) | 0x0200_0000u32) & 0x8000_0000u32 != 0) by (bit_vector);
    }

    /// Whether the DMA engine owns the descriptor.
    pub fn basic_is_owned_by_dma(&self) -> (r: bool)
        ensures
            r == self.owned(),
    {
        self.des3() & DESC_OWN != 0
    }
}

/// A descriptor in the extended layout; the driver uses only its basic words.
#[derive(PartialEq, Eq, Structural, Clone, Copy, Debug)]
pub struct DmaExtendedDescriptor {
    pub basic: DmaDescriptor,
}

impl DmaExtendedDescriptor {
    /// Clears all four words.
    pub fn zero_init(&mut self)
        ensures
            final(self).basic.w0() == 0,
            final(self).basic.w1() == 0,
            final(self).basic.w2() == 0,
            final(self).basic.w3() == 0,
    {
        self.basic = DmaDescriptor { des0: 0, des1: 0, des2: 0, des3: 0 };
    }

    /// Points buffer 1 at bus address `addr` (its low 32 bits).
    pub fn set_buffer_paddr(&mut self, addr: usize)
        ensures
            final(self).basic.w0() == addr as u32,
            final(self).basic.w1() == old(self).basic.w1(),
            final(self).basic.w2() == old(self).basic.w2(),
            final(self).basic.w3() == old(self).basic.w3(),
    {
        self.basic.set_des0(addr as u32);
    }

    /// Whether the DMA engine owns the descriptor.
    pub fn is_owned_by_dma(&self) -> (r: bool)
        ensures
            r == self.basic.owned(),
    {
        self.cache_invalidate();
        self.basic.basic_is_owned_by_dma()
    }

    /// Cache maintenance before reading the descriptor; the JH7110 is coherent, so there
    /// is nothing to do.
    pub fn cache_invalidate(&self) {
    }
}

} // verus!
