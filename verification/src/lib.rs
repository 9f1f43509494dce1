//! A driver core for the Synopsys DesignWare (DWMAC / EQoS) Ethernet controller of the
//! StarFive JH7110, with its behaviour stated in contracts and proved.
//!
//! The driver's decisions and data structures live here: the descriptor rings and their
//! buffer pool, the descriptor words, the register programs of each bring-up step, and
//! the decoders of status words. Register and DMA-memory accesses are left to the
//! platform layer: each routine returns the register operations it performs
//! ([`mmio::RegOp`]) and takes descriptors and register values as plain values.
pub mod bringup;
pub mod descriptor;
pub mod dwc_const;
pub mod dwc_init;
pub mod mempool;
pub mod mmio;
pub mod nic;
pub mod phy;
pub mod regs;
pub mod ring;

pub use descriptor::{DmaDescriptor, DmaExtendedDescriptor};
pub use mempool::MemPool;
pub use nic::{DwmacNic, NicError};
pub use regs::dma::{debug_tdes3_writeback, DESC_OWN};
pub use ring::{DescriptorRing, MAX_FRAME_SIZE, RX_DESC_COUNT, TX_DESC_COUNT};

use vstd::prelude::*;

verus! {

/// Physical address type.
pub type PhysAddr = usize;

} // verus!
