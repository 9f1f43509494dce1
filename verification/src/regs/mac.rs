//! MAC register offsets and bits.
use vstd::prelude::*;

verus! {

pub const CONFIG: usize = 0x0000;
pub const FRAME_FILTER: usize = 0x0008;
pub const Q0_TX_FLOW_CTRL: usize = 0x70;
pub const RX_FLOW_CTRL: usize = 0x90;
pub const TXQ_PRTY_MAP0: usize = 0x98;
pub const RXQ_CTRL0: usize = 0x00a0;
pub const RXQ_CTRL1: usize = 0x00a4;
pub const RXQ_CTRL2: usize = 0x00a8;
pub const US_TIC_COUNTER: usize = 0x00dc;
pub const GMII_ADDRESS: usize = 0x0200;
pub const GMII_DATA: usize = 0x0204;
pub const VERSION: usize = 0x0110;
pub const ADDRESS0_HIGH: usize = 0x0300;
pub const ADDRESS0_LOW: usize = 0x0304;
pub const INTERRUPT_STATUS: usize = 0x00b0;
pub const INTERRUPT_ENABLE: usize = 0x00b4;
pub const LPI_CONTROL_STATUS: usize = 0x00d0;
pub const PHYIF_CONTROL_STATUS: usize = 0x00f8;
pub const DEBUG_STATUS: usize = 0x0114;
/// The PCS interrupt status register.
pub const PCS_ISR: usize = 0x00e4;

/// MAC interrupt enable: RGMII link change.
pub const INT_ENABLE_RGMII: u32 = 0x1;

/// The LPI control bits that the driver clears to keep the link out of low-power idle
/// (bits 16, 19, 20 and 21).
pub const LPI_DISABLE_MASK: u32 = 0x0039_0000;

} // verus!
