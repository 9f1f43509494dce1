//! MTL (MAC transaction layer) register offsets and the Tx FIFO debug decoder.
use vstd::prelude::*;

verus! {

pub const INTERRUPT_STATUS: usize = 0xc20;
pub const TXQ0_OPERATION_MODE: usize = 0xd00;
pub const TXQ0_DEBUG: usize = 0xd08;
pub const TXQ0_QUANTUM_WEIGHT: usize = 0xd18;
pub const Q0_INTR_STATUS: usize = 0xd2c;
pub const RXQ0_OPERATION_MODE: usize = 0xd30;
pub const RXQ0_DEBUG: usize = 0xd38;

/// Tx status FIFO full.
pub const MTL_DEBUG_TXSTSFSTS: u32 = 0x20;
/// Tx FIFO not empty.
pub const MTL_DEBUG_TXFSTS: u32 = 0x10;
/// Tx FIFO write controller active.
pub const MTL_DEBUG_TWCSTS: u32 = 0x8;
/// Tx FIFO read controller state, bits 2:1.
pub const MTL_DEBUG_TRCSTS_MASK: u32 = 0x6;

/// State of the Tx FIFO read controller, when it is not idle.
#[derive(PartialEq, Eq, Structural, Clone, Copy, Debug)]
pub enum FifoReadController {
    Read,
    WaitingForTx,
    Write,
}

impl FifoReadController {
    /// The driver's name for the state.
    pub fn name(&self) -> (s: &'static str)
        ensures
            *self == FifoReadController::Read ==> s@ == "read"@,
            *self == FifoReadController::WaitingForTx ==> s@ == "txw"@,
            *self == FifoReadController::Write ==> s@ == "write"@,
    {
        match self {
            FifoReadController::Read => "read",
            FifoReadController::WaitingForTx => "txw",
            FifoReadController::Write => "write",
        }
    }
}

/// The decoded Tx FIFO debug word of MTL queue 0.
#[derive(PartialEq, Eq, Structural, Clone, Copy, Debug)]
pub struct MtlTxFifoStatus {
    pub fifo_full: bool,
    pub fifo_not_empty: bool,
    pub mtl_fifo_ctrl: bool,
    /// The raw read controller state (0 to 3).
    pub trcsts: u32,
    /// The read controller state by name; `None` when it is idle.
    pub ctrl: Option<FifoReadController>,
}

/// Decodes the MTL Tx queue 0 debug register.
pub fn debug_mtl_tx_fifo_read_controller_status(status: u32) -> (r: MtlTxFifoStatus)
    ensures
        r.fifo_full == (status & MTL_DEBUG_TXSTSFSTS != 0),
        r.fifo_not_empty == (status & MTL_DEBUG_TXFSTS != 0),
        r.mtl_fifo_ctrl == (status & MTL_DEBUG_TWCSTS != 0),
        r.trcsts == (status & MTL_DEBUG_TRCSTS_MASK) >> 1u32,
        r.trcsts < 4,
        r.ctrl == (if r.trcsts == 1 {
            Some(FifoReadController::Read)
        } else if r.trcsts == 2 {
            Some(FifoReadController::WaitingForTx)
        } else if r.trcsts == 3 {
            Some(FifoReadController::Write)
        } else {
            None
        }),
{
    let trcsts: u32 = (status & MTL_DEBUG_TRCSTS_MASK) >> 1u32;
    assert(((status & 6u32) >> 1u32) < 4) by (bit_vector);
    let ctrl = if trcsts == 1 {
        Some(FifoReadController::Read)
    } else if trcsts == 2 {
        Some(FifoReadController::WaitingForTx)
    } else if trcsts == 3 {
        Some(FifoReadController::Write)
    } else {
        None
    };
    MtlTxFifoStatus {
        fifo_full: status & MTL_DEBUG_TXSTSFSTS != 0,
        fifo_not_empty: status & MTL_DEBUG_TXFSTS != 0,
        mtl_fifo_ctrl: status & MTL_DEBUG_TWCSTS != 0,
        trcsts,
        ctrl,
    }
}

} // verus!
