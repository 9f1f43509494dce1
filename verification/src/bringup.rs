//! The tutorial bring-up sequence of the interface as a state machine: the platform hook,
//! the DMA reset with its polling, the PHY set-up (whose failures are only reported), the
//! clock setting with its PHY polling, and the register program of `DwmacNic::init0`.
//!
//! `init0_step` takes the state and the outcome of the previous action and gives the next
//! state and action; the platform layer performs the actions.
use crate::nic::{DwmacNic, ResetPoll, RESET_POLLS};
use vstd::prelude::*;

verus! {

/// PHY register: basic mode status.
pub const YT8531C_BMSR: u32 = 0x01;
/// PHY extended register: chip configuration.
pub const YT8531C_EXT_CHIP_CONFIG: u32 = 0xa001;
/// PHY extended register: RGMII configuration 1.
pub const YT8531C_EXT_RGMII_CONFIG1: u32 = 0xa003;
/// PHY extended register: pad drive strength / Tx clock inversion.
pub const YT8531C_EXT_CLK_TX_INVERT: u32 = 0xa010;
/// PHY extended register: SyncE configuration.
pub const YT8531C_EXT_SYNCE_CFG: u32 = 0xa012;
/// The PHY identifier of the YT8531C.
pub const YT8531C_PHY_ID: u32 = 0x4f51e91b;
/// The BMSR value of a stable link, which the bring-up waits for.
pub const BMSR_LINK_STABLE: u32 = 0x796d;
/// Number of BMSR reads, at most, in each wait for a stable link.
pub const BMSR_POLLS: u32 = 100;
/// The CSR clock, in MHz, programmed into the MAC tick counter.
pub const CLOCK_MHZ: u32 = 0x7c;

/// An operation on the PHY.
#[derive(PartialEq, Eq, Structural, Clone, Copy, Debug)]
pub enum PhyOp {
    SoftReset,
    /// Read the 32-bit PHY identifier.
    GetPhyId,
    ReadReg(u32),
    ReadExtReg(u32),
    /// Replace the bits of `mask` in an extended register with those of `set`.
    SetbitsExtReg { reg: u32, mask: u32, set: u32 },
}

/// Why the PHY set-up stopped; reported, not fatal.
#[derive(PartialEq, Eq, Structural, Clone, Copy, Debug)]
pub enum PhyInitError {
    /// A PHY operation failed.
    NotResponding,
    /// The PHY identifier is not the YT8531C's.
    IdMismatch,
    /// A wait failed.
    Wait,
}

/// Why the bring-up failed.
#[derive(PartialEq, Eq, Structural, Clone, Copy, Debug)]
pub enum BringUpError {
    /// The platform hook failed (its error is the result).
    Platform,
    /// A wait failed (its error is the result).
    Wait,
    /// The DMA reset bit did not clear.
    ResetTimeout,
    /// A PHY operation of the clock setting failed.
    PhyNotResponding,
}

/// What the platform layer does next.
#[derive(PartialEq, Eq, Structural, Clone, Copy, Debug)]
pub enum BringUpAction {
    /// Run the platform configuration hook.
    ConfigurePlatform,
    /// Wait this many milliseconds.
    WaitMs(u32),
    /// Run `DwmacNic::reset_dma`'s register program.
    RunResetRequest,
    /// Read the DMA bus mode register.
    ReadBusMode,
    /// Perform a PHY operation.
    Phy(PhyOp),
    /// Report that the PHY set-up stopped; the bring-up goes on.
    ReportPhyFailure(PhyInitError),
    /// Run `DwmacNic::set_clock_freq(freq)`'s register program.
    SetClockTick(u32),
    /// Run the register program of `DwmacNic::init0`.
    RunProgram,
    /// The bring-up succeeded.
    Succeeded,
    /// The bring-up failed.
    Failed(BringUpError),
}

/// The outcome of the previous action.
#[derive(PartialEq, Eq, Structural, Clone, Copy, Debug)]
pub enum BringUpEvent {
    /// It succeeded, with no value.
    Completed,
    /// It read this value.
    Value(u32),
    /// It failed.
    Failed,
}

/// Where the bring-up stands.
#[derive(PartialEq, Eq, Structural, Clone, Copy, Debug)]
pub enum Init0State {
    Start,
    Platform,
    ResetSettle,
    ResetIssued,
    /// Waiting for the bus mode register, with this many polls left.
    ResetPoll(u32),
    /// Waiting between polls, with this many polls left.
    ResetBackoff(u32),
    PhyReset,
    PhyId,
    /// Waiting for extended-register update number `k` (0 to 4).
    PhySetbits(u32),
    /// Waiting for BMSR read number `n` (0 to 99).
    PhyBmsr(u32),
    /// Waiting after BMSR read number `n`.
    PhyBmsrWait(u32),
    PhyChipConfig,
    PhyRgmii,
    PhyReport,
    PhyFailed,
    ClockTick,
    ClockBmsr(u32),
    ClockBmsrWait(u32),
    ClockRgmii,
    Program,
    Finished,
}

/// Extended-register update number `k` of the PHY set-up.
pub open spec fn phy_setbits(k: u32) -> PhyOp {
    if k == 0 {
        PhyOp::SetbitsExtReg { reg: YT8531C_EXT_SYNCE_CFG, mask: 0x40, set: 0 }
    } else if k == 1 {
        PhyOp::SetbitsExtReg { reg: YT8531C_EXT_CHIP_CONFIG, mask: 0x0100, set: 0 }
    } else if k == 2 {
        PhyOp::SetbitsExtReg { reg: YT8531C_EXT_RGMII_CONFIG1, mask: 0x3c0f, set: 0x0800 }
    } else if k == 3 {
        PhyOp::SetbitsExtReg { reg: YT8531C_EXT_CLK_TX_INVERT, mask: 0xe000, set: 0xc000 }
    } else {
        PhyOp::SetbitsExtReg { reg: YT8531C_EXT_CLK_TX_INVERT, mask: 0x1030, set: 0x0030 }
    }
}

/// The final RGMII configuration update: Tx clock select.
pub open spec fn rgmii_tx_clk_sel() -> PhyOp {
    PhyOp::SetbitsExtReg { reg: YT8531C_EXT_RGMII_CONFIG1, mask: 0x4000, set: 0x4000 }
}

/// The state is one that the bring-up can be in before it has finished.
pub open spec fn init0_state_valid(st: Init0State) -> bool {
    match st {
        Init0State::ResetPoll(t) => t <= RESET_POLLS,
        Init0State::ResetBackoff(t) => t < RESET_POLLS,
        Init0State::PhySetbits(k) => k < 5,
        Init0State::PhyBmsr(n) => n < BMSR_POLLS,
        Init0State::PhyBmsrWait(n) => n < BMSR_POLLS,
        Init0State::ClockBmsr(n) => n < BMSR_POLLS,
        Init0State::ClockBmsrWait(n) => n < BMSR_POLLS,
        Init0State::Finished => false,
        _ => true,
    }
}

/// The outcome fits the action that led to the state: reads give a value or fail
/// (register reads cannot fail), other actions succeed or fail (register programs and
/// reports cannot fail). The last PHY read of the set-up is not allowed to fail: the
/// bring-up does not handle that failure.
pub open spec fn init0_event_valid(st: Init0State, ev: BringUpEvent) -> bool {
    match st {
        Init0State::Start => true,
        Init0State::ResetPoll(_) => ev is Value,
        Init0State::PhyId | Init0State::PhyBmsr(_) | Init0State::PhyChipConfig | Init0State::ClockBmsr(_) => !(ev is Completed),
        Init0State::PhyReport => ev is Value,
        Init0State::ResetIssued | Init0State::PhyFailed | Init0State::ClockTick | Init0State::Program => ev is Completed,
        _ => !(ev is Value),
    }
}

/// Steps left, at most, before the bring-up finishes.
pub open spec fn init0_measure(st: Init0State) -> int {
    match st {
        Init0State::Finished => 0,
        Init0State::Program => 1,
        Init0State::ClockRgmii => 2,
        Init0State::ClockBmsrWait(n) => 3 + 2 * (99 - n),
        Init0State::ClockBmsr(n) => 4 + 2 * (99 - n),
        Init0State::ClockTick => 203,
        Init0State::PhyFailed => 204,
        Init0State::PhyReport => 205,
        Init0State::PhyRgmii => 206,
        Init0State::PhyChipConfig => 207,
        Init0State::PhyBmsrWait(n) => 208 + 2 * (99 - n),
        Init0State::PhyBmsr(n) => 209 + 2 * (99 - n),
        Init0State::PhySetbits(k) => 408 + (4 - k),
        Init0State::PhyId => 413,
        Init0State::PhyReset => 414,
        Init0State::ResetPoll(t) => 415 + 2 * t,
        Init0State::ResetBackoff(t) => 416 + 2 * t,
        Init0State::ResetIssued => 2416,
        Init0State::ResetSettle => 2417,
        Init0State::Platform => 2418,
        Init0State::Start => 2419,
    }
}

/// The value of a read outcome.
pub open spec fn event_value(ev: BringUpEvent) -> u32 {
    match ev {
        BringUpEvent::Value(v) => v,
        _ => 0,
    }
}

/// The bring-up's transition table.
pub open spec fn init0_next(st: Init0State, ev: BringUpEvent) -> (Init0State, BringUpAction) {
    let failed = ev is Failed;
    let v = event_value(ev);
    let phy_fail = (Init0State::PhyFailed, BringUpAction::ReportPhyFailure(PhyInitError::NotResponding));
    let to_clock = (Init0State::ClockTick, BringUpAction::SetClockTick(CLOCK_MHZ));
    match st {
        Init0State::Start => (Init0State::Platform, BringUpAction::ConfigurePlatform),
        Init0State::Platform => if failed {
            (Init0State::Finished, BringUpAction::Failed(BringUpError::Platform))
        } else {
            (Init0State::ResetSettle, BringUpAction::WaitMs(10))
        },
        Init0State::ResetSettle => if failed {
            (Init0State::Finished, BringUpAction::Failed(BringUpError::Wait))
        } else {
            (Init0State::ResetIssued, BringUpAction::RunResetRequest)
        },
        Init0State::ResetIssued => (Init0State::ResetPoll(RESET_POLLS), BringUpAction::ReadBusMode),
        Init0State::ResetPoll(t) => if v & 1 == 0 {
            (Init0State::PhyReset, BringUpAction::Phy(PhyOp::SoftReset))
        } else if t == 0 {
            (Init0State::Finished, BringUpAction::Failed(BringUpError::ResetTimeout))
        } else {
            (Init0State::ResetBackoff((t - 1) as u32), BringUpAction::WaitMs(1))
        },
        Init0State::ResetBackoff(t) => if failed {
            (Init0State::Finished, BringUpAction::Failed(BringUpError::Wait))
        } else {
            (Init0State::ResetPoll(t), BringUpAction::ReadBusMode)
        },
        Init0State::PhyReset => if failed {
            phy_fail
        } else {
            (Init0State::PhyId, BringUpAction::Phy(PhyOp::GetPhyId))
        },
        Init0State::PhyId => if failed {
            phy_fail
        } else if v != YT8531C_PHY_ID {
            (Init0State::PhyFailed, BringUpAction::ReportPhyFailure(PhyInitError::IdMismatch))
        } else {
            (Init0State::PhySetbits(0), BringUpAction::Phy(phy_setbits(0)))
        },
        Init0State::PhySetbits(k) => if failed {
            phy_fail
        } else if k < 4 {
            (Init0State::PhySetbits((k + 1) as u32), BringUpAction::Phy(phy_setbits((k + 1) as u32)))
        } else {
            (Init0State::PhyBmsr(0), BringUpAction::Phy(PhyOp::ReadReg(YT8531C_BMSR)))
        },
        Init0State::PhyBmsr(n) => if failed {
            phy_fail
        } else if v == BMSR_LINK_STABLE {
            (Init0State::PhyChipConfig, BringUpAction::Phy(PhyOp::ReadExtReg(YT8531C_EXT_CHIP_CONFIG)))
        } else {
            (Init0State::PhyBmsrWait(n), BringUpAction::WaitMs(10))
        },
        Init0State::PhyBmsrWait(n) => if failed {
            (Init0State::PhyFailed, BringUpAction::ReportPhyFailure(PhyInitError::Wait))
        } else if n + 1 < BMSR_POLLS {
            (Init0State::PhyBmsr((n + 1) as u32), BringUpAction::Phy(PhyOp::ReadReg(YT8531C_BMSR)))
        } else {
            (Init0State::PhyChipConfig, BringUpAction::Phy(PhyOp::ReadExtReg(YT8531C_EXT_CHIP_CONFIG)))
        },
        Init0State::PhyChipConfig => if failed {
            phy_fail
        } else {
            (Init0State::PhyRgmii, BringUpAction::Phy(rgmii_tx_clk_sel()))
        },
        Init0State::PhyRgmii => if failed {
            phy_fail
        } else {
            (Init0State::PhyReport, BringUpAction::Phy(PhyOp::ReadExtReg(YT8531C_EXT_RGMII_CONFIG1)))
        },
        Init0State::PhyReport => to_clock,
        Init0State::PhyFailed => to_clock,
        Init0State::ClockTick => (Init0State::ClockBmsr(0), BringUpAction::Phy(PhyOp::ReadReg(YT8531C_BMSR))),
        Init0State::ClockBmsr(n) => if failed {
            (Init0State::Finished, BringUpAction::Failed(BringUpError::PhyNotResponding))
        } else if v == BMSR_LINK_STABLE {
            (Init0State::ClockRgmii, BringUpAction::Phy(rgmii_tx_clk_sel()))
        } else {
            (Init0State::ClockBmsrWait(n), BringUpAction::WaitMs(10))
        },
        Init0State::ClockBmsrWait(n) => if failed {
            (Init0State::Finished, BringUpAction::Failed(BringUpError::Wait))
        } else if n + 1 < BMSR_POLLS {
            (Init0State::ClockBmsr((n + 1) as u32), BringUpAction::Phy(PhyOp::ReadReg(YT8531C_BMSR)))
        } else {
            (Init0State::ClockRgmii, BringUpAction::Phy(rgmii_tx_clk_sel()))
        },
        Init0State::ClockRgmii => if failed {
            (Init0State::Finished, BringUpAction::Failed(BringUpError::PhyNotResponding))
        } else {
            (Init0State::Program, BringUpAction::RunProgram)
        },
        Init0State::Program => (Init0State::Finished, BringUpAction::Succeeded),
        Init0State::Finished => (Init0State::Finished, BringUpAction::Succeeded),
    }
}

fn phy_setbits_op(k: u32) -> (op: PhyOp)
    ensures
        op == phy_setbits(k),
{
    if k == 0 {
        PhyOp::SetbitsExtReg { reg: YT8531C_EXT_SYNCE_CFG, mask: 0x40, set: 0 }
    } else if k == 1 {
        PhyOp::SetbitsExtReg { reg: YT8531C_EXT_CHIP_CONFIG, mask: 0x0100, set: 0 }
    } else if k == 2 {
        PhyOp::SetbitsExtReg { reg: YT8531C_EXT_RGMII_CONFIG1, mask: 0x3c0f, set: 0x0800 }
    } else if k == 3 {
        PhyOp::SetbitsExtReg { reg: YT8531C_EXT_CLK_TX_INVERT, mask: 0xe000, set: 0xc000 }
    } else {
        PhyOp::SetbitsExtReg { reg: YT8531C_EXT_CLK_TX_INVERT, mask: 0x1030, set: 0x0030 }
    }
}

impl DwmacNic {
    /// One step of the tutorial bring-up: given where it stands and the outcome of the
    /// previous action, where it goes and what to do next (see `init0_next`).
    ///
    /// The platform hook runs first; its failure ends the bring-up. The DMA reset waits
    /// 10 ms, sets the reset bit and polls the bus mode register up to `RESET_POLLS` more
    /// times, 1 ms apart; a failed wait or a reset bit that stays set ends the bring-up.
    /// The PHY set-up (reset, identifier check, five extended-register updates, up to 100
    /// BMSR reads 10 ms apart until the link is stable, chip configuration read, Tx clock
    /// select, RGMII configuration read) stops at its first failure, which is reported
    /// and does not end the bring-up. The clock setting writes the tick counter, waits in
    /// the same way for a stable link and selects the Tx clock; its failures end the
    /// bring-up. Then the register program of `init0` runs and the bring-up succeeds.
    pub fn init0_step(st: Init0State, ev: BringUpEvent) -> (r: (Init0State, BringUpAction))
        requires
            init0_state_valid(st),
            init0_event_valid(st, ev),
        ensures
            r == init0_next(st, ev),
            r.0 == Init0State::Finished || init0_state_valid(r.0),
            init0_measure(r.0) < init0_measure(st),
            (r.0 == Init0State::Finished) <==> (r.1 is Succeeded || r.1 is Failed),
    {
        let failed = ev == BringUpEvent::Failed;
        let v: u32 = match ev {
            BringUpEvent::Value(x) => x,
            _ => 0,
        };
        let phy_fail = (Init0State::PhyFailed, BringUpAction::ReportPhyFailure(PhyInitError::NotResponding));
        let to_clock = (Init0State::ClockTick, BringUpAction::SetClockTick(CLOCK_MHZ));
        match st {
            Init0State::Start => (Init0State::Platform, BringUpAction::ConfigurePlatform),
            Init0State::Platform => if failed {
                (Init0State::Finished, BringUpAction::Failed(BringUpError::Platform))
            } else {
                (Init0State::ResetSettle, BringUpAction::WaitMs(10))
            },
            Init0State::ResetSettle => if failed {
                (Init0State::Finished, BringUpAction::Failed(BringUpError::Wait))
            } else {
                (Init0State::ResetIssued, BringUpAction::RunResetRequest)
            },
            Init0State::ResetIssued => (Init0State::ResetPoll(RESET_POLLS), BringUpAction::ReadBusMode),
            Init0State::ResetPoll(t) => match DwmacNic::reset_dma_poll(t, v) {
                ResetPoll::Done => (Init0State::PhyReset, BringUpAction::Phy(PhyOp::SoftReset)),
                ResetPoll::TimedOut => (Init0State::Finished, BringUpAction::Failed(BringUpError::ResetTimeout)),
                ResetPoll::Retry(left) => (Init0State::ResetBackoff(left), BringUpAction::WaitMs(1)),
            },
            Init0State::ResetBackoff(t) => if failed {
                (Init0State::Finished, BringUpAction::Failed(BringUpError::Wait))
            } else {
                (Init0State::ResetPoll(t), BringUpAction::ReadBusMode)
            },
            Init0State::PhyReset => if failed {
                phy_fail
            } else {
                (Init0State::PhyId, BringUpAction::Phy(PhyOp::GetPhyId))
            },
            Init0State::PhyId => if failed {
                phy_fail
            } else if v != YT8531C_PHY_ID {
                (Init0State::PhyFailed, BringUpAction::ReportPhyFailure(PhyInitError::IdMismatch))
            } else {
                (Init0State::PhySetbits(0), BringUpAction::Phy(phy_setbits_op(0)))
            },
            Init0State::PhySetbits(k) => if failed {
                phy_fail
            } else if k < 4 {
                (Init0State::PhySetbits(k + 1), BringUpAction::Phy(phy_setbits_op(k + 1)))
            } else {
                (Init0State::PhyBmsr(0), BringUpAction::Phy(PhyOp::ReadReg(YT8531C_BMSR)))
            },
            Init0State::PhyBmsr(n) => if failed {
                phy_fail
            } else if v == BMSR_LINK_STABLE {
                (Init0State::PhyChipConfig, BringUpAction::Phy(PhyOp::ReadExtReg(YT8531C_EXT_CHIP_CONFIG)))
            } else {
                (Init0State::PhyBmsrWait(n), BringUpAction::WaitMs(10))
            },
            Init0State::PhyBmsrWait(n) => if failed {
                (Init0State::PhyFailed, BringUpAction::ReportPhyFailure(PhyInitError::Wait))
            } else if n + 1 < BMSR_POLLS {
                (Init0State::PhyBmsr(n + 1), BringUpAction::Phy(PhyOp::ReadReg(YT8531C_BMSR)))
            } else {
                (Init0State::PhyChipConfig, BringUpAction::Phy(PhyOp::ReadExtReg(YT8531C_EXT_CHIP_CONFIG)))
            },
            Init0State::PhyChipConfig => if failed {
                phy_fail
            } else {
                (Init0State::PhyRgmii, BringUpAction::Phy(
                    PhyOp::SetbitsExtReg { reg: YT8531C_EXT_RGMII_CONFIG1, mask: 0x4000, set: 0x4000 },
                ))
            },
            Init0State::PhyRgmii => if failed {
                phy_fail
            } else {
                (Init0State::PhyReport, BringUpAction::Phy(PhyOp::ReadExtReg(YT8531C_EXT_RGMII_CONFIG1)))
            },
            Init0State::PhyReport => to_clock,
            Init0State::PhyFailed => to_clock,
            Init0State::ClockTick => (Init0State::ClockBmsr(0), BringUpAction::Phy(PhyOp::ReadReg(YT8531C_BMSR))),
            Init0State::ClockBmsr(n) => if failed {
                (Init0State::Finished, BringUpAction::Failed(BringUpError::PhyNotResponding))
            } else if v == BMSR_LINK_STABLE {
                (Init0State::ClockRgmii, BringUpAction::Phy(
                    PhyOp::SetbitsExtReg { reg: YT8531C_EXT_RGMII_CONFIG1, mask: 0x4000, set: 0x4000 },
                ))
            } else {
                (Init0State::ClockBmsrWait(n), BringUpAction::WaitMs(10))
            },
            Init0State::ClockBmsrWait(n) => if failed {
                (Init0State::Finished, BringUpAction::Failed(BringUpError::Wait))
            } else if n + 1 < BMSR_POLLS {
                (Init0State::ClockBmsr(n + 1), BringUpAction::Phy(PhyOp::ReadReg(YT8531C_BMSR)))
            } else {
                (Init0State::ClockRgmii, BringUpAction::Phy(
                    PhyOp::SetbitsExtReg { reg: YT8531C_EXT_RGMII_CONFIG1, mask: 0x4000, set: 0x4000 },
                ))
            },
            Init0State::ClockRgmii => if failed {
                (Init0State::Finished, BringUpAction::Failed(BringUpError::PhyNotResponding))
            } else {
                (Init0State::Program, BringUpAction::RunProgram)
            },
            Init0State::Program => (Init0State::Finished, BringUpAction::Succeeded),
            Init0State::Finished => (Init0State::Finished, BringUpAction::Succeeded),
        }
    }
}

/// The bring-up fails only through the platform hook, a failed wait of the DMA reset or
/// the clock setting, a DMA reset that times out, or a failed PHY operation of the clock
/// setting; nothing that happens during the PHY set-up makes it fail.
pub proof fn lemma_init0_failures(st: Init0State, ev: BringUpEvent)
    requires
        init0_state_valid(st),
        init0_event_valid(st, ev),
    ensures
        init0_next(st, ev).1 matches BringUpAction::Failed(e) ==> {
            &&& e == BringUpError::Platform ==> st == Init0State::Platform && ev is Failed
            &&& e == BringUpError::Wait ==> (st == Init0State::ResetSettle || st is ResetBackoff
                || st is ClockBmsrWait) && ev is Failed
            &&& e == BringUpError::ResetTimeout ==> st == Init0State::ResetPoll(0) && event_value(ev) & 1 != 0
            &&& e == BringUpError::PhyNotResponding ==> (st is ClockBmsr || st == Init0State::ClockRgmii) && ev is Failed
        },
        (st is PhyReset || st is PhyId || st is PhySetbits || st is PhyBmsr || st is PhyBmsrWait
            || st is PhyChipConfig || st is PhyRgmii || st is PhyReport || st is PhyFailed) ==> !(init0_next(st, ev).1 is Failed),
{
}

/// A wait for a stable link that runs out of polls does not cut the bring-up short:
/// after the last BMSR wait of the PHY set-up the chip configuration (extended register
/// 0xa001) is read, and after the last BMSR wait of the clock setting the RGMII Tx clock
/// is selected (bit 14 of extended register 0xa003 set).
pub proof fn lemma_init0_polls_exhausted(ev: BringUpEvent)
    requires
        !(ev is Failed),
    ensures
        init0_next(Init0State::PhyBmsrWait(99), ev) == (
            Init0State::PhyChipConfig,
            BringUpAction::Phy(PhyOp::ReadExtReg(0xa001)),
        ),
        init0_next(Init0State::ClockBmsrWait(99), ev) == (
            Init0State::ClockRgmii,
            BringUpAction::Phy(PhyOp::SetbitsExtReg { reg: 0xa003, mask: 0x4000, set: 0x4000 }),
        ),
{
}

/// How the bring-up reaches its register program and its clock setting. The register
/// program runs only right after the RGMII Tx clock select of the clock setting
/// succeeded, and that select (bit 14 of extended register 0xa003) is the action of every
/// step that enters it. The clock setting starts only after the PHY set-up has ended,
/// with its report (RGMII configuration read) or its failure; the report follows only
/// the Tx clock select of the PHY set-up, which follows only the chip configuration read,
/// which follows only a BMSR read or wait.
pub proof fn lemma_init0_tx_clock_select(st: Init0State, ev: BringUpEvent)
    requires
        init0_state_valid(st),
        init0_event_valid(st, ev),
    ensures
        ({
            let (next, action) = init0_next(st, ev);
            &&& action == BringUpAction::RunProgram ==> st == Init0State::ClockRgmii && !(ev is Failed)
            &&& next == Init0State::ClockRgmii ==> action == BringUpAction::Phy(
                PhyOp::SetbitsExtReg { reg: 0xa003, mask: 0x4000, set: 0x4000 },
            )
            &&& action is SetClockTick ==> action == BringUpAction::SetClockTick(0x7c) && (st
                == Init0State::PhyReport || st == Init0State::PhyFailed)
            &&& next == Init0State::PhyReport ==> st == Init0State::PhyRgmii && action
                == BringUpAction::Phy(PhyOp::ReadExtReg(0xa003))
            &&& next == Init0State::PhyRgmii ==> st == Init0State::PhyChipConfig && action
                == BringUpAction::Phy(PhyOp::SetbitsExtReg { reg: 0xa003, mask: 0x4000, set: 0x4000 })
            &&& next == Init0State::PhyChipConfig ==> (st is PhyBmsr || st is PhyBmsrWait) && action
                == BringUpAction::Phy(PhyOp::ReadExtReg(0xa001))
            &&& next == Init0State::PhyFailed ==> action is ReportPhyFailure
        }),
{
}

/// Over two steps: the step that starts the register program comes right after the
/// step that issued the RGMII Tx clock select of the clock setting, and the step that
/// starts the clock setting after a successful PHY set-up comes right after the step that
/// read the RGMII configuration.
pub proof fn lemma_init0_program_after_tx_clock_select(
    st: Init0State,
    ev1: BringUpEvent,
    ev2: BringUpEvent,
)
    requires
        init0_state_valid(st),
        init0_event_valid(st, ev1),
        init0_state_valid(init0_next(st, ev1).0),
        init0_event_valid(init0_next(st, ev1).0, ev2),
    ensures
        ({
            let (mid, first) = init0_next(st, ev1);
            let second = init0_next(mid, ev2).1;
            &&& second == BringUpAction::RunProgram ==> first == BringUpAction::Phy(
                PhyOp::SetbitsExtReg { reg: 0xa003, mask: 0x4000, set: 0x4000 },
            )
            &&& (second is SetClockTick && mid != Init0State::PhyFailed) ==> first
                == BringUpAction::Phy(PhyOp::ReadExtReg(0xa003))
        }),
{
    lemma_init0_tx_clock_select(st, ev1);
    lemma_init0_tx_clock_select(init0_next(st, ev1).0, ev2);
}

/// The bring-up ends: every step lowers `init0_measure`, which is never negative, so from
/// `Start` it finishes within `init0_measure(Start)` steps.
pub proof fn lemma_init0_terminates(st: Init0State, ev: BringUpEvent)
    requires
        init0_state_valid(st),
        init0_event_valid(st, ev),
    ensures
        0 <= init0_measure(init0_next(st, ev).0) < init0_measure(st),
{
}

} // verus!
