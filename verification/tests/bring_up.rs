use dwmac::bringup::{
    BringUpAction, BringUpError, BringUpEvent, Init0State, PhyInitError, PhyOp, CLOCK_MHZ,
    YT8531C_BMSR, YT8531C_EXT_CHIP_CONFIG, YT8531C_EXT_RGMII_CONFIG1,
};
use dwmac::nic::DwmacNic;
use dwmac::phy::{phy_id, phy_read, phy_read_ext, phy_setbits_value, phy_write, phy_write_ext};
use dwmac::mmio::RegOp;

/// A simulated platform: how each action turns out.
struct Sim {
    platform_ok: bool,
    bus_mode_reads_until_clear: u32,
    phy_id: u32,
    phy_fails: bool,
    bmsr: u32,
    clock_phy_fails: bool,
}

fn drive(sim: &Sim) -> (Vec<BringUpAction>, BringUpAction) {
    let mut st = Init0State::Start;
    let mut ev = BringUpEvent::Completed;
    let mut actions = vec![];
    let mut bus_reads = 0;
    let mut in_clock = false;
    loop {
        let (next, action) = DwmacNic::init0_step(st, ev);
        st = next;
        ev = match action {
            BringUpAction::ConfigurePlatform => {
                if sim.platform_ok { BringUpEvent::Completed } else { BringUpEvent::Failed }
            }
            BringUpAction::ReadBusMode => {
                bus_reads += 1;
                BringUpEvent::Value(if bus_reads > sim.bus_mode_reads_until_clear { 0 } else { 1 })
            }
            BringUpAction::Phy(PhyOp::GetPhyId) => {
                if sim.phy_fails { BringUpEvent::Failed } else { BringUpEvent::Value(sim.phy_id) }
            }
            BringUpAction::Phy(PhyOp::ReadReg(_)) => {
                if in_clock && sim.clock_phy_fails { BringUpEvent::Failed } else { BringUpEvent::Value(sim.bmsr) }
            }
            BringUpAction::Phy(PhyOp::ReadExtReg(_)) => BringUpEvent::Value(0),
            BringUpAction::Phy(_) => BringUpEvent::Completed,
            BringUpAction::SetClockTick(_) => {
                in_clock = true;
                BringUpEvent::Completed
            }
            BringUpAction::Succeeded | BringUpAction::Failed(_) => return (actions, action),
            _ => BringUpEvent::Completed,
        };
        actions.push(action);
    }
}

fn good() -> Sim {
    Sim { platform_ok: true, bus_mode_reads_until_clear: 2, phy_id: 0x4f51_e91b, phy_fails: false, bmsr: 0x796d, clock_phy_fails: false }
}

#[test]
fn bring_up_succeeds_in_order() {
    let (actions, end) = drive(&good());
    assert_eq!(end, BringUpAction::Succeeded);
    assert_eq!(actions[0], BringUpAction::ConfigurePlatform);
    assert_eq!(actions[1], BringUpAction::WaitMs(10));
    assert_eq!(actions[2], BringUpAction::RunResetRequest);
    assert_eq!(actions[3], BringUpAction::ReadBusMode);
    assert_eq!(actions[4], BringUpAction::WaitMs(1));
    assert_eq!(actions[7], BringUpAction::ReadBusMode);
    assert_eq!(actions[8], BringUpAction::Phy(PhyOp::SoftReset));
    assert_eq!(actions[9], BringUpAction::Phy(PhyOp::GetPhyId));
    assert_eq!(actions[10], BringUpAction::Phy(PhyOp::SetbitsExtReg { reg: 0xa012, mask: 0x40, set: 0 }));
    assert_eq!(actions[14], BringUpAction::Phy(PhyOp::SetbitsExtReg { reg: 0xa010, mask: 0x1030, set: 0x30 }));
    assert_eq!(actions[15], BringUpAction::Phy(PhyOp::ReadReg(YT8531C_BMSR)));
    assert_eq!(actions[16], BringUpAction::Phy(PhyOp::ReadExtReg(YT8531C_EXT_CHIP_CONFIG)));
    assert_eq!(actions[17], BringUpAction::Phy(PhyOp::SetbitsExtReg { reg: 0xa003, mask: 0x4000, set: 0x4000 }));
    assert_eq!(actions[18], BringUpAction::Phy(PhyOp::ReadExtReg(YT8531C_EXT_RGMII_CONFIG1)));
    assert_eq!(actions[19], BringUpAction::SetClockTick(CLOCK_MHZ));
    assert_eq!(actions[20], BringUpAction::Phy(PhyOp::ReadReg(YT8531C_BMSR)));
    assert_eq!(actions[21], BringUpAction::Phy(PhyOp::SetbitsExtReg { reg: 0xa003, mask: 0x4000, set: 0x4000 }));
    assert_eq!(actions[22], BringUpAction::RunProgram);
    assert_eq!(actions.len(), 23);
}

#[test]
fn platform_failure_ends_bring_up() {
    let (actions, end) = drive(&Sim { platform_ok: false, ..good() });
    assert_eq!(end, BringUpAction::Failed(BringUpError::Platform));
    assert_eq!(actions, vec![BringUpAction::ConfigurePlatform]);
}

#[test]
fn reset_times_out_after_all_polls() {
    let (actions, end) = drive(&Sim { bus_mode_reads_until_clear: u32::MAX, ..good() });
    assert_eq!(end, BringUpAction::Failed(BringUpError::ResetTimeout));
    let reads = actions.iter().filter(|a| **a == BringUpAction::ReadBusMode).count();
    assert_eq!(reads, 1001);
}

#[test]
fn phy_failures_are_only_reported() {
    let (actions, end) = drive(&Sim { phy_id: 0x1234, ..good() });
    assert_eq!(end, BringUpAction::Succeeded);
    assert!(actions.contains(&BringUpAction::ReportPhyFailure(PhyInitError::IdMismatch)));
    let (actions, end) = drive(&Sim { phy_fails: true, ..good() });
    assert_eq!(end, BringUpAction::Succeeded);
    assert!(actions.contains(&BringUpAction::ReportPhyFailure(PhyInitError::NotResponding)));
}

#[test]
fn unstable_link_polls_bmsr_hundred_times() {
    let (actions, end) = drive(&Sim { bmsr: 0x7949, ..good() });
    assert_eq!(end, BringUpAction::Succeeded);
    let bmsr_reads = actions.iter().filter(|a| **a == BringUpAction::Phy(PhyOp::ReadReg(YT8531C_BMSR))).count();
    assert_eq!(bmsr_reads, 200);
    let waits = actions.iter().filter(|a| **a == BringUpAction::WaitMs(10)).count();
    assert_eq!(waits, 201);
}

#[test]
fn clock_phy_failure_ends_bring_up() {
    let (_, end) = drive(&Sim { clock_phy_fails: true, ..good() });
    assert_eq!(end, BringUpAction::Failed(BringUpError::PhyNotResponding));
}

#[test]
fn phy_access_programs() {
    let r = phy_read(0, 1);
    assert_eq!(
        r.ops,
        vec![
            RegOp::WaitUntil { reg: 0x200, mask: 1, expected: 0 },
            RegOp::Update { reg: 0x200, clear: 0xffff_ffed, set: 0x0001_050d },
            RegOp::WaitUntil { reg: 0x200, mask: 1, expected: 0 },
        ]
    );
    assert_eq!((r.reg, r.mask), (0x204, 0xffff));
    let w = phy_write(0, 0x1e, 0x1_a003);
    assert_eq!(w[1], RegOp::Write { reg: 0x204, value: 0xa003 });
    assert_eq!(w[2], RegOp::Update { reg: 0x200, clear: 0xffff_ffed, set: 0x001e_0505 });
    let e = phy_read_ext(0, 0xa001);
    assert_eq!(e.ops.len(), 7);
    assert_eq!(e.ops[1], RegOp::Write { reg: 0x204, value: 0xa001 });
    assert_eq!(e.ops[5], RegOp::Update { reg: 0x200, clear: 0xffff_ffed, set: 0x001f_050d });
    let we = phy_write_ext(0, 0xa003, 0x4850);
    assert_eq!(we.len(), 8);
    assert_eq!(we[5], RegOp::Write { reg: 0x204, value: 0x4850 });
    assert_eq!(phy_setbits_value(0x0850, 0x4000, 0x4000), 0x4850);
    assert_eq!(phy_setbits_value(0x8120, 0x0100, 0), 0x8020);
    assert_eq!(phy_id(0x4f51, 0xe91b), 0x4f51_e91b);
}
