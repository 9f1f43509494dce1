use dwmac::dwc_const::{ALIGN, BIT, GENMASK};
use dwmac::dwc_init::phys_to_virt;
use dwmac::regs::dma::{chan_status_csr, debug_chan_status, debug_tdes3_writeback};
use dwmac::regs::mtl::{debug_mtl_tx_fifo_read_controller_status, FifoReadController};

#[test]
fn bit_sets_one_bit() {
    assert_eq!(BIT(0), 1);
    assert_eq!(BIT(5), 0x20);
    assert_eq!(BIT(31), 0x8000_0000);
}

#[test]
fn align_rounds_up_to_power_of_two() {
    assert_eq!(ALIGN(1568, 64), 1600);
    assert_eq!(ALIGN(64, 64), 64);
    assert_eq!(ALIGN(0, 1), 0);
    assert_eq!(ALIGN(65, 64), 128);
}

#[test]
fn genmask_sets_bit_range() {
    assert_eq!(GENMASK(21, 19), 0x38_0000);
    assert_eq!(GENMASK(31, 8), 0xffff_ff00);
    assert_eq!(GENMASK(13, 0), 0x3fff);
    assert_eq!(GENMASK(2, 1), 0x6);
    assert_eq!(GENMASK(63, 32), 0);
    assert_eq!(GENMASK(3, 5), 0);
}

#[test]
fn phys_to_virt_adds_linear_map_offset() {
    assert_eq!(phys_to_virt(0x1604_0000), 0xffff_ffc0_1604_0000u64);
    assert_eq!(phys_to_virt(0), 0xffff_ffc0_0000_0000u64);
}

#[test]
fn chan_status_csr_per_channel() {
    assert_eq!(chan_status_csr(0), 0x1160);
    assert_eq!(chan_status_csr(1), 0x1260);
    assert_eq!(chan_status_csr(7), 0x1860);
}

#[test]
fn chan_status_decodes_bits() {
    let s = debug_chan_status(3, 0x8041);
    assert_eq!(s.channel, 3);
    assert_eq!(s.status, 0x8041);
    assert!(s.nis && s.ri && s.ti);
    assert!(!s.ais && !s.cde && !s.fbe && !s.eri && !s.eti && !s.rwt && !s.rps && !s.rbu && !s.tbu && !s.tps);
    assert_eq!(s.rebs, 0);
    assert_eq!(s.tebs, 0);
    let e = debug_chan_status(0, 0x0038_4000);
    assert_eq!(e.rebs, 7);
    assert_eq!(e.tebs, 0);
    assert!(e.ais);
    let t = debug_chan_status(1, 0x0005_0000);
    assert_eq!(t.tebs, 5);
}

#[test]
fn tdes3_writeback_decodes_bits() {
    let w = debug_tdes3_writeback(0x80f5);
    assert!(w.error_summary);
    assert!(w.ip_hdr_error);
    assert!(w.underflow_error);
    assert!(!w.deferred);
    assert!(!w.excessive_deferral);
    assert_eq!(w.collision_count, 0xf);
    assert!(!w.timestamp_status);
    let z = debug_tdes3_writeback(0x2_0000);
    assert!(z.timestamp_status);
    assert!(!z.error_summary);
    assert_eq!(z.collision_count, 0);
}

#[test]
fn mtl_fifo_status_decodes() {
    let s = debug_mtl_tx_fifo_read_controller_status(0x3e);
    assert!(s.fifo_full && s.fifo_not_empty && s.mtl_fifo_ctrl);
    assert_eq!(s.trcsts, 3);
    assert_eq!(s.ctrl, Some(FifoReadController::Write));
    let idle = debug_mtl_tx_fifo_read_controller_status(0);
    assert!(!idle.fifo_full && !idle.fifo_not_empty && !idle.mtl_fifo_ctrl);
    assert_eq!(idle.ctrl, None);
    assert_eq!(debug_mtl_tx_fifo_read_controller_status(0x2).ctrl, Some(FifoReadController::Read));
    assert_eq!(debug_mtl_tx_fifo_read_controller_status(0x4).ctrl, Some(FifoReadController::WaitingForTx));
    assert_eq!(FifoReadController::Read.name(), "read");
    assert_eq!(FifoReadController::WaitingForTx.name(), "txw");
    assert_eq!(FifoReadController::Write.name(), "write");
}
