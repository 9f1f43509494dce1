use dwmac::dwc_init::{
    dma_start_rxtx, dma_status_read, phy_link_status, dwmac4_core_init, dwmac4_enable_dma_irq, dwmac4_flow_ctrl,
    dwmac4_set_rxtx_ring_len, dwmac_dma_init_rxtx_chan, dwmac_dma_reset, dwmac_enable_dma_irq,
    dwmac_mtl_queue_set, eqos_mdio_read, eqos_mdio_write, jh7110_clock_reset, jh7110_reset_trigger,
    phy_config, set_mac_addr, show_rx_process_state, show_tx_process_state, stmmac_dwmac4_get_mac_addr,
    stmmac_dwmac4_set_mac, stmmac_dwmac4_set_mac_addr, stmmac_mac_link_up, stmmac_set_mac,
    RxProcessState, TxProcessState,
};
use dwmac::mmio::RegOp;

fn w(reg: usize, value: u32) -> RegOp {
    RegOp::Write { reg, value }
}

fn u(reg: usize, clear: u32, set: u32) -> RegOp {
    RegOp::Update { reg, clear, set }
}

fn wait(reg: usize, mask: u32, expected: u32) -> RegOp {
    RegOp::WaitUntil { reg, mask, expected }
}

const E: usize = 0x1604_0000;

#[test]
fn reset_trigger_deassert_and_assert() {
    assert_eq!(
        jh7110_reset_trigger(66, false),
        vec![u(0x1302_0300, 4, 0), wait(0x1302_0310, 4, 4)]
    );
    assert_eq!(
        jh7110_reset_trigger(67, true),
        vec![u(0x1302_0300, 0, 8), wait(0x1302_0310, 8, 0)]
    );
}

#[test]
fn clock_reset_writes() {
    assert_eq!(
        jh7110_clock_reset(),
        vec![
            w(0x1302_0300, 0xffe5_afc4),
            w(0x1302_0300, 0xffe5_afc0),
            w(0x1700_0038, 0xe1),
            w(0x1700_0038, 0xe0),
            w(0x1700_0038, 0xe2),
            w(0x1700_0038, 0xe3),
        ]
    );
}

#[test]
fn phy_config_four_mdio_writes() {
    let ops = phy_config();
    assert_eq!(ops.len(), 16);
    assert_eq!(ops[0], wait(E + 0x10, 1, 0));
    assert_eq!(ops[1], w(E + 0x14, 0xa001));
    assert_eq!(ops[2], w(E + 0x10, 0x8020));
    assert_eq!(ops[3], wait(E + 0x10, 1, 0));
    assert_eq!(ops[13], w(E + 0x14, 0x1de1));
    assert_eq!(ops[14], w(E + 0x10, 0x300));
}

#[test]
fn dma_reset_sets_reset_bit() {
    assert_eq!(dwmac_dma_reset(0), vec![w(E + 0x1000, 1)]);
    assert_eq!(dwmac_dma_reset(0x0f0f_08f0), vec![w(E + 0x1000, 0x0f0f_08f1)]);
}

#[test]
fn dma_init_rxtx_chan_writes() {
    let ops = dwmac_dma_init_rxtx_chan(256, 0x1000, 0x2000, 256, 0x3000, 0x4000);
    assert_eq!(
        ops,
        vec![
            w(E + 0x1000, 0x1),
            w(E + 0x1000, 0xf0f08f1),
            w(E + 0x1100, 0),
            w(E + 0x1108, 0x100000),
            w(E + 0x111c, 0x1000),
            w(E + 0x1128, 0x2000),
            w(E + 0x1104, 0x100010),
            w(E + 0x1114, 0x3000),
            w(E + 0x112c, 64),
            w(E + 0x1130, 64),
        ]
    );
}

#[test]
fn fixed_register_programs() {
    assert_eq!(set_mac_addr(), vec![w(E + 0x300, 0x0605), w(E + 0x304, 0xddcc_bbaa)]);
    assert_eq!(dwmac4_core_init(), vec![w(E, 0x78200)]);
    assert_eq!(
        dwmac_mtl_queue_set(),
        vec![w(E + 0xc30, 0), w(E + 0xa0, 2), w(E + 0xd30, 0x700000), w(E + 0xd00, 0x70018)]
    );
    assert_eq!(dwmac4_set_rxtx_ring_len(1, 2), vec![w(E + 0x112c, 64), w(E + 0x1130, 64)]);
    assert_eq!(dwmac4_flow_ctrl(), vec![w(E + 0x90, 0), w(E + 0x70, 0)]);
    assert_eq!(stmmac_mac_link_up(), vec![w(E, 0x807_2203)]);
}

#[test]
fn dma_start_sets_start_and_enable_bits() {
    assert_eq!(
        dma_start_rxtx(),
        vec![u(E + 0x1108, 0, 1), u(E, 0, 1), u(E + 0x1104, 0, 1), u(E, 0, 2)]
    );
}

#[test]
fn set_mac_enable_and_disable() {
    assert_eq!(stmmac_set_mac(false), vec![u(E, 0xc, 0)]);
    assert_eq!(stmmac_set_mac(true), vec![u(E, 0, 0xc)]);
    assert_eq!(stmmac_dwmac4_set_mac(true), vec![u(E, 0, 3)]);
    assert_eq!(stmmac_dwmac4_set_mac(false), vec![u(E, 3, 0)]);
}

#[test]
fn mac_address_words_and_round_trip() {
    let addr = [0x6c, 0xcf, 0x39, 0x00, 0xb2, 0x7b];
    let ops = stmmac_dwmac4_set_mac_addr(&addr);
    assert_eq!(ops, vec![w(E + 0x300, 0x8000_7bb2), w(E + 0x304, 0x0039_cf6c)]);
    let mut back = [0u8; 6];
    stmmac_dwmac4_get_mac_addr(&mut back, 0x8000_7bb2, 0x0039_cf6c);
    assert_eq!(back, addr);
}

#[test]
fn dma_irq_enable_bits() {
    assert_eq!(dwmac4_enable_dma_irq(true, false), vec![u(E + 0x1134, 0, 0x40)]);
    assert_eq!(dwmac4_enable_dma_irq(true, true), vec![u(E + 0x1134, 0, 0x41)]);
    assert_eq!(dwmac4_enable_dma_irq(false, false), vec![u(E + 0x1134, 0, 0)]);
    assert_eq!(dwmac_enable_dma_irq(false, true), vec![u(E + 0x101c, 0, 0x1)]);
    assert_eq!(dwmac_enable_dma_irq(true, true), vec![u(E + 0x101c, 0, 0x41)]);
}

#[test]
fn phy_status_decodes_duplex_and_speed() {
    let s = phy_link_status(0xbc00);
    assert_eq!(s.duplex, 1);
    assert_eq!(s.speed_mode, 2);
    let h = phy_link_status(0x4000);
    assert_eq!(h.duplex, 0);
    assert_eq!(h.speed_mode, 1);
    let a = phy_link_status(0xffff_a000);
    assert_eq!((a.duplex, a.speed_mode), (1, 2));
}

#[test]
fn status_dump_reads_phy_spec_status_of_phy_0() {
    let dump = dma_status_read();
    assert_eq!(dump.before_phy.len(), 14);
    assert_eq!(dump.before_phy[0], E + 0xdc);
    assert_eq!(dump.before_phy[13], E + 0x1128);
    assert_eq!(
        dump.phy.ops,
        vec![wait(E + 0x200, 1, 0), u(E + 0x200, 0xffff_ffed, 0x0011_050d), wait(E + 0x200, 1, 0)]
    );
    assert_eq!(dump.phy.reg, E + 0x204);
    assert_eq!(dump.phy.mask, 0xffff);
    assert_eq!(dump.after_phy, vec![E + 0x1008, E + 0x100c, E + 0x1010, E + 0x1014]);
}

#[test]
fn process_state_messages() {
    assert_eq!(show_tx_process_state(0x0030_0000).message(), "- TX (Running): Reading the data and queuing the data into the Tx buf");
    assert_eq!(show_tx_process_state(0x0040_0000).message(), "Unknown TX state");
    assert_eq!(show_rx_process_state(0x0008_0000).message(), "- RX (Suspended): Unavailable Rx buf");
    assert_eq!(show_rx_process_state(0x000c_0000).message(), "- RX(Running): Flushing the current frame from the Rx buf");
}

#[test]
fn process_states_decode() {
    assert_eq!(show_tx_process_state(0), TxProcessState::Stopped);
    assert_eq!(show_tx_process_state(0x0030_0000), TxProcessState::QueuingData);
    assert_eq!(show_tx_process_state(0x0060_0000), TxProcessState::Suspended);
    assert_eq!(show_tx_process_state(0x0040_0000), TxProcessState::Unknown(4));
    assert_eq!(show_tx_process_state(0x0050_0000), TxProcessState::Unknown(5));
    assert_eq!(show_rx_process_state(0x0008_0000), RxProcessState::Suspended);
    assert_eq!(show_rx_process_state(0x000e_0000), RxProcessState::QueuingFrame);
    assert_eq!(show_rx_process_state(0x0002_0000), RxProcessState::FetchingDescriptor);
    assert_eq!(show_rx_process_state(0xfff1_ffff), RxProcessState::Stopped);
}

#[test]
fn mdio_write_program() {
    assert_eq!(
        eqos_mdio_write(0, 30, 0xa003),
        vec![
            wait(E + 0x200, 1, 0),
            w(E + 0x204, 0xa003),
            u(E + 0x200, 0xffff_ffed, 0x001e_0505),
            wait(E + 0x200, 1, 0),
        ]
    );
}

#[test]
fn mdio_read_program() {
    let r = eqos_mdio_read(0, 0, 0x11);
    assert_eq!(
        r.ops,
        vec![wait(E + 0x200, 1, 0), u(E + 0x200, 0xffff_ffed, 0x0011_050d), wait(E + 0x200, 1, 0)]
    );
    assert_eq!(r.reg, E + 0x204);
    assert_eq!(r.mask, 0xffff);
    let r3 = eqos_mdio_read(3, 0, 1);
    assert_eq!(r3.ops[1], u(E + 0x200, 0xffff_ffed, 0x0061_050d));
}
