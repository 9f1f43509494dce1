//! Bring-up routines of the JH7110 EQoS controller, addressed by physical address.
//!
//! Each routine returns the register program that it performs; the addresses in it are
//! physical addresses, which the platform layer maps with `phys_to_virt`.
use crate::dwc_const::{
    BIT, DMA_BUS_MODE, DMA_BUS_MODE_SFT_RESET, DMA_CHAN_INTR_DEFAULT_RX, DMA_CHAN_INTR_DEFAULT_TX,
    DMA_CHAN_INTR_ENA, EQOS_DMA_CH0_RX_CONTROL_SR, EQOS_DMA_CH0_TX_CONTROL_ST,
    EQOS_MAC_CONFIGURATION_RE, EQOS_MAC_CONFIGURATION_TE, EQOS_MAC_MDIO_ADDRESS_C45E,
    EQOS_MAC_MDIO_ADDRESS_CR_SHIFT, EQOS_MAC_MDIO_ADDRESS_GB, EQOS_MAC_MDIO_ADDRESS_GOC_READ,
    EQOS_MAC_MDIO_ADDRESS_GOC_SHIFT, EQOS_MAC_MDIO_ADDRESS_GOC_WRITE,
    EQOS_MAC_MDIO_ADDRESS_PA_SHIFT, EQOS_MAC_MDIO_ADDRESS_RDA_SHIFT, EQOS_MAC_MDIO_ADDRESS_SKAP,
    EQOS_MAC_MDIO_DATA_GD_MASK, GMAC_CONFIG, GMAC_CONFIG_RE, GMAC_CONFIG_TE, GMAC_HI_DCS_SHIFT,
    GMAC_HI_REG_AE, MTL_RXQ_DMA_MAP0, DMA_CHAN_CUR_RX_BUF_ADDR, DMA_CHAN_CUR_RX_DESC,
    DMA_CHAN_CUR_TX_BUF_ADDR, DMA_CHAN_CUR_TX_DESC, DMA_DEBUG_STATUS_0, DMA_DEBUG_STATUS_1,
    DMA_DEBUG_STATUS_2, DMA_STATUS, dma_ch0_txdesc_tail_pointer, mac_hw_feature0, mac_hw_feature1,
    mac_hw_feature2, mac_us_tic_counter, dma_ch0_control, dma_ch0_rx_control,
    dma_ch0_rxdesc_list_address, dma_ch0_rxdesc_ring_length, dma_ch0_rxdesc_tail_pointer,
    dma_ch0_tx_control, dma_ch0_txdesc_list_address, dma_ch0_txdesc_ring_length, mac_address0_high,
    mac_address0_low, mac_mdio_address, mac_mdio_data, mac_q0_tx_flow_ctrl, mac_rx_flow_ctrl,
    mac_rxq_ctrl0, mtl_rxq0_operation_mode, mtl_txq0_operation_mode,
};
use crate::mmio::{apply_op, run_ops, upd, updated_value, wait, wr, RegFile, RegOp, RegRead};
use vstd::prelude::*;

verus! {

pub const ETHERNET1: u32 = 0x16040000;

pub const CLOCK_CLKGEN1: u32 = 0x13020000;
pub const CLOCK_CLKGEN2: u32 = 0x17000000;

pub const AONCRG_RESET_ASSERT: u32 = 0x38;
pub const AONCRG_RESET_STATUS: u32 = 0x3C;
pub const SYSCRG_RESET_ASSERT2: u32 = 0x300;
pub const SYSCRG_RESET_STATUS2: u32 = 0x310;

/// Physical address of register `off` of the controller.
pub open spec fn eth(off: u32) -> usize {
    (ETHERNET1 + off) as usize
}

fn eth_reg(off: u32) -> (r: usize)
    requires
        off <= 0x10000,
    ensures
        r == eth(off),
{
    (ETHERNET1 + off) as usize
}

/// The reset line bit of reset `id` within its group register.
pub open spec fn reset_mask(id: u32) -> u32 {
    1u32 << (id % 32)
}

/// Reset line `id` is bit `id % 32` of its group register: that bit of its mask is set,
/// and no other.
pub proof fn lemma_reset_mask_single_bit(id: u32)
    ensures
        reset_mask(id) == 1u32 << (id % 32),
        forall|i: u32| i < 32 ==> ((#[trigger] (reset_mask(id) >> i) & 1 == 1) <==> i == id % 32),
{
    let m = reset_mask(id);
    assert forall|i: u32| i < 32 implies ((#[trigger] (m >> i) & 1 == 1) <==> i == id % 32) by {
        assert(i < 32 && m == 1u32 << (id % 32) ==> (((m >> i) & 1 == 1) <==> i == id % 32)) by (bit_vector);
    }
}

/// Asserts (`assert`) or deasserts reset line `id` in the system clock-and-reset unit and
/// waits until its status bit reports it: cleared when asserted, set when deasserted.
pub fn jh7110_reset_trigger(id: u32, assert: bool) -> (ops: Vec<RegOp>)
    ensures
        ops@ == seq![
            upd(
                (0x13020000u32 + SYSCRG_RESET_ASSERT2) as usize,
                if assert { 0 } else { reset_mask(id) },
                if assert { reset_mask(id) } else { 0 },
            ),
            wait(
                (0x13020000u32 + SYSCRG_RESET_STATUS2) as usize,
                reset_mask(id),
                if assert { 0 } else { reset_mask(id) },
            ),
        ],
{
    let syscrg: u32 = 0x13020000;
    let mask: u32 = BIT(id % 32);
    let reset_assert: u32 = syscrg + SYSCRG_RESET_ASSERT2;
    let reset_status: u32 = syscrg + SYSCRG_RESET_STATUS2;
    let mut done: u32 = 0;
    if !assert {
        done = done ^ mask;
        assert(0u32 ^ mask == mask) by (bit_vector);
    }
    let update = if assert {
        RegOp::Update { reg: reset_assert as usize, clear: 0, set: mask }
    } else {
        RegOp::Update { reg: reset_assert as usize, clear: mask, set: 0 }
    };
    vec![update, RegOp::WaitUntil { reg: reset_status as usize, mask, expected: done }]
}

/// Toggles the GMAC clock and reset lines of the system and always-on clock generators.
pub fn jh7110_clock_reset() -> (ops: Vec<RegOp>)
    ensures
        ops@ == seq![
            wr((CLOCK_CLKGEN1 + SYSCRG_RESET_ASSERT2) as usize, 0xffe5afc4),
            wr((CLOCK_CLKGEN1 + SYSCRG_RESET_ASSERT2) as usize, 0xffe5afc0),
            wr((CLOCK_CLKGEN2 + AONCRG_RESET_ASSERT) as usize, 0xe1),
            wr((CLOCK_CLKGEN2 + AONCRG_RESET_ASSERT) as usize, 0xe0),
            wr((CLOCK_CLKGEN2 + 0x38) as usize, 0xe2),
            wr((CLOCK_CLKGEN2 + 0x38) as usize, 0xe3),
        ],
{
    let sys: usize = (CLOCK_CLKGEN1 + SYSCRG_RESET_ASSERT2) as usize;
    let aon: usize = (CLOCK_CLKGEN2 + AONCRG_RESET_ASSERT) as usize;
    vec![
        RegOp::Write { reg: sys, value: 0xffe5afc4 },
        RegOp::Write { reg: sys, value: 0xffe5afc0 },
        RegOp::Write { reg: aon, value: 0xe1 },
        RegOp::Write { reg: aon, value: 0xe0 },
        RegOp::Write { reg: aon, value: 0xe2 },
        RegOp::Write { reg: aon, value: 0xe3 },
    ]
}

/// The program of one clause-22 style MDIO write through the GMII registers at `ioaddr`.
pub open spec fn mdio_write_cl_ops(ioaddr: u32, data: u32, value: u32) -> Seq<RegOp> {
    seq![
        wait((ioaddr + 0x10) as usize, 1, 0),
        wr((ioaddr + 0x14) as usize, data),
        wr((ioaddr + 0x10) as usize, value),
        wait((ioaddr + 0x10) as usize, 1, 0),
    ]
}

/// Writes the PHY configuration of the YT8531 (chip config, pad drive strength, RGMII
/// delays, auto-negotiation advertisement).
pub fn phy_config() -> (ops: Vec<RegOp>)
    ensures
        ops@ == mdio_write_cl_ops(ETHERNET1, 0xa001, 0x8020) + mdio_write_cl_ops(
            ETHERNET1,
            0xa010,
            0xcbff,
        ) + mdio_write_cl_ops(ETHERNET1, 0xa003, 0x850) + mdio_write_cl_ops(
            ETHERNET1,
            0x1de1,
            0x300,
        ),
{
    let mut ops = mdio_write_cl(ETHERNET1, 0xa001, 0x8020);
    let mut b = mdio_write_cl(ETHERNET1, 0xa010, 0xcbff);
    let mut c = mdio_write_cl(ETHERNET1, 0xa003, 0x850);
    let mut d = mdio_write_cl(ETHERNET1, 0x1de1, 0x300);
    ops.append(&mut b);
    ops.append(&mut c);
    ops.append(&mut d);
    ops
}

/// Waits for the MDIO bus, writes `data` to the data register and `value` to the address
/// register, and waits for the bus again.
fn mdio_write_cl(ioaddr: u32, data: u32, value: u32) -> (ops: Vec<RegOp>)
    requires
        ioaddr + 0x14 <= u32::MAX,
    ensures
        ops@ == mdio_write_cl_ops(ioaddr, data, value),
{
    let addr_reg: usize = (ioaddr + 0x10) as usize;
    let data_reg: usize = (ioaddr + 0x14) as usize;
    vec![
        RegOp::WaitUntil { reg: addr_reg, mask: 1, expected: 0 },
        RegOp::Write { reg: data_reg, value: data },
        RegOp::Write { reg: addr_reg, value },
        RegOp::WaitUntil { reg: addr_reg, mask: 1, expected: 0 },
    ]
}

/// The GMII address word of a read of register `reg` of PHY 3, with clock range 150-250 MHz.
pub open spec fn mdio_read_cl_word(reg: u32) -> u32 {
    (((3u32 << 11u32) & (0x1fu32 << 11u32)) | ((reg << 6u32) & (0x1fu32 << 6u32))) | 0x10u32 | 1u32
}

/// Starts a read of PHY register `reg` through the GMII registers at `iobase`; the result
/// is the data register once the bus is idle.
fn mdio_read_cl(iobase: u32, reg: u32) -> (r: RegRead)
    requires
        iobase + 0x14 <= u32::MAX,
    ensures
        r.ops@ == seq![
            wr((iobase + 0x10) as usize, mdio_read_cl_word(reg)),
            wait((iobase + 0x10) as usize, 1, 0),
        ],
        r.reg == (iobase + 0x14) as usize,
        r.mask == 0xffff_ffff,
{
    let miiaddr: u32 = ((3u32 << 11u32) & (0x1fu32 << 11u32)) | ((reg << 6u32) & (0x1fu32 << 6u32));
    let miiaddr: u32 = miiaddr | 0x10u32 | 1u32;
    let addr_reg: usize = (iobase + 0x10) as usize;
    RegRead {
        ops: vec![
            RegOp::Write { reg: addr_reg, value: miiaddr },
            RegOp::WaitUntil { reg: addr_reg, mask: 1, expected: 0 },
        ],
        reg: (iobase + 0x14) as usize,
        mask: 0xffff_ffff,
    }
}

/// Starts a software reset of the DMA, given the bus mode register as read.
///
/// The wait that follows tests the reset bit of the value read before the reset was
/// started, so it returns at once when that bit was clear and never returns otherwise;
/// `requires` leaves the second case out.
pub fn dwmac_dma_reset(bus_mode: u32) -> (ops: Vec<RegOp>)
    requires
        bus_mode & DMA_BUS_MODE_SFT_RESET == 0,
    ensures
        ops@ == seq![wr(eth(DMA_BUS_MODE), bus_mode | DMA_BUS_MODE_SFT_RESET)],
{
    vec![RegOp::Write { reg: eth_reg(DMA_BUS_MODE), value: bus_mode | DMA_BUS_MODE_SFT_RESET }]
}

/// Programs the DMA bus mode and channel 0: descriptor list bases, Rx tail, burst lengths
/// and ring lengths.
pub fn dwmac_dma_init_rxtx_chan(
    rx_ring_len: u32,
    rdes_base: u32,
    rdes_end: u32,
    tx_ring_len: u32,
    tdes_base: u32,
    tdes_end: u32,
) -> (ops: Vec<RegOp>)
    ensures
        ops@ == seq![
            wr(eth(DMA_BUS_MODE), 0x1),
            wr(eth(DMA_BUS_MODE), 0xf0f08f1),
            wr(eth(dma_ch0_control), 0),
            wr(eth(dma_ch0_rx_control), 0x100000),
            wr(eth(dma_ch0_rxdesc_list_address), rdes_base),
            wr(eth(dma_ch0_rxdesc_tail_pointer), rdes_end),
            wr(eth(dma_ch0_tx_control), 0x100010),
            wr(eth(dma_ch0_txdesc_list_address), tdes_base),
            wr(eth(dma_ch0_txdesc_ring_length), 64),
            wr(eth(dma_ch0_rxdesc_ring_length), 64),
        ],
{
    let mut ops = vec![
        RegOp::Write { reg: eth_reg(DMA_BUS_MODE), value: 0x1 },
        RegOp::Write { reg: eth_reg(DMA_BUS_MODE), value: 0xf0f08f1 },
        RegOp::Write { reg: eth_reg(dma_ch0_control), value: 0 },
        RegOp::Write { reg: eth_reg(dma_ch0_rx_control), value: 0x100000 },
        RegOp::Write { reg: eth_reg(dma_ch0_rxdesc_list_address), value: rdes_base },
        RegOp::Write { reg: eth_reg(dma_ch0_rxdesc_tail_pointer), value: rdes_end },
        RegOp::Write { reg: eth_reg(dma_ch0_tx_control), value: 0x100010 },
        RegOp::Write { reg: eth_reg(dma_ch0_txdesc_list_address), value: tdes_base },
    ];
    let mut lens = dwmac4_set_rxtx_ring_len(rx_ring_len, tx_ring_len);
    ops.append(&mut lens);
    ops
}

/// Programs the fixed MAC address aa:bb:cc:dd:05:06.
pub fn set_mac_addr() -> (ops: Vec<RegOp>)
    ensures
        ops@ == seq![wr(eth(mac_address0_high), 0x0605), wr(eth(mac_address0_low), 0xddccbbaa)],
{
    vec![
        RegOp::Write { reg: eth_reg(mac_address0_high), value: 0x0605 },
        RegOp::Write { reg: eth_reg(mac_address0_low), value: 0xddccbbaa },
    ]
}

/// The MAC core setup: one write of the configuration register.
pub fn dwmac4_core_init() -> (ops: Vec<RegOp>)
    ensures
        ops@ == seq![wr(eth(0), 0x78200)],
{
    vec![RegOp::Write { reg: eth_reg(0), value: 0x78200 }]
}

/// Maps Rx queue 0 to DMA channel 0, enables it, and sets the MTL queue operation modes.
pub fn dwmac_mtl_queue_set() -> (ops: Vec<RegOp>)
    ensures
        ops@ == seq![
            wr(eth(MTL_RXQ_DMA_MAP0), 0x0),
            wr(eth(mac_rxq_ctrl0), 0x2),
            wr(eth(mtl_rxq0_operation_mode), 0x700000),
            wr(eth(mtl_txq0_operation_mode), 0x70018),
        ],
{
    vec![
        RegOp::Write { reg: eth_reg(MTL_RXQ_DMA_MAP0), value: 0x0 },
        RegOp::Write { reg: eth_reg(mac_rxq_ctrl0), value: 0x2 },
        RegOp::Write { reg: eth_reg(mtl_rxq0_operation_mode), value: 0x700000 },
        RegOp::Write { reg: eth_reg(mtl_txq0_operation_mode), value: 0x70018 },
    ]
}

/// Sets the channel 0 ring lengths. Both rings get 64, whatever the arguments.
pub fn dwmac4_set_rxtx_ring_len(rx_ring_len: u32, tx_ring_len: u32) -> (ops: Vec<RegOp>)
    ensures
        ops@ == seq![wr(eth(dma_ch0_txdesc_ring_length), 64), wr(eth(dma_ch0_rxdesc_ring_length), 64)],
{
    let tx_ring_len: u32 = 64;
    let rx_ring_len: u32 = 64;
    vec![
        RegOp::Write { reg: eth_reg(dma_ch0_txdesc_ring_length), value: tx_ring_len },
        RegOp::Write { reg: eth_reg(dma_ch0_rxdesc_ring_length), value: rx_ring_len },
    ]
}

/// Disables Rx and Tx flow control.
pub fn dwmac4_flow_ctrl() -> (ops: Vec<RegOp>)
    ensures
        ops@ == seq![wr(eth(mac_rx_flow_ctrl), 0), wr(eth(mac_q0_tx_flow_ctrl), 0)],
{
    vec![
        RegOp::Write { reg: eth_reg(mac_rx_flow_ctrl), value: 0 },
        RegOp::Write { reg: eth_reg(mac_q0_tx_flow_ctrl), value: 0 },
    ]
}

/// Starts the Rx DMA and the receiver, then the Tx DMA and the transmitter.
pub fn dma_start_rxtx() -> (ops: Vec<RegOp>)
    ensures
        ops@ == seq![
            upd(eth(dma_ch0_rx_control), 0, EQOS_DMA_CH0_RX_CONTROL_SR),
            upd(eth(0), 0, EQOS_MAC_CONFIGURATION_RE),
            upd(eth(dma_ch0_tx_control), 0, EQOS_DMA_CH0_TX_CONTROL_ST),
            upd(eth(0), 0, EQOS_MAC_CONFIGURATION_TE),
        ],
{
    vec![
        RegOp::Update { reg: eth_reg(dma_ch0_rx_control), clear: 0, set: EQOS_DMA_CH0_RX_CONTROL_SR },
        RegOp::Update { reg: eth_reg(0), clear: 0, set: EQOS_MAC_CONFIGURATION_RE },
        RegOp::Update { reg: eth_reg(dma_ch0_tx_control), clear: 0, set: EQOS_DMA_CH0_TX_CONTROL_ST },
        RegOp::Update { reg: eth_reg(0), clear: 0, set: EQOS_MAC_CONFIGURATION_TE },
    ]
}

/// Writes the MAC configuration of an established 1000M full-duplex link.
pub fn stmmac_mac_link_up() -> (ops: Vec<RegOp>)
    ensures
        ops@ == seq![wr(eth(0), 0x8072203)],
{
    vec![RegOp::Write { reg: eth_reg(0), value: 0x8072203 }]
}

/// Enables (`enable`) or disables the MAC receiver and transmitter through the MAC
/// control register's enable bits (transmitter 0x8, receiver 0x4).
pub fn stmmac_set_mac(enable: bool) -> (ops: Vec<RegOp>)
    ensures
        ops@ == seq![if enable { upd(eth(0), 0, 0xc) } else { upd(eth(0), 0xc, 0) }],
{
    let mac_enable_tx: u32 = 0x8;
    let mac_enable_rx: u32 = 0x4;
    let mut clear: u32 = 0;
    let mut set: u32 = 0;
    if enable {
        set = mac_enable_rx | mac_enable_tx;
    } else {
        clear = mac_enable_tx | mac_enable_rx;
    }
    assert(0x4u32 | 0x8u32 == 0xcu32 && 0x8u32 | 0x4u32 == 0xcu32) by (bit_vector);
    vec![RegOp::Update { reg: eth_reg(0), clear, set }]
}

/// Enables (`enable`) or disables the MAC receiver and transmitter.
pub fn stmmac_dwmac4_set_mac(enable: bool) -> (ops: Vec<RegOp>)
    ensures
        ops@ == seq![
            if enable {
                upd(eth(GMAC_CONFIG), 0, GMAC_CONFIG_RE | GMAC_CONFIG_TE)
            } else {
                upd(eth(GMAC_CONFIG), GMAC_CONFIG_TE | GMAC_CONFIG_RE, 0)
            },
        ],
{
    let reg = eth_reg(GMAC_CONFIG);
    if enable {
        vec![RegOp::Update { reg, clear: 0, set: GMAC_CONFIG_RE | GMAC_CONFIG_TE }]
    } else {
        vec![RegOp::Update { reg, clear: GMAC_CONFIG_TE | GMAC_CONFIG_RE, set: 0 }]
    }
}

/// The address-high register word of MAC address `addr` (bytes 4 and 5, address enable).
pub open spec fn mac_addr_high_word(addr: Seq<u8>) -> u32 {
    ((((addr[5] as u32) << 8u32) | (addr[4] as u32)) | (0u32 << GMAC_HI_DCS_SHIFT)) | GMAC_HI_REG_AE
}

/// The address-low register word of MAC address `addr` (bytes 0 to 3, little end first).
pub open spec fn mac_addr_low_word(addr: Seq<u8>) -> u32 {
    ((((addr[3] as u32) << 24u32) | ((addr[2] as u32) << 16u32)) | ((addr[1] as u32) << 8u32)) | (
    addr[0] as u32)
}

/// Programs MAC address `addr` into address register pair 0, DMA channel 0.
pub fn stmmac_dwmac4_set_mac_addr(addr: &[u8; 6]) -> (ops: Vec<RegOp>)
    ensures
        ops@ == seq![
            wr(eth(mac_address0_high), mac_addr_high_word(addr@)),
            wr(eth(mac_address0_low), mac_addr_low_word(addr@)),
        ],
{
    let stmmac_chan0: u32 = 0;
    let data: u32 = ((addr[5] as u32) << 8u32) | (addr[4] as u32);
    let data: u32 = data | (stmmac_chan0 << GMAC_HI_DCS_SHIFT);
    let hi: u32 = data | GMAC_HI_REG_AE;
    let lo: u32 = ((addr[3] as u32) << 24u32) | ((addr[2] as u32) << 16u32) | ((addr[1] as u32)
        << 8u32) | (addr[0] as u32);
    vec![
        RegOp::Write { reg: eth_reg(mac_address0_high), value: hi },
        RegOp::Write { reg: eth_reg(mac_address0_low), value: lo },
    ]
}

/// The MAC address held by address register pair 0, given its high and low words.
pub open spec fn mac_addr_of(hi_addr: u32, lo_addr: u32) -> Seq<u8> {
    seq![
        (lo_addr & 0xff) as u8,
        ((lo_addr >> 8u32) & 0xff) as u8,
        ((lo_addr >> 16u32) & 0xff) as u8,
        ((lo_addr >> 24u32) & 0xff) as u8,
        (hi_addr & 0xff) as u8,
        ((hi_addr >> 8u32) & 0xff) as u8,
    ]
}

/// Stores into `addr` the MAC address held by address register pair 0, given the words
/// read from its high and low registers.
pub fn stmmac_dwmac4_get_mac_addr(addr: &mut [u8; 6], hi_addr: u32, lo_addr: u32)
    ensures
        final(addr)@ == mac_addr_of(hi_addr, lo_addr),
{
    addr[0] = (lo_addr & 0xff) as u8;
    addr[1] = ((lo_addr >> 8u32) & 0xff) as u8;
    addr[2] = ((lo_addr >> 16u32) & 0xff) as u8;
    addr[3] = ((lo_addr >> 24u32) & 0xff) as u8;
    addr[4] = (hi_addr & 0xff) as u8;
    addr[5] = ((hi_addr >> 8u32) & 0xff) as u8;
    assert(addr@ =~= mac_addr_of(hi_addr, lo_addr));
}

/// The channel interrupt enable bits for Rx (`rx`) and Tx (`tx`) completion.
pub open spec fn irq_bits(rx: bool, tx: bool, rx_bit: u32, tx_bit: u32) -> u32 {
    (if rx { rx_bit } else { 0 }) | (if tx { tx_bit } else { 0 })
}

/// Adds the Rx and/or Tx completion interrupts to the enabled channel 0 interrupts.
pub fn dwmac4_enable_dma_irq(rx: bool, tx: bool) -> (ops: Vec<RegOp>)
    ensures
        ops@ == seq![
            upd(
                eth(DMA_CHAN_INTR_ENA),
                0,
                irq_bits(rx, tx, DMA_CHAN_INTR_DEFAULT_RX, DMA_CHAN_INTR_DEFAULT_TX),
            ),
        ],
{
    let rx_bits: u32 = if rx { DMA_CHAN_INTR_DEFAULT_RX } else { 0 };
    let tx_bits: u32 = if tx { DMA_CHAN_INTR_DEFAULT_TX } else { 0 };
    let set: u32 = rx_bits | tx_bits;
    vec![RegOp::Update { reg: eth_reg(DMA_CHAN_INTR_ENA), clear: 0, set }]
}

/// The interrupt enable register of the older DMA core.
pub const DMA_INTR_ENA: u32 = 0x101c;

/// Adds the Rx and/or Tx interrupts to the enabled interrupts of the older DMA core.
pub fn dwmac_enable_dma_irq(rx: bool, tx: bool) -> (ops: Vec<RegOp>)
    ensures
        ops@ == seq![upd(eth(DMA_INTR_ENA), 0, irq_bits(rx, tx, 0x40, 0x01))],
{
    let dma_intr_default_rx: u32 = 0x40;
    let dma_intr_default_tx: u32 = 0x01;
    let rx_bits: u32 = if rx { dma_intr_default_rx } else { 0 };
    let tx_bits: u32 = if tx { dma_intr_default_tx } else { 0 };
    let set: u32 = rx_bits | tx_bits;
    vec![RegOp::Update { reg: eth_reg(DMA_INTR_ENA), clear: 0, set }]
}

/// Duplex and speed of the link, from the YT8531 PHY specific status register.
#[derive(PartialEq, Eq, Structural, Clone, Copy, Debug)]
pub struct PhyLinkStatus {
    /// 0: half duplex, 1: full duplex.
    pub duplex: u32,
    /// 2: 1000M, 1: 100M, 0: 10M.
    pub speed_mode: u32,
}

/// PHY specific status register of the YT8531.
pub const REG_PHY_SPEC_STATUS: u32 = 0x11;

/// The registers that the status dump reads and prints: MAC, DMA channel 0, then the
/// PHY specific status register of PHY 0, then the DMA status registers.
pub struct StatusDump {
    /// MAC tick counter, hardware features 0 to 2, MAC address high and low; current
    /// Rx/Tx descriptor and buffer; Tx/Rx descriptor list base and tail pointers.
    pub before_phy: Vec<usize>,
    /// The read of the PHY specific status register.
    pub phy: RegRead,
    /// DMA status and debug status 0 to 2.
    pub after_phy: Vec<usize>,
}

/// The status dump of the MAC, the DMA channel and the PHY link.
pub fn dma_status_read() -> (r: StatusDump)
    ensures
        r.before_phy@ == seq![
            eth(mac_us_tic_counter),
            eth(mac_hw_feature0),
            eth(mac_hw_feature1),
            eth(mac_hw_feature2),
            eth(mac_address0_high),
            eth(mac_address0_low),
            eth(DMA_CHAN_CUR_RX_DESC),
            eth(DMA_CHAN_CUR_TX_DESC),
            eth(DMA_CHAN_CUR_RX_BUF_ADDR),
            eth(DMA_CHAN_CUR_TX_BUF_ADDR),
            eth(dma_ch0_txdesc_list_address),
            eth(dma_ch0_rxdesc_list_address),
            eth(dma_ch0_txdesc_tail_pointer),
            eth(dma_ch0_rxdesc_tail_pointer),
        ],
        r.phy.ops@ == eqos_mdio_read_ops(0, REG_PHY_SPEC_STATUS),
        r.phy.reg == eth(mac_mdio_data),
        r.phy.mask == EQOS_MAC_MDIO_DATA_GD_MASK,
        r.after_phy@ == seq![
            eth(DMA_STATUS),
            eth(DMA_DEBUG_STATUS_0),
            eth(DMA_DEBUG_STATUS_1),
            eth(DMA_DEBUG_STATUS_2),
        ],
{
    let phy_addr: u32 = 0;
    StatusDump {
        before_phy: vec![
            eth_reg(mac_us_tic_counter),
            eth_reg(mac_hw_feature0),
            eth_reg(mac_hw_feature1),
            eth_reg(mac_hw_feature2),
            eth_reg(mac_address0_high),
            eth_reg(mac_address0_low),
            eth_reg(DMA_CHAN_CUR_RX_DESC),
            eth_reg(DMA_CHAN_CUR_TX_DESC),
            eth_reg(DMA_CHAN_CUR_RX_BUF_ADDR),
            eth_reg(DMA_CHAN_CUR_TX_BUF_ADDR),
            eth_reg(dma_ch0_txdesc_list_address),
            eth_reg(dma_ch0_rxdesc_list_address),
            eth_reg(dma_ch0_txdesc_tail_pointer),
            eth_reg(dma_ch0_rxdesc_tail_pointer),
        ],
        phy: eqos_mdio_read(phy_addr, 0, REG_PHY_SPEC_STATUS),
        after_phy: vec![
            eth_reg(DMA_STATUS),
            eth_reg(DMA_DEBUG_STATUS_0),
            eth_reg(DMA_DEBUG_STATUS_1),
            eth_reg(DMA_DEBUG_STATUS_2),
        ],
    }
}

/// Duplex and speed of the link, given the MDIO data register as read by the status
/// dump's PHY read (masked to the data field first).
pub fn phy_link_status(data: u32) -> (r: PhyLinkStatus)
    ensures
        r.duplex == ((data & EQOS_MAC_MDIO_DATA_GD_MASK) & 0x2000) >> 13u32,
        r.speed_mode == ((data & EQOS_MAC_MDIO_DATA_GD_MASK) & 0xc000) >> 14u32,
        r.duplex < 2,
        r.speed_mode < 4,
{
    let phy_stat: u32 = data & EQOS_MAC_MDIO_DATA_GD_MASK;
    let ytphy_duplex: u32 = 0x2000;
    let ytphy_duplex_bit: u32 = 13;
    let ytphy_speed_mode: u32 = 0xc000;
    let ytphy_speed_mode_bit: u32 = 14;
    assert((phy_stat & 0x2000u32) >> 13u32 < 2 && (phy_stat & 0xc000u32) >> 14u32 < 4) by (bit_vector);
    PhyLinkStatus {
        duplex: (phy_stat & ytphy_duplex) >> ytphy_duplex_bit,
        speed_mode: (phy_stat & ytphy_speed_mode) >> ytphy_speed_mode_bit,
    }
}

/// Transmit process state of the DMA.
#[derive(PartialEq, Eq, Structural, Clone, Copy, Debug)]
pub enum TxProcessState {
    /// Reset or Stop command.
    Stopped,
    /// Fetching the Tx descriptor.
    FetchingDescriptor,
    /// Waiting for the end of transmission.
    WaitingForEndOfTx,
    /// Reading the data and queuing it into the Tx buffer.
    QueuingData,
    /// Tx buffer underflow or an unavailable transmit descriptor.
    Suspended,
    /// Closing the Tx descriptor.
    ClosingDescriptor,
    /// A state that has no name (4 or 5).
    Unknown(u32),
}

impl TxProcessState {
    /// The driver's description of the state.
    pub fn message(&self) -> (s: &'static str)
        ensures
            *self == TxProcessState::Stopped ==> s@ == "- TX (Stopped): Reset or Stop command"@,
            *self == TxProcessState::FetchingDescriptor ==> s@ == "- TX (Running): Fetching the Tx desc"@,
            *self == TxProcessState::WaitingForEndOfTx ==> s@ == "- TX (Running): Waiting for end of tx"@,
            *self == TxProcessState::QueuingData ==> s@
                == "- TX (Running): Reading the data and queuing the data into the Tx buf"@,
            *self == TxProcessState::Suspended ==> s@
                == "- TX (Suspended): Tx Buff Underflow or an unavailable Transmit descriptor"@,
            *self == TxProcessState::ClosingDescriptor ==> s@ == "- TX (Running): Closing Tx descriptor"@,
            *self is Unknown ==> s@ == "Unknown TX state"@,
    {
        match self {
            TxProcessState::Stopped => "- TX (Stopped): Reset or Stop command",
            TxProcessState::FetchingDescriptor => "- TX (Running): Fetching the Tx desc",
            TxProcessState::WaitingForEndOfTx => "- TX (Running): Waiting for end of tx",
            TxProcessState::QueuingData => "- TX (Running): Reading the data and queuing the data into the Tx buf",
            TxProcessState::Suspended => "- TX (Suspended): Tx Buff Underflow or an unavailable Transmit descriptor",
            TxProcessState::ClosingDescriptor => "- TX (Running): Closing Tx descriptor",
            TxProcessState::Unknown(_) => "Unknown TX state",
        }
    }
}

pub const DMA_STATUS_TS_MASK: u32 = 0x00700000;
pub const DMA_STATUS_TS_SHIFT: u32 = 20;
pub const DMA_STATUS_RS_MASK: u32 = 0x000e0000;
pub const DMA_STATUS_RS_SHIFT: u32 = 17;

/// The transmit process state held by DMA status word `status` (bits 22:20).
pub fn show_tx_process_state(status: u32) -> (r: TxProcessState)
    ensures
        ({
            let state = (status & DMA_STATUS_TS_MASK) >> DMA_STATUS_TS_SHIFT;
            r == (if state == 0 {
                TxProcessState::Stopped
            } else if state == 1 {
                TxProcessState::FetchingDescriptor
            } else if state == 2 {
                TxProcessState::WaitingForEndOfTx
            } else if state == 3 {
                TxProcessState::QueuingData
            } else if state == 6 {
                TxProcessState::Suspended
            } else if state == 7 {
                TxProcessState::ClosingDescriptor
            } else {
                TxProcessState::Unknown(state)
            })
        }),
{
    let state: u32 = (status & DMA_STATUS_TS_MASK) >> DMA_STATUS_TS_SHIFT;
    if state == 0 {
        TxProcessState::Stopped
    } else if state == 1 {
        TxProcessState::FetchingDescriptor
    } else if state == 2 {
        TxProcessState::WaitingForEndOfTx
    } else if state == 3 {
        TxProcessState::QueuingData
    } else if state == 6 {
        TxProcessState::Suspended
    } else if state == 7 {
        TxProcessState::ClosingDescriptor
    } else {
        TxProcessState::Unknown(state)
    }
}

/// Receive process state of the DMA.
#[derive(PartialEq, Eq, Structural, Clone, Copy, Debug)]
pub enum RxProcessState {
    /// Reset or Stop command.
    Stopped,
    /// Fetching the Rx descriptor.
    FetchingDescriptor,
    /// Checking for the end of a packet.
    CheckingEndOfPacket,
    /// Waiting for an Rx packet.
    WaitingForPacket,
    /// Unavailable Rx buffer.
    Suspended,
    /// Closing the Rx descriptor.
    ClosingDescriptor,
    /// Flushing the current frame from the Rx buffer.
    FlushingFrame,
    /// Queuing the Rx frame from the Rx buffer into memory.
    QueuingFrame,
}

impl RxProcessState {
    /// The driver's description of the state.
    pub fn message(&self) -> (s: &'static str)
        ensures
            *self == RxProcessState::Stopped ==> s@ == "- RX (Stopped): Reset or Stop command"@,
            *self == RxProcessState::FetchingDescriptor ==> s@ == "- RX (Running): Fetching the Rx desc"@,
            *self == RxProcessState::CheckingEndOfPacket ==> s@ == "- RX (Running): Checking for end of pkt"@,
            *self == RxProcessState::WaitingForPacket ==> s@ == "- RX (Running): Waiting for Rx pkt"@,
            *self == RxProcessState::Suspended ==> s@ == "- RX (Suspended): Unavailable Rx buf"@,
            *self == RxProcessState::ClosingDescriptor ==> s@ == "- RX (Running): Closing Rx descriptor"@,
            *self == RxProcessState::FlushingFrame ==> s@
                == "- RX(Running): Flushing the current frame from the Rx buf"@,
            *self == RxProcessState::QueuingFrame ==> s@
                == "- RX (Running): Queuing the Rx frame from the Rx buf into memory"@,
    {
        match self {
            RxProcessState::Stopped => "- RX (Stopped): Reset or Stop command",
            RxProcessState::FetchingDescriptor => "- RX (Running): Fetching the Rx desc",
            RxProcessState::CheckingEndOfPacket => "- RX (Running): Checking for end of pkt",
            RxProcessState::WaitingForPacket => "- RX (Running): Waiting for Rx pkt",
            RxProcessState::Suspended => "- RX (Suspended): Unavailable Rx buf",
            RxProcessState::ClosingDescriptor => "- RX (Running): Closing Rx descriptor",
            RxProcessState::FlushingFrame => "- RX(Running): Flushing the current frame from the Rx buf",
            RxProcessState::QueuingFrame => "- RX (Running): Queuing the Rx frame from the Rx buf into memory",
        }
    }
}

/// The receive process state held by DMA status word `status` (bits 19:17).
pub fn show_rx_process_state(status: u32) -> (r: RxProcessState)
    ensures
        ({
            let state = (status & DMA_STATUS_RS_MASK) >> DMA_STATUS_RS_SHIFT;
            r == (if state == 0 {
                RxProcessState::Stopped
            } else if state == 1 {
                RxProcessState::FetchingDescriptor
            } else if state == 2 {
                RxProcessState::CheckingEndOfPacket
            } else if state == 3 {
                RxProcessState::WaitingForPacket
            } else if state == 4 {
                RxProcessState::Suspended
            } else if state == 5 {
                RxProcessState::ClosingDescriptor
            } else if state == 6 {
                RxProcessState::FlushingFrame
            } else {
                RxProcessState::QueuingFrame
            })
        }),
{
    let state: u32 = (status & DMA_STATUS_RS_MASK) >> DMA_STATUS_RS_SHIFT;
    assert((status & 0x000e0000u32) >> 17u32 < 8) by (bit_vector);
    if state == 0 {
        RxProcessState::Stopped
    } else if state == 1 {
        RxProcessState::FetchingDescriptor
    } else if state == 2 {
        RxProcessState::CheckingEndOfPacket
    } else if state == 3 {
        RxProcessState::WaitingForPacket
    } else if state == 4 {
        RxProcessState::Suspended
    } else if state == 5 {
        RxProcessState::ClosingDescriptor
    } else if state == 6 {
        RxProcessState::FlushingFrame
    } else {
        RxProcessState::QueuingFrame
    }
}

/// The MDIO address register command word: PHY `mdio_addr`, register `mdio_reg`, clock range
/// 250-300 MHz, operation `goc`, busy.
pub open spec fn mdio_command(mdio_addr: u32, mdio_reg: u32, goc: u32) -> u32 {
    ((((mdio_addr << EQOS_MAC_MDIO_ADDRESS_PA_SHIFT) | (mdio_reg << EQOS_MAC_MDIO_ADDRESS_RDA_SHIFT))
        | (5u32 << EQOS_MAC_MDIO_ADDRESS_CR_SHIFT)) | (goc << EQOS_MAC_MDIO_ADDRESS_GOC_SHIFT))
        | EQOS_MAC_MDIO_ADDRESS_GB
}

/// The bits of the MDIO address register that a new command keeps.
pub open spec fn mdio_keep_mask() -> u32 {
    EQOS_MAC_MDIO_ADDRESS_SKAP | EQOS_MAC_MDIO_ADDRESS_C45E
}

/// The MDIO address register command word `mdio_command(mdio_addr, mdio_reg, goc)`.
pub fn mdio_command_word(mdio_addr: u32, mdio_reg: u32, goc: u32) -> (r: u32)
    ensures
        r == mdio_command(mdio_addr, mdio_reg, goc),
{
    let eqos_config_config_mac_mdio: u32 = 5;
    (mdio_addr << EQOS_MAC_MDIO_ADDRESS_PA_SHIFT) | (mdio_reg << EQOS_MAC_MDIO_ADDRESS_RDA_SHIFT) | (
    eqos_config_config_mac_mdio << EQOS_MAC_MDIO_ADDRESS_CR_SHIFT) | (goc
        << EQOS_MAC_MDIO_ADDRESS_GOC_SHIFT) | EQOS_MAC_MDIO_ADDRESS_GB
}

/// Writes `mdio_val` to register `mdio_reg` of PHY `mdio_addr`: waits for the MDIO bus,
/// loads the data register, issues a write command keeping the SKAP and C45E bits, and
/// waits for the bus again.
pub fn eqos_mdio_write(mdio_addr: u32, mdio_reg: u32, mdio_val: u16) -> (ops: Vec<RegOp>)
    ensures
        ops@ == seq![
            wait(eth(mac_mdio_address), EQOS_MAC_MDIO_ADDRESS_GB, 0),
            wr(eth(mac_mdio_data), mdio_val as u32),
            upd(
                eth(mac_mdio_address),
                !mdio_keep_mask(),
                mdio_command(mdio_addr, mdio_reg, EQOS_MAC_MDIO_ADDRESS_GOC_WRITE),
            ),
            wait(eth(mac_mdio_address), EQOS_MAC_MDIO_ADDRESS_GB, 0),
        ],
        ops@[2] matches RegOp::Update { set: cmd, .. } && (cmd >> 2u32) & 3 == 1 && cmd & 1 == 1,
{
    proof {
        lemma_mdio_command_operation(mdio_addr, mdio_reg, EQOS_MAC_MDIO_ADDRESS_GOC_WRITE);
    }
    let addr_reg = eth_reg(mac_mdio_address);
    let cmd = mdio_command_word(mdio_addr, mdio_reg, EQOS_MAC_MDIO_ADDRESS_GOC_WRITE);
    vec![
        RegOp::WaitUntil { reg: addr_reg, mask: EQOS_MAC_MDIO_ADDRESS_GB, expected: 0 },
        RegOp::Write { reg: eth_reg(mac_mdio_data), value: mdio_val as u32 },
        RegOp::Update {
            reg: addr_reg,
            clear: !(EQOS_MAC_MDIO_ADDRESS_SKAP | EQOS_MAC_MDIO_ADDRESS_C45E),
            set: cmd,
        },
        RegOp::WaitUntil { reg: addr_reg, mask: EQOS_MAC_MDIO_ADDRESS_GB, expected: 0 },
    ]
}

/// The command program of an MDIO read of register `mdio_reg` of PHY `mdio_addr`.
pub open spec fn eqos_mdio_read_ops(mdio_addr: u32, mdio_reg: u32) -> Seq<RegOp> {
    seq![
        wait(eth(mac_mdio_address), EQOS_MAC_MDIO_ADDRESS_GB, 0),
        upd(
            eth(mac_mdio_address),
            !mdio_keep_mask(),
            mdio_command(mdio_addr, mdio_reg, EQOS_MAC_MDIO_ADDRESS_GOC_READ),
        ),
        wait(eth(mac_mdio_address), EQOS_MAC_MDIO_ADDRESS_GB, 0),
    ]
}

/// Reads register `mdio_reg` of PHY `mdio_addr`: waits for the MDIO bus, issues a read
/// command keeping the SKAP and C45E bits, waits for the bus; the result is the low 16
/// bits of the data register.
pub fn eqos_mdio_read(mdio_addr: u32, mdio_devad: u32, mdio_reg: u32) -> (r: RegRead)
    ensures
        r.ops@ == eqos_mdio_read_ops(mdio_addr, mdio_reg),
        r.reg == eth(mac_mdio_data),
        r.mask == EQOS_MAC_MDIO_DATA_GD_MASK,
        r.ops@[1] matches RegOp::Update { set: cmd, .. } && (cmd >> 2u32) & 3 == 3 && cmd & 1 == 1,
{
    proof {
        lemma_mdio_command_operation(mdio_addr, mdio_reg, EQOS_MAC_MDIO_ADDRESS_GOC_READ);
    }
    let addr_reg = eth_reg(mac_mdio_address);
    let cmd = mdio_command_word(mdio_addr, mdio_reg, EQOS_MAC_MDIO_ADDRESS_GOC_READ);
    RegRead {
        ops: vec![
            RegOp::WaitUntil { reg: addr_reg, mask: EQOS_MAC_MDIO_ADDRESS_GB, expected: 0 },
            RegOp::Update {
                reg: addr_reg,
                clear: !(EQOS_MAC_MDIO_ADDRESS_SKAP | EQOS_MAC_MDIO_ADDRESS_C45E),
                set: cmd,
            },
            RegOp::WaitUntil { reg: addr_reg, mask: EQOS_MAC_MDIO_ADDRESS_GB, expected: 0 },
        ],
        reg: eth_reg(mac_mdio_data),
        mask: EQOS_MAC_MDIO_DATA_GD_MASK,
    }
}

/// A MAC address written into address register pair 0 reads back unchanged: decoding
/// the two words that encode `addr` gives `addr`.
pub proof fn lemma_mac_addr_words(addr: Seq<u8>)
    requires
        addr.len() == 6,
    ensures
        mac_addr_of(mac_addr_high_word(addr), mac_addr_low_word(addr)) == addr,
{
    let (a0, a1, a2, a3, a4, a5) = (addr[0], addr[1], addr[2], addr[3], addr[4], addr[5]);
    let hi = mac_addr_high_word(addr);
    let lo = mac_addr_low_word(addr);
    assert(hi == ((((a5 as u32) << 8u32) | (a4 as u32)) | (0u32 << 16u32)) | 0x8000_0000u32);
    assert(lo == ((((a3 as u32) << 24u32) | ((a2 as u32) << 16u32)) | ((a1 as u32) << 8u32)) | (a0 as u32));
    assert((hi & 0xff) as u8 == a4 && ((hi >> 8u32) & 0xff) as u8 == a5) by (bit_vector)
        requires
            hi == ((((a5 as u32) << 8u32) | (a4 as u32)) | (0u32 << 16u32)) | 0x8000_0000u32,
    ;
    assert((lo & 0xff) as u8 == a0 && ((lo >> 8u32) & 0xff) as u8 == a1 && ((lo >> 16u32) & 0xff) as u8
        == a2 && ((lo >> 24u32) & 0xff) as u8 == a3) by (bit_vector)
        requires
            lo == ((((a3 as u32) << 24u32) | ((a2 as u32) << 16u32)) | ((a1 as u32) << 8u32)) | (
            a0 as u32),
    ;
    assert(mac_addr_of(hi, lo) =~= addr);
}

/// Reading the MAC address back after `stmmac_dwmac4_set_mac_addr(addr)` has run, on
/// registers that hold what is written to them, gives `addr`.
pub proof fn lemma_mac_addr_round_trip(regs: RegFile, addr: Seq<u8>)
    requires
        addr.len() == 6,
    ensures
        ({
            let after = run_ops(
                regs,
                seq![
                    wr(eth(mac_address0_high), mac_addr_high_word(addr)),
                    wr(eth(mac_address0_low), mac_addr_low_word(addr)),
                ],
            );
            mac_addr_of(after(eth(mac_address0_high)), after(eth(mac_address0_low))) == addr
        }),
{
    lemma_mac_addr_words(addr);
    let ops = seq![
        wr(eth(mac_address0_high), mac_addr_high_word(addr)),
        wr(eth(mac_address0_low), mac_addr_low_word(addr)),
    ];
    assert(ops.drop_first().drop_first() =~= Seq::<RegOp>::empty());
    assert(ops.drop_first()[0] == wr(eth(mac_address0_low), mac_addr_low_word(addr)));
    reveal_with_fuel(run_ops, 3);
    let r1 = apply_op(regs, ops[0]);
    let r2 = apply_op(r1, ops.drop_first()[0]);
    assert(run_ops(regs, ops) == r2);
}

/// After `stmmac_set_mac(enable)` has run, the MAC control register's transmitter and
/// receiver enable bits (0xc) are on exactly when `enable`, and its other bits are as
/// they were.
pub proof fn lemma_stmmac_set_mac_bits(old_value: u32, enable: bool)
    ensures
        ({
            let v = if enable { updated_value(old_value, 0, 0xc) } else { updated_value(old_value, 0xc, 0) };
            &&& v & 0xc == (if enable { 0xcu32 } else { 0u32 })
            &&& v & !0xcu32 == old_value & !0xcu32
        }),
{
    assert(((old_value & !0u32) | 0xcu32) & 0xc == 0xcu32 && ((old_value & !0u32) | 0xcu32) & !0xcu32
        == old_value & !0xcu32) by (bit_vector);
    assert(((old_value & !0xcu32) | 0u32) & 0xc == 0u32 && ((old_value & !0xcu32) | 0u32) & !0xcu32
        == old_value & !0xcu32) by (bit_vector);
}

/// After `stmmac_dwmac4_set_mac(enable)` has run, the receiver and transmitter enable
/// bits of the configuration register are on exactly when `enable`, and its other bits
/// are as they were.
pub proof fn lemma_set_mac_enable_bits(regs: RegFile, enable: bool)
    ensures
        ({
            let op = if enable {
                upd(eth(GMAC_CONFIG), 0, GMAC_CONFIG_RE | GMAC_CONFIG_TE)
            } else {
                upd(eth(GMAC_CONFIG), GMAC_CONFIG_TE | GMAC_CONFIG_RE, 0)
            };
            let v = run_ops(regs, seq![op])(eth(GMAC_CONFIG));
            let old_v = regs(eth(GMAC_CONFIG));
            &&& v & 3 == (if enable { 3u32 } else { 0u32 })
            &&& v & !3u32 == old_v & !3u32
        }),
{
    let op = if enable {
        upd(eth(GMAC_CONFIG), 0, GMAC_CONFIG_RE | GMAC_CONFIG_TE)
    } else {
        upd(eth(GMAC_CONFIG), GMAC_CONFIG_TE | GMAC_CONFIG_RE, 0)
    };
    assert(seq![op].drop_first() =~= Seq::<RegOp>::empty());
    reveal_with_fuel(run_ops, 2);
    assert(run_ops(regs, seq![op]) == apply_op(regs, op));
    let old_v = regs(eth(GMAC_CONFIG));
    assert(updated_value(old_v, 0, 1u32 | 2u32) & 3 == 3u32 && updated_value(old_v, 0, 1u32 | 2u32)
        & !3u32 == old_v & !3u32) by (bit_vector);
    assert(updated_value(old_v, 2u32 | 1u32, 0) & 3 == 0u32 && updated_value(old_v, 2u32 | 1u32, 0)
        & !3u32 == old_v & !3u32) by (bit_vector);
}

/// The command word of an MDIO access carries, for a PHY address and a register number
/// below 32, the PHY address in bits 25:21, the register in bits 20:16, clock range 5 in
/// bits 11:8, the operation in bits 3:2 and the busy bit 0; the bits that the command
/// keeps from the register (SKAP, C45E) are clear in it.
pub proof fn lemma_mdio_command_fields(mdio_addr: u32, mdio_reg: u32, goc: u32)
    requires
        mdio_addr < 32,
        mdio_reg < 32,
        goc < 4,
    ensures
        (mdio_command(mdio_addr, mdio_reg, goc) >> 21u32) & 0x1f == mdio_addr,
        (mdio_command(mdio_addr, mdio_reg, goc) >> 16u32) & 0x1f == mdio_reg,
        (mdio_command(mdio_addr, mdio_reg, goc) >> 8u32) & 0xf == 5,
        (mdio_command(mdio_addr, mdio_reg, goc) >> 2u32) & 0x3 == goc,
        mdio_command(mdio_addr, mdio_reg, goc) & 1 == 1,
        mdio_command(mdio_addr, mdio_reg, goc) & mdio_keep_mask() == 0,
{
    let c = mdio_command(mdio_addr, mdio_reg, goc);
    assert(c == ((((mdio_addr << 21u32) | (mdio_reg << 16u32)) | (5u32 << 8u32)) | (goc << 2u32)) | 1u32);
    assert((c >> 21u32) & 0x1f == mdio_addr && (c >> 16u32) & 0x1f == mdio_reg && (c >> 8u32) & 0xf == 5
        && (c >> 2u32) & 0x3 == goc && c & 1 == 1 && c & (0x10u32 | 0x2u32) == 0) by (bit_vector)
        requires
            mdio_addr < 32,
            mdio_reg < 32,
            goc < 4,
            c == ((((mdio_addr << 21u32) | (mdio_reg << 16u32)) | (5u32 << 8u32)) | (goc << 2u32)) | 1u32,
    ;
}

/// The operation (bits 3:2) and the busy bit (bit 0) of an MDIO command word are those
/// it was made with, whatever the PHY address and register.
pub proof fn lemma_mdio_command_operation(mdio_addr: u32, mdio_reg: u32, goc: u32)
    requires
        goc < 4,
    ensures
        (mdio_command(mdio_addr, mdio_reg, goc) >> 2u32) & 3 == goc,
        mdio_command(mdio_addr, mdio_reg, goc) & 1 == 1,
{
    let c = mdio_command(mdio_addr, mdio_reg, goc);
    assert(c == ((((mdio_addr << 21u32) | (mdio_reg << 16u32)) | (5u32 << 8u32)) | (goc << 2u32)) | 1u32);
    assert((c >> 2u32) & 3 == goc && c & 1 == 1) by (bit_vector)
        requires
            goc < 4,
            c == ((((mdio_addr << 21u32) | (mdio_reg << 16u32)) | (5u32 << 8u32)) | (goc << 2u32)) | 1u32,
    ;
}

/// After the register update of `jh7110_reset_trigger(id, assert)` has run, the reset
/// line's bit in the assert register is set exactly when `assert`, and the other lines'
/// bits are as they were.
pub proof fn lemma_reset_trigger_bits(old_value: u32, id: u32, assert: bool)
    ensures
        ({
            let m = reset_mask(id);
            let v = updated_value(old_value, if assert { 0 } else { m }, if assert { m } else { 0 });
            &&& (v & m != 0) == assert
            &&& v & !m == old_value & !m
        }),
{
    let k = id % 32;
    let m = reset_mask(id);
    assert(m == 1u32 << k);
    assert(((old_value & !0u32) | m) & m != 0 && ((old_value & !0u32) | m) & !m == old_value & !m)
        by (bit_vector)
        requires
            k < 32,
            m == 1u32 << k,
    ;
    assert(((old_value & !m) | 0u32) & m == 0 && ((old_value & !m) | 0u32) & !m == old_value & !m)
        by (bit_vector);
}

/// The offset of the kernel's linear map of physical memory.
pub const PHYS_VIRT_OFFSET: u64 = 0xffff_ffc0_0000_0000;

/// The largest physical address that the kernel's linear map covers, plus one.
pub const PHYS_LIMIT: u64 = 0x40_0000_0000;

/// The virtual address of physical address `addr` in the kernel's linear map, as a 64-bit
/// address (the map exists on 64-bit platforms only).
pub fn phys_to_virt(addr: usize) -> (va: u64)
    requires
        addr < PHYS_LIMIT,
    ensures
        va == addr + PHYS_VIRT_OFFSET,
{
    (addr as u64) + PHYS_VIRT_OFFSET
}

} // verus!
