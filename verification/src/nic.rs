//! The network interface: bring-up programs, transmit and receive on the descriptor
//! rings, and interrupt status handling. Register programs here are addressed by offset
//! from the controller base.
use crate::descriptor::DmaExtendedDescriptor;
use crate::dwc_const::{GMAC_CONFIG_RE, GMAC_CONFIG_TE};
use crate::dwc_init::{lemma_mac_addr_words, mac_addr_high_word, mac_addr_low_word, mac_addr_of};
use crate::mmio::{
    ack, apply_op, lemma_run_ops_append, lemma_run_ops_frame, lemma_run_ops_last_write, masked_update,
    op_reg, run_ops,
    updated_value, upd, wr, RegFile, RegOp,
};
use crate::regs::dma::{
    BUS_MODE, CHAN_BASE_ADDR, CHAN_INTR_ENABLE, CHAN_RX_BASE_ADDR, CHAN_RX_BASE_ADDR_HI,
    CHAN_RX_CTRL, CHAN_RX_END_ADDR, CHAN_RX_RING_LEN, CHAN_STATUS, CHAN_TX_BASE_ADDR,
    CHAN_TX_BASE_ADDR_HI, CHAN_TX_CTRL, CHAN_TX_END_ADDR, CHAN_TX_RING_LEN, DESC_OWN,
    DMA_CHAN_STATUS_RI, DMA_RESET, GMAC_Q0_TX_FLOW_CTRL, GMAC_Q0_TX_FLOW_CTRL_TFE,
    INTR_DEFAULT_MASK_4_10, RDES3_BUFFER1_VALID_ADDR, RDES3_INT_ON_COMPLETION_EN,
    RDES3_PACKET_SIZE_MASK, RDES3_RDES0_VALID, SYS_BUS_MODE, TDES3_FIRST_DESCRIPTOR,
    TDES3_LAST_DESCRIPTOR,
};
use crate::regs::mac;
use crate::regs::mtl;
use crate::ring::{
    next_index, DescriptorRing, DESC_SIZE, RX_DESC3_READY, RX_DESC_COUNT, TX_DESC_COUNT,
};
use vstd::prelude::*;

verus! {

/// Why a transmit or a receive did not happen.
#[derive(PartialEq, Eq, Structural, Clone, Copy, Debug)]
pub enum NicError {
    /// No transmit slot is free, or its descriptor is still owned by the DMA engine.
    TxAgain,
    /// The DMA engine still owns the head receive descriptor: no frame has arrived.
    RxAgain,
    /// No free buffer is left to put back into the receive ring.
    RxNoMemory,
}

impl NicError {
    /// The driver's message for this error.
    pub fn message(&self) -> (s: &'static str)
        ensures
            *self == NicError::TxAgain ==> s@ == "TX Error::Again"@,
            *self == NicError::RxAgain ==> s@ == "RX Error::Again"@,
            *self == NicError::RxNoMemory ==> s@ == "RX Error::NoMemory"@,
    {
        match self {
            NicError::TxAgain => "TX Error::Again",
            NicError::RxAgain => "RX Error::Again",
            NicError::RxNoMemory => "RX Error::NoMemory",
        }
    }
}

/// How a poll of the DMA bus mode register during a DMA reset came out.
#[derive(PartialEq, Eq, Structural, Clone, Copy, Debug)]
pub enum ResetPoll {
    /// The reset bit has cleared: the reset is complete.
    Done,
    /// The reset bit is still set and no poll is left: the reset timed out.
    TimedOut,
    /// The reset bit is still set; wait and poll again with this many polls left.
    Retry(u32),
}

/// The number of polls of a DMA reset before it times out.
pub const RESET_POLLS: u32 = 1000;

/// Word 3 of a transmit descriptor for a single-buffer frame of `len` bytes, handed to
/// the DMA engine.
pub open spec fn tx_desc3(len: u32) -> u32 {
    (((DESC_OWN | TDES3_FIRST_DESCRIPTOR) | TDES3_LAST_DESCRIPTOR) | len) | RDES3_RDES0_VALID
}

/// Offset of the interrupt status register of DMA channel `i`.
pub open spec fn chan_status_reg(i: int) -> usize {
    (CHAN_BASE_ADDR + i * 0x100 + 0x60) as usize
}

/// Where the DMA interrupt acknowledgement stands.
#[derive(PartialEq, Eq, Structural, Clone, Copy, Debug)]
pub enum ClearIntrState {
    /// Waiting for the status word of channel `i`.
    Status(usize),
    /// Waiting for the interrupt enable mask, for channel `i` whose status is the word.
    Enable(usize, u32),
    /// Done.
    Finished,
}

/// What the DMA interrupt acknowledgement reads next, or its result.
#[derive(PartialEq, Eq, Structural, Clone, Copy, Debug)]
pub enum ClearIntrNext {
    /// Read this register and hand its value to the next step.
    Read(usize),
    /// Done: whether a channel reported a received frame.
    Done(bool),
}

/// One step of the DMA interrupt acknowledgement: a register write to make first, if
/// any, then what comes next.
#[derive(PartialEq, Eq, Structural, Clone, Copy, Debug)]
pub struct ClearIntrStep {
    pub write: Option<RegOp>,
    pub next: ClearIntrNext,
}

pub open spec fn clear_step(write: Option<RegOp>, next: ClearIntrNext) -> ClearIntrStep {
    ClearIntrStep { write, next }
}

/// Reads left, at most, before the DMA interrupt acknowledgement is done.
pub open spec fn clear_intr_measure(st: ClearIntrState) -> int {
    match st {
        ClearIntrState::Status(i) => 2 * (8 - i),
        ClearIntrState::Enable(i, _) => 2 * (8 - i) - 1,
        ClearIntrState::Finished => 0,
    }
}

/// The first step of the DMA interrupt acknowledgement: read the status of channel 0.
pub fn clear_dma_intr_start() -> (r: (ClearIntrState, ClearIntrNext))
    ensures
        r == (ClearIntrState::Status(0), ClearIntrNext::Read(chan_status_reg(0))),
{
    (ClearIntrState::Status(0), ClearIntrNext::Read(CHAN_STATUS))
}

/// The LPI control bits that the driver clears.
pub open spec fn lpi_disable_ops() -> Seq<RegOp> {
    seq![upd(mac::LPI_CONTROL_STATUS, mac::LPI_DISABLE_MASK, 0)]
}

/// The DMA channel 0 and MAC interrupt setup.
pub open spec fn enable_dma_interrupts_ops() -> Seq<RegOp> {
    seq![
        upd(CHAN_STATUS, 0, 0),
        wr(CHAN_INTR_ENABLE, INTR_DEFAULT_MASK_4_10),
        upd(mac::INTERRUPT_STATUS, 0, 0),
    ]
}

/// The MTL queue 0 setup.
pub open spec fn init_mtl_ops() -> Seq<RegOp> {
    seq![
        wr(mtl::TXQ0_OPERATION_MODE, 0x7000a),
        upd(mtl::TXQ0_OPERATION_MODE, !0u32, 0x7000a),
        wr(mtl::TXQ0_QUANTUM_WEIGHT, 0x10),
        wr(mtl::RXQ0_OPERATION_MODE, 0x700020),
        upd(mtl::TXQ0_OPERATION_MODE, 0x1ff0000, 0x70000),
        upd(mtl::RXQ0_OPERATION_MODE, 0x3ff00000, 0x700000),
    ]
}

/// The MAC flow control and queue setup.
pub open spec fn flow_control_ops() -> Seq<RegOp> {
    seq![
        upd(mac::RXQ_CTRL0, 0x3, 0x2),
        wr(mac::RXQ_CTRL1, 0),
        wr(mac::FRAME_FILTER, 0x404),
        wr(mac::Q0_TX_FLOW_CTRL, 0xffff0000),
        upd(mac::TXQ_PRTY_MAP0, 0xff, 0),
        upd(mac::RXQ_CTRL2, 0xff, 0),
        wr(mac::Q0_TX_FLOW_CTRL, 0xffff0002),
        wr(mac::RX_FLOW_CTRL, 0x1),
        upd(mac::CONFIG, 0x8b0000, 0),
    ]
}

/// The DMA channel 0 stop sequence.
pub open spec fn stop_dma_ops() -> Seq<RegOp> {
    seq![
        wr(CHAN_TX_CTRL, 0x10),
        upd(CHAN_RX_CTRL, 0x7ffe, 0xc80),
        wr(CHAN_BASE_ADDR, 0x190000),
        upd(CHAN_TX_CTRL, 0x3f0000, 0x80000),
        upd(CHAN_RX_CTRL, 0x3f0000, 0x80000),
    ]
}

/// The DMA channel 0 start sequence.
pub open spec fn start_dma_ops() -> Seq<RegOp> {
    seq![wr(CHAN_TX_CTRL, 0x80011), wr(CHAN_RX_CTRL, 0x80c81)]
}

/// The MAC start sequence: packet filter and configuration.
pub open spec fn start_mac_ops() -> Seq<RegOp> {
    seq![wr(mac::FRAME_FILTER, 0x404), wr(mac::CONFIG, 0x30e003)]
}

/// The writes that program MAC address `addr` into address register pair 0.
pub open spec fn mac_address_ops(addr: Seq<u8>) -> Seq<RegOp> {
    seq![wr(mac::ADDRESS0_HIGH, mac_addr_high_word(addr)), wr(mac::ADDRESS0_LOW, mac_addr_low_word(addr))]
}

/// The register writes that point DMA channel 0 at transmit descriptors at bus address
/// `tx_base` and receive descriptors at `rx_base`, with the receive tail at `rx_end`.
pub open spec fn ring_setup_ops(tx_base: usize, rx_base: usize, rx_end: usize) -> Seq<RegOp> {
    seq![
        wr(CHAN_TX_BASE_ADDR_HI, ((tx_base as u64) >> 32u64) as u32),
        wr(CHAN_TX_BASE_ADDR, tx_base as u32),
        wr(CHAN_TX_RING_LEN, (TX_DESC_COUNT - 1) as u32),
        wr(CHAN_RX_BASE_ADDR_HI, ((rx_base as u64) >> 32u64) as u32),
        wr(CHAN_RX_BASE_ADDR, rx_base as u32),
        wr(CHAN_RX_END_ADDR, rx_end as u32),
        wr(CHAN_RX_RING_LEN, (RX_DESC_COUNT - 1) as u32),
        wr(CHAN_TX_CTRL, 0x80011),
        wr(CHAN_RX_CTRL, 0x80c81),
    ]
}

/// Every descriptor that `transmit` or `receive` fills is handed to the DMA engine.
pub proof fn lemma_filled_descriptors_owned(len: u32)
    ensures
        tx_desc3(len) & DESC_OWN != 0,
        RX_DESC3_READY & DESC_OWN != 0,
{
    assert(((((0x8000_0000u32 | 0x2000_0000u32) | 0x1000_0000u32) | len) | 0x0200_0000u32) & 0x8000_0000u32
        != 0) by (bit_vector);
    assert(0xc300_0000u32 & 0x8000_0000u32 != 0) by (bit_vector);
}

/// Word 3 of a filled transmit descriptor is the frame length with the owned, first
/// descriptor, last descriptor and buffer-valid bits set: its frame length field (bits
/// 14:0) holds the low 15 bits of the length, which is the whole length for a frame of
/// at most 0x7fff bytes.
pub proof fn lemma_tx_desc3_fields(len: u32)
    ensures
        tx_desc3(len) == len | 0xb200_0000,
        tx_desc3(len) & 0x7fff == len & 0x7fff,
        len <= 0x7fff ==> tx_desc3(len) & 0x7fff == len,
        tx_desc3(len) & 0xb200_0000 == 0xb200_0000,
{
    assert(tx_desc3(len) == (((0x8000_0000u32 | 0x2000_0000u32) | 0x1000_0000u32) | len) | 0x0200_0000u32);
    assert((((0x8000_0000u32 | 0x2000_0000u32) | 0x1000_0000u32) | len) | 0x0200_0000u32 == len | 0xb200_0000u32)
        by (bit_vector);
    assert((len | 0xb200_0000u32) & 0x7fffu32 == len & 0x7fffu32) by (bit_vector);
    assert(len <= 0x7fffu32 ==> (len | 0xb200_0000u32) & 0x7fffu32 == len) by (bit_vector);
    assert((len | 0xb200_0000u32) & 0xb200_0000u32 == 0xb200_0000u32) by (bit_vector);
}

/// Reading the MAC address back after the interface's MAC address setup has run, on
/// registers that hold what is written to them, gives the interface's address.
pub proof fn lemma_nic_mac_address_round_trip(regs: RegFile, addr: Seq<u8>)
    requires
        addr.len() == 6,
    ensures
        ({
            let after = run_ops(regs, mac_address_ops(addr));
            mac_addr_of(after(mac::ADDRESS0_HIGH), after(mac::ADDRESS0_LOW)) == addr
        }),
{
    lemma_mac_addr_words(addr);
    let ops = mac_address_ops(addr);
    assert(ops.drop_first().drop_first() =~= Seq::<RegOp>::empty());
    reveal_with_fuel(run_ops, 3);
    let r1 = apply_op(regs, ops[0]);
    let r2 = apply_op(r1, ops.drop_first()[0]);
    assert(run_ops(regs, ops) == r2);
}

/// The part of the tutorial bring-up program that precedes the MAC address setup.
pub open spec fn init0_prefix_ops() -> Seq<RegOp> {
    lpi_disable_ops() + seq![wr(mac::INTERRUPT_ENABLE, mac::INT_ENABLE_RGMII)] + init_mtl_ops()
        + flow_control_ops()
}

/// The part of the tutorial bring-up program that follows the MAC address setup.
pub open spec fn init0_suffix_ops(tx_base: usize, rx_base: usize, rx_end: usize) -> Seq<RegOp> {
    stop_dma_ops() + seq![wr(SYS_BUS_MODE, 0x030308F1), wr(BUS_MODE, 0x0)] + ring_setup_ops(
        tx_base,
        rx_base,
        rx_end,
    ) + start_dma_ops() + start_mac_ops() + enable_dma_interrupts_ops()
}

/// After either bring-up program has run, on registers that hold what is written to
/// them, the MAC address registers hold the interface's MAC address: `init` writes it
/// last, and nothing that `init0` does after writing it touches those registers.
pub proof fn lemma_bring_up_programs_mac_address(
    regs: RegFile,
    tx_base: usize,
    rx_base: usize,
    rx_end: usize,
    addr: Seq<u8>,
)
    requires
        addr.len() == 6,
    ensures
        ({
            let after = run_ops(regs, ring_setup_ops(tx_base, rx_base, rx_end) + mac_address_ops(addr));
            mac_addr_of(after(mac::ADDRESS0_HIGH), after(mac::ADDRESS0_LOW)) == addr
        }),
        ({
            let after = run_ops(
                regs,
                init0_prefix_ops() + mac_address_ops(addr) + init0_suffix_ops(tx_base, rx_base, rx_end),
            );
            mac_addr_of(after(mac::ADDRESS0_HIGH), after(mac::ADDRESS0_LOW)) == addr
        }),
{
    let ring = ring_setup_ops(tx_base, rx_base, rx_end);
    lemma_run_ops_append(regs, ring, mac_address_ops(addr));
    lemma_nic_mac_address_round_trip(run_ops(regs, ring), addr);

    let pre = init0_prefix_ops();
    let suf = init0_suffix_ops(tx_base, rx_base, rx_end);
    let mid = run_ops(run_ops(regs, pre), mac_address_ops(addr));
    lemma_run_ops_append(regs, pre + mac_address_ops(addr), suf);
    lemma_run_ops_append(regs, pre, mac_address_ops(addr));
    lemma_nic_mac_address_round_trip(run_ops(regs, pre), addr);
    assert forall|i: int| 0 <= i < suf.len() implies op_reg(#[trigger] suf[i]) != mac::ADDRESS0_HIGH
        && op_reg(suf[i]) != mac::ADDRESS0_LOW by {}
    lemma_run_ops_frame(mid, suf, mac::ADDRESS0_HIGH);
    lemma_run_ops_frame(mid, suf, mac::ADDRESS0_LOW);
}

/// After the tutorial bring-up program has run, on registers that hold what is written
/// to them and whatever they held before, the MAC configuration register holds 0x30e003:
/// its receiver-enable (bit 0) and transmitter-enable (bit 1) bits are set, so the
/// brought-up interface receives and transmits.
pub proof fn lemma_bring_up_enables_rx_tx(
    regs: RegFile,
    tx_base: usize,
    rx_base: usize,
    rx_end: usize,
    addr: Seq<u8>,
)
    ensures
        ({
            let after = run_ops(
                regs,
                init0_prefix_ops() + mac_address_ops(addr) + init0_suffix_ops(tx_base, rx_base, rx_end),
            );
            &&& after(mac::CONFIG) == 0x30e003
            &&& after(mac::CONFIG) & (GMAC_CONFIG_RE | GMAC_CONFIG_TE) == 3
        }),
{
    let ops = init0_prefix_ops() + mac_address_ops(addr) + init0_suffix_ops(tx_base, rx_base, rx_end);
    assert(ops[38] == wr(mac::CONFIG, 0x30e003));
    assert forall|i: int| 38 < i < ops.len() implies op_reg(#[trigger] ops[i]) != mac::CONFIG by {}
    lemma_run_ops_last_write(regs, ops, 38, mac::CONFIG, 0x30e003);
    assert(0x30e003u32 & (0x1u32 | 0x2u32) == 3) by (bit_vector);
}

/// After the register program of `init` (ring setup, then MAC address) has run, on
/// registers that hold what is written to them and whatever they held before, DMA channel
/// 0 points at the transmit ring at `tx_base` and the receive ring at `rx_base`, with the
/// receive tail at `rx_end` and both rings 256 descriptors long, and its transmit and
/// receive are started (bit 0 of both control registers set).
pub proof fn lemma_ring_setup_starts_dma(
    regs: RegFile,
    tx_base: usize,
    rx_base: usize,
    rx_end: usize,
    addr: Seq<u8>,
)
    ensures
        ({
            let after = run_ops(regs, ring_setup_ops(tx_base, rx_base, rx_end) + mac_address_ops(addr));
            &&& after(CHAN_TX_BASE_ADDR_HI) == ((tx_base as u64) >> 32u64) as u32
            &&& after(CHAN_TX_BASE_ADDR) == tx_base as u32
            &&& after(CHAN_RX_BASE_ADDR_HI) == ((rx_base as u64) >> 32u64) as u32
            &&& after(CHAN_RX_BASE_ADDR) == rx_base as u32
            &&& after(CHAN_RX_END_ADDR) == rx_end as u32
            &&& after(CHAN_TX_RING_LEN) == 255
            &&& after(CHAN_RX_RING_LEN) == 255
            &&& after(CHAN_TX_CTRL) == 0x80011 && after(CHAN_TX_CTRL) & 1 == 1
            &&& after(CHAN_RX_CTRL) == 0x80c81 && after(CHAN_RX_CTRL) & 1 == 1
        }),
{
    let ops = ring_setup_ops(tx_base, rx_base, rx_end) + mac_address_ops(addr);
    assert(ops.len() == 11);
    assert(ops[0] == wr(CHAN_TX_BASE_ADDR_HI, ((tx_base as u64) >> 32u64) as u32));
    assert(ops[1] == wr(CHAN_TX_BASE_ADDR, tx_base as u32));
    assert(ops[2] == wr(CHAN_TX_RING_LEN, 255));
    assert(ops[3] == wr(CHAN_RX_BASE_ADDR_HI, ((rx_base as u64) >> 32u64) as u32));
    assert(ops[4] == wr(CHAN_RX_BASE_ADDR, rx_base as u32));
    assert(ops[5] == wr(CHAN_RX_END_ADDR, rx_end as u32));
    assert(ops[6] == wr(CHAN_RX_RING_LEN, 255));
    assert(ops[7] == wr(CHAN_TX_CTRL, 0x80011));
    assert(ops[8] == wr(CHAN_RX_CTRL, 0x80c81));
    assert forall|i: int| 0 < i < ops.len() implies op_reg(#[trigger] ops[i]) != CHAN_TX_BASE_ADDR_HI
        && (i > 1 ==> op_reg(ops[i]) != CHAN_TX_BASE_ADDR) && (i > 2 ==> op_reg(ops[i]) != CHAN_TX_RING_LEN)
        && (i > 3 ==> op_reg(ops[i]) != CHAN_RX_BASE_ADDR_HI) && (i > 4 ==> op_reg(ops[i]) != CHAN_RX_BASE_ADDR)
        && (i > 5 ==> op_reg(ops[i]) != CHAN_RX_END_ADDR) && (i > 6 ==> op_reg(ops[i]) != CHAN_RX_RING_LEN)
        && (i > 7 ==> op_reg(ops[i]) != CHAN_TX_CTRL) && (i > 8 ==> op_reg(ops[i]) != CHAN_RX_CTRL) by {}
    lemma_run_ops_last_write(regs, ops, 0, CHAN_TX_BASE_ADDR_HI, ((tx_base as u64) >> 32u64) as u32);
    lemma_run_ops_last_write(regs, ops, 1, CHAN_TX_BASE_ADDR, tx_base as u32);
    lemma_run_ops_last_write(regs, ops, 2, CHAN_TX_RING_LEN, 255);
    lemma_run_ops_last_write(regs, ops, 3, CHAN_RX_BASE_ADDR_HI, ((rx_base as u64) >> 32u64) as u32);
    lemma_run_ops_last_write(regs, ops, 4, CHAN_RX_BASE_ADDR, rx_base as u32);
    lemma_run_ops_last_write(regs, ops, 5, CHAN_RX_END_ADDR, rx_end as u32);
    lemma_run_ops_last_write(regs, ops, 6, CHAN_RX_RING_LEN, 255);
    lemma_run_ops_last_write(regs, ops, 7, CHAN_TX_CTRL, 0x80011);
    lemma_run_ops_last_write(regs, ops, 8, CHAN_RX_CTRL, 0x80c81);
    assert(0x80011u32 & 1 == 1 && 0x80c81u32 & 1 == 1) by (bit_vector);
}

/// After the tutorial bring-up program has run, on registers that hold what is written
/// to them and whatever they held before: DMA channel 0 points at the transmit ring at
/// `tx_base` and the receive ring at `rx_base`, with the receive tail at `rx_end` and
/// both rings 256 descriptors long; its transmit and receive are started (bit 0 of both
/// control registers set); its interrupts of mask 0xd041 are enabled; and the MAC frame
/// filter holds 0x404.
pub proof fn lemma_bring_up_starts_dma(
    regs: RegFile,
    tx_base: usize,
    rx_base: usize,
    rx_end: usize,
    addr: Seq<u8>,
)
    ensures
        ({
            let after = run_ops(
                regs,
                init0_prefix_ops() + mac_address_ops(addr) + init0_suffix_ops(tx_base, rx_base, rx_end),
            );
            &&& after(CHAN_TX_BASE_ADDR_HI) == ((tx_base as u64) >> 32u64) as u32
            &&& after(CHAN_TX_BASE_ADDR) == tx_base as u32
            &&& after(CHAN_RX_BASE_ADDR_HI) == ((rx_base as u64) >> 32u64) as u32
            &&& after(CHAN_RX_BASE_ADDR) == rx_base as u32
            &&& after(CHAN_RX_END_ADDR) == rx_end as u32
            &&& after(CHAN_TX_RING_LEN) == 255
            &&& after(CHAN_RX_RING_LEN) == 255
            &&& after(CHAN_TX_CTRL) == 0x80011 && after(CHAN_TX_CTRL) & 1 == 1
            &&& after(CHAN_RX_CTRL) == 0x80c81 && after(CHAN_RX_CTRL) & 1 == 1
            &&& after(CHAN_INTR_ENABLE) == 0xd041
            &&& after(mac::FRAME_FILTER) == 0x404
        }),
{
    let ops = init0_prefix_ops() + mac_address_ops(addr) + init0_suffix_ops(tx_base, rx_base, rx_end);
    assert(ops.len() == 42);
    assert(ops[26] == wr(CHAN_TX_BASE_ADDR_HI, ((tx_base as u64) >> 32u64) as u32));
    assert(ops[27] == wr(CHAN_TX_BASE_ADDR, tx_base as u32));
    assert(ops[28] == wr(CHAN_TX_RING_LEN, 255));
    assert(ops[29] == wr(CHAN_RX_BASE_ADDR_HI, ((rx_base as u64) >> 32u64) as u32));
    assert(ops[30] == wr(CHAN_RX_BASE_ADDR, rx_base as u32));
    assert(ops[31] == wr(CHAN_RX_END_ADDR, rx_end as u32));
    assert(ops[32] == wr(CHAN_RX_RING_LEN, 255));
    assert(ops[35] == wr(CHAN_TX_CTRL, 0x80011));
    assert(ops[36] == wr(CHAN_RX_CTRL, 0x80c81));
    assert(ops[37] == wr(mac::FRAME_FILTER, 0x404));
    assert(ops[40] == wr(CHAN_INTR_ENABLE, 0xd041));
    assert forall|i: int| 26 < i < ops.len() implies op_reg(#[trigger] ops[i]) != CHAN_TX_BASE_ADDR_HI
        && (i > 27 ==> op_reg(ops[i]) != CHAN_TX_BASE_ADDR) && (i > 28 ==> op_reg(ops[i]) != CHAN_TX_RING_LEN)
        && (i > 29 ==> op_reg(ops[i]) != CHAN_RX_BASE_ADDR_HI) && (i > 30 ==> op_reg(ops[i]) != CHAN_RX_BASE_ADDR)
        && (i > 31 ==> op_reg(ops[i]) != CHAN_RX_END_ADDR) && (i > 32 ==> op_reg(ops[i]) != CHAN_RX_RING_LEN)
        && (i > 35 ==> op_reg(ops[i]) != CHAN_TX_CTRL) && (i > 36 ==> op_reg(ops[i]) != CHAN_RX_CTRL)
        && (i > 37 ==> op_reg(ops[i]) != mac::FRAME_FILTER) && (i > 40 ==> op_reg(ops[i]) != CHAN_INTR_ENABLE) by {}
    lemma_run_ops_last_write(regs, ops, 26, CHAN_TX_BASE_ADDR_HI, ((tx_base as u64) >> 32u64) as u32);
    lemma_run_ops_last_write(regs, ops, 27, CHAN_TX_BASE_ADDR, tx_base as u32);
    lemma_run_ops_last_write(regs, ops, 28, CHAN_TX_RING_LEN, 255);
    lemma_run_ops_last_write(regs, ops, 29, CHAN_RX_BASE_ADDR_HI, ((rx_base as u64) >> 32u64) as u32);
    lemma_run_ops_last_write(regs, ops, 30, CHAN_RX_BASE_ADDR, rx_base as u32);
    lemma_run_ops_last_write(regs, ops, 31, CHAN_RX_END_ADDR, rx_end as u32);
    lemma_run_ops_last_write(regs, ops, 32, CHAN_RX_RING_LEN, 255);
    lemma_run_ops_last_write(regs, ops, 35, CHAN_TX_CTRL, 0x80011);
    lemma_run_ops_last_write(regs, ops, 36, CHAN_RX_CTRL, 0x80c81);
    lemma_run_ops_last_write(regs, ops, 37, mac::FRAME_FILTER, 0x404);
    lemma_run_ops_last_write(regs, ops, 40, CHAN_INTR_ENABLE, 0xd041);
    assert(0x80011u32 & 1 == 1 && 0x80c81u32 & 1 == 1) by (bit_vector);
}

/// The scan report of one receive descriptor.
#[derive(PartialEq, Eq, Structural, Clone, Copy, Debug)]
pub struct RxSlotScan {
    /// The CPU owns the descriptor.
    pub cpu_owned: bool,
    /// Word 3 holds bits other than owned and buffer 1 valid.
    pub has_status: bool,
    /// Word 3.
    pub des3: u32,
    /// Word 2 (nonzero when the DMA engine wrote a size there).
    pub des2: u32,
}

/// A DWMAC network interface: its MAC address, link state and descriptor rings.
pub struct DwmacNic {
    /// Virtual address of the controller's registers.
    pub base_addr: usize,
    pub mac_addr: [u8; 6],
    pub link_up: bool,
    pub tx_ring: DescriptorRing<TX_DESC_COUNT>,
    pub rx_ring: DescriptorRing<RX_DESC_COUNT>,
}

impl DwmacNic {
    pub open spec fn wf(&self) -> bool {
        &&& self.tx_ring.wf()
        &&& self.rx_ring.wf()
    }

    /// The rings and their descriptors as the interface setup leaves them, and the
    /// register program of that setup, for rings `tx` and `rx` before it.
    pub open spec fn rings_set_up(
        &self,
        tx: DescriptorRing<TX_DESC_COUNT>,
        rx: DescriptorRing<RX_DESC_COUNT>,
        old_rx_descs: Seq<DmaExtendedDescriptor>,
        rx_descs: Seq<DmaExtendedDescriptor>,
        tx_descs: Seq<DmaExtendedDescriptor>,
    ) -> bool {
        &&& DescriptorRing::<RX_DESC_COUNT>::rx_initialized(rx, self.rx_ring, old_rx_descs, rx_descs)
        &&& DescriptorRing::<TX_DESC_COUNT>::tx_initialized(tx, self.tx_ring, tx_descs)
    }

    /// A register program that replaces the bits of `mask` in register `offset` with those
    /// of `value`, leaving the others as read.
    pub fn set_bits(&self, offset: usize, mask: u32, value: u32) -> (op: RegOp)
        ensures
            op == upd(offset, mask, value & mask),
            forall|old_value: u32| #[trigger] updated_value(old_value, mask, value & mask) == masked_update(old_value, mask, value),
    {
        RegOp::Update { reg: offset, clear: mask, set: value & mask }
    }

    /// Points DMA channel 0 at the rings, after initialising them: receive descriptors
    /// all handed to the DMA engine, transmit descriptors all cleared.
    fn setup_descriptor_rings(
        &mut self,
        rx_descs: &mut Vec<DmaExtendedDescriptor>,
        tx_descs: &mut Vec<DmaExtendedDescriptor>,
    ) -> (ops: Vec<RegOp>)
        requires
            old(self).wf(),
            old(rx_descs)@.len() == RX_DESC_COUNT,
            old(tx_descs)@.len() == TX_DESC_COUNT,
            old(self).rx_ring.pool().free_list().len() >= RX_DESC_COUNT,
        ensures
            final(self).wf(),
            final(self).rings_set_up(
                old(self).tx_ring,
                old(self).rx_ring,
                old(rx_descs)@,
                final(rx_descs)@,
                final(tx_descs)@,
            ),
            final(self).base_addr == old(self).base_addr,
            final(self).mac_addr == old(self).mac_addr,
            final(self).link_up == old(self).link_up,
            ops@ == ring_setup_ops(
                old(self).tx_ring.desc_base(),
                old(self).rx_ring.desc_base(),
                (old(self).rx_ring.desc_base() + (RX_DESC_COUNT - 1) * DESC_SIZE) as usize,
            ),
    {
        let _ = self.rx_ring.init_rx_ring(rx_descs);
        let _ = self.tx_ring.init_tx_ring(tx_descs);
        let tx_base = self.tx_ring.get_descriptor_paddr(0);
        let rx_base = self.rx_ring.get_descriptor_paddr(0);
        let rx_end = self.rx_ring.get_descriptor_paddr(RX_DESC_COUNT - 1);
        vec![
            RegOp::Write { reg: CHAN_TX_BASE_ADDR_HI, value: ((tx_base as u64) >> 32u64) as u32 },
            RegOp::Write { reg: CHAN_TX_BASE_ADDR, value: tx_base as u32 },
            RegOp::Write { reg: CHAN_TX_RING_LEN, value: (TX_DESC_COUNT - 1) as u32 },
            RegOp::Write { reg: CHAN_RX_BASE_ADDR_HI, value: ((rx_base as u64) >> 32u64) as u32 },
            RegOp::Write { reg: CHAN_RX_BASE_ADDR, value: rx_base as u32 },
            RegOp::Write { reg: CHAN_RX_END_ADDR, value: rx_end as u32 },
            RegOp::Write { reg: CHAN_RX_RING_LEN, value: (RX_DESC_COUNT - 1) as u32 },
            RegOp::Write { reg: CHAN_TX_CTRL, value: 0x80011 },
            RegOp::Write { reg: CHAN_RX_CTRL, value: 0x80c81 },
        ]
    }

    /// Programs the interface's MAC address into address register pair 0.
    fn setup_mac_address(&self) -> (ops: Vec<RegOp>)
        ensures
            ops@ == mac_address_ops(self.mac_addr@),
    {
        let mac_high: u32 = ((self.mac_addr[5] as u32) << 8u32) | (self.mac_addr[4] as u32);
        let mac_low: u32 = ((self.mac_addr[3] as u32) << 24u32) | ((self.mac_addr[2] as u32)
            << 16u32) | ((self.mac_addr[1] as u32) << 8u32) | (self.mac_addr[0] as u32);
        assert(mac_high | 0x8000_0000u32 == ((mac_high | (0u32 << 16u32)) | 0x8000_0000u32)) by (bit_vector);
        vec![
            RegOp::Write { reg: mac::ADDRESS0_HIGH, value: mac_high | 0x8000_0000u32 },
            RegOp::Write { reg: mac::ADDRESS0_LOW, value: mac_low },
        ]
    }

    /// A new interface at register base `base_addr` with the default MAC address
    /// 6c:cf:39:00:b2:7b and link up, with its rings set up; the result holds it and the
    /// register program of the setup (ring registers, then the MAC address).
    pub fn init(
        base_addr: usize,
        tx_ring: DescriptorRing<TX_DESC_COUNT>,
        rx_ring: DescriptorRing<RX_DESC_COUNT>,
        rx_descs: &mut Vec<DmaExtendedDescriptor>,
        tx_descs: &mut Vec<DmaExtendedDescriptor>,
    ) -> (r: (Self, Vec<RegOp>))
        requires
            tx_ring.wf(),
            rx_ring.wf(),
            old(rx_descs)@.len() == RX_DESC_COUNT,
            old(tx_descs)@.len() == TX_DESC_COUNT,
            rx_ring.pool().free_list().len() >= RX_DESC_COUNT,
        ensures
            r.0.wf(),
            r.0.base_addr == base_addr,
            r.0.mac_addr@ == seq![0x6cu8, 0xcf, 0x39, 0x00, 0xb2, 0x7b],
            r.0.link_up,
            r.0.rings_set_up(tx_ring, rx_ring, old(rx_descs)@, final(rx_descs)@, final(tx_descs)@),
            r.1@ == ring_setup_ops(
                tx_ring.desc_base(),
                rx_ring.desc_base(),
                (rx_ring.desc_base() + (RX_DESC_COUNT - 1) * DESC_SIZE) as usize,
            ) + mac_address_ops(r.0.mac_addr@),
    {
        let mut nic = DwmacNic {
            base_addr,
            mac_addr: [0x6c, 0xcf, 0x39, 0x00, 0xb2, 0x7b],
            link_up: true,
            tx_ring,
            rx_ring,
        };
        let mut ops = nic.setup_descriptor_rings(rx_descs, tx_descs);
        let mut mac_ops = nic.setup_mac_address();
        ops.append(&mut mac_ops);
        (nic, ops)
    }
    /// The DMA channel 0 and MAC interrupt setup: write back (clear) the channel status,
    /// enable the default channel interrupts, write back (clear) the MAC interrupt status.
    fn enable_dma_interrupts(&self) -> (ops: Vec<RegOp>)
        ensures
            ops@ == enable_dma_interrupts_ops(),
    {
        vec![
            RegOp::Update { reg: CHAN_STATUS, clear: 0, set: 0 },
            RegOp::Write { reg: CHAN_INTR_ENABLE, value: INTR_DEFAULT_MASK_4_10 },
            RegOp::Update { reg: mac::INTERRUPT_STATUS, clear: 0, set: 0 },
        ]
    }

    /// Starts a software reset of the DMA; `reset_dma_poll` then decides on each read of
    /// the bus mode register, starting from `RESET_POLLS` polls.
    pub fn reset_dma(&self) -> (ops: Vec<RegOp>)
        ensures
            ops@ == seq![upd(BUS_MODE, DMA_RESET, 1u32 & DMA_RESET)],
    {
        vec![self.set_bits(BUS_MODE, DMA_RESET, 1)]
    }

    /// One poll of the DMA reset: done once the reset bit of `bus_mode` has cleared,
    /// timed out when it is still set with no poll left, else retried with one poll less.
    pub fn reset_dma_poll(timeout: u32, bus_mode: u32) -> (r: ResetPoll)
        ensures
            bus_mode & DMA_RESET == 0 ==> r == ResetPoll::Done,
            bus_mode & DMA_RESET != 0 && timeout == 0 ==> r == ResetPoll::TimedOut,
            bus_mode & DMA_RESET != 0 && timeout > 0 ==> r == ResetPoll::Retry((timeout - 1) as u32),
    {
        if bus_mode & DMA_RESET == 0 {
            ResetPoll::Done
        } else if timeout == 0 {
            ResetPoll::TimedOut
        } else {
            ResetPoll::Retry(timeout - 1)
        }
    }

    /// The register part of the clock setting: sets the MAC's microsecond tick counter to
    /// `freq` (the CSR clock in MHz). The PHY polling that follows is part of
    /// `init0_step`.
    pub fn set_clock_freq(&self, freq: u32) -> (ops: Vec<RegOp>)
        ensures
            ops@ == seq![wr(mac::US_TIC_COUNTER, freq)],
    {
        vec![RegOp::Write { reg: mac::US_TIC_COUNTER, value: freq }]
    }

    /// Moves the receive tail pointer of DMA channel 0 to descriptor `index`.
    pub fn update_rx_end_addr(&self, index: usize) -> (op: RegOp)
        requires
            self.rx_ring.desc_base() + index * DESC_SIZE <= usize::MAX,
        ensures
            op == wr(CHAN_RX_END_ADDR, (self.rx_ring.desc_base() + index * DESC_SIZE) as u32),
    {
        let addr = self.rx_ring.get_descriptor_paddr(index);
        RegOp::Write { reg: CHAN_RX_END_ADDR, value: addr as u32 }
    }

    /// Moves the transmit tail pointer of DMA channel 0 to descriptor `index`.
    pub fn update_tx_end_addr(&self, index: usize) -> (op: RegOp)
        requires
            self.tx_ring.desc_base() + index * DESC_SIZE <= usize::MAX,
        ensures
            op == wr(CHAN_TX_END_ADDR, (self.tx_ring.desc_base() + index * DESC_SIZE) as u32),
    {
        let addr = self.tx_ring.get_descriptor_paddr(index);
        RegOp::Write { reg: CHAN_TX_END_ADDR, value: addr as u32 }
    }

    /// Configures the MAC: packet filter, then configuration with the receiver and the
    /// transmitter on.
    fn start_mac(&self) -> (ops: Vec<RegOp>)
        ensures
            ops@ == start_mac_ops(),
    {
        vec![
            RegOp::Write { reg: mac::FRAME_FILTER, value: 0x404 },
            RegOp::Write { reg: mac::CONFIG, value: 0x30e003 },
        ]
    }

    fn set_sys_bus_mode(&self, value: u32) -> (ops: Vec<RegOp>)
        ensures
            ops@ == seq![wr(SYS_BUS_MODE, value)],
    {
        vec![RegOp::Write { reg: SYS_BUS_MODE, value }]
    }

    fn set_bus_mode(&self, value: u32) -> (ops: Vec<RegOp>)
        ensures
            ops@ == seq![wr(BUS_MODE, value)],
    {
        vec![RegOp::Write { reg: BUS_MODE, value }]
    }

    /// Stops DMA channel 0 and sets its burst lengths.
    fn stop_dma(&self) -> (ops: Vec<RegOp>)
        ensures
            ops@ == stop_dma_ops(),
    {
        assert(0xc80u32 & 0x7ffeu32 == 0xc80u32 && 0x80000u32 & 0x3f0000u32 == 0x80000u32) by (bit_vector);
        vec![
            RegOp::Write { reg: CHAN_TX_CTRL, value: 0x10 },
            self.set_bits(CHAN_RX_CTRL, 0x7ffe, 0xc80),
            RegOp::Write { reg: CHAN_BASE_ADDR, value: 0x190000 },
            self.set_bits(CHAN_TX_CTRL, 0x3f0000, 0x80000),
            self.set_bits(CHAN_RX_CTRL, 0x3f0000, 0x80000),
        ]
    }

    /// Starts DMA channel 0.
    fn start_dma(&self) -> (ops: Vec<RegOp>)
        ensures
            ops@ == start_dma_ops(),
    {
        vec![
            RegOp::Write { reg: CHAN_TX_CTRL, value: 0x80011 },
            RegOp::Write { reg: CHAN_RX_CTRL, value: 0x80c81 },
        ]
    }

    /// Sets up MTL queue 0: operation modes and quantum weight.
    fn init_mtl(&self) -> (ops: Vec<RegOp>)
        ensures
            ops@ == init_mtl_ops(),
    {
        assert(0x7000au32 & !0u32 == 0x7000au32 && 0x70000u32 & 0x1ff0000u32 == 0x70000u32
            && 0x700000u32 & 0x3ff00000u32 == 0x700000u32) by (bit_vector);
        vec![
            RegOp::Write { reg: mtl::TXQ0_OPERATION_MODE, value: 0x7000a },
            self.set_bits(mtl::TXQ0_OPERATION_MODE, !0u32, 0x7000a),
            RegOp::Write { reg: mtl::TXQ0_QUANTUM_WEIGHT, value: 0x10 },
            RegOp::Write { reg: mtl::RXQ0_OPERATION_MODE, value: 0x700020 },
            self.set_bits(mtl::TXQ0_OPERATION_MODE, 0x1ff0000, 0x70000),
            self.set_bits(mtl::RXQ0_OPERATION_MODE, 0x3ff00000, 0x700000),
        ]
    }

    /// Sets up flow control, the Rx queue control and the packet filter. The last step
    /// masks 0x300000 with 0x8b0000, which share no bit, so it clears the mask's bits.
    fn flow_control(&self) -> (ops: Vec<RegOp>)
        ensures
            ops@ == flow_control_ops(),
    {
        assert(0x2u32 & 0x3u32 == 0x2u32 && 0u32 & 0xffu32 == 0u32 && 0x300000u32 & 0x8b0000u32
            == 0u32) by (bit_vector);
        vec![
            self.set_bits(mac::RXQ_CTRL0, 0x3, 0x2),
            RegOp::Write { reg: mac::RXQ_CTRL1, value: 0 },
            RegOp::Write { reg: mac::FRAME_FILTER, value: 0x404 },
            RegOp::Write { reg: mac::Q0_TX_FLOW_CTRL, value: 0xffff0000 },
            self.set_bits(mac::TXQ_PRTY_MAP0, 0xff, 0),
            self.set_bits(mac::RXQ_CTRL2, 0xff, 0),
            RegOp::Write { reg: mac::Q0_TX_FLOW_CTRL, value: 0xffff0002 },
            RegOp::Write { reg: mac::RX_FLOW_CTRL, value: 0x1 },
            self.set_bits(mac::CONFIG, 0x8b0000, 0x300000),
        ]
    }

    /// Enables transmit flow control on queue 0 with the longest pause time.
    pub fn set_qos(&self) -> (ops: Vec<RegOp>)
        ensures
            ops@ == seq![wr(GMAC_Q0_TX_FLOW_CTRL, GMAC_Q0_TX_FLOW_CTRL_TFE)],
    {
        vec![RegOp::Write { reg: GMAC_Q0_TX_FLOW_CTRL, value: GMAC_Q0_TX_FLOW_CTRL_TFE }]
    }

    /// The register program of the tutorial bring-up (`BringUpAction::RunProgram` of
    /// `init0_step`), which follows the DMA reset, the PHY set-up and the clock setting:
    /// LPI off, RGMII interrupt on, MTL, flow control, MAC address, DMA stop and bus
    /// modes, rings, DMA start, MAC start, interrupts. The new interface has MAC address
    /// 35:5d:00:39:cf:6c and link up.
    pub fn init0(
        base_addr: usize,
        tx_ring: DescriptorRing<TX_DESC_COUNT>,
        rx_ring: DescriptorRing<RX_DESC_COUNT>,
        rx_descs: &mut Vec<DmaExtendedDescriptor>,
        tx_descs: &mut Vec<DmaExtendedDescriptor>,
    ) -> (r: (Self, Vec<RegOp>))
        requires
            tx_ring.wf(),
            rx_ring.wf(),
            old(rx_descs)@.len() == RX_DESC_COUNT,
            old(tx_descs)@.len() == TX_DESC_COUNT,
            rx_ring.pool().free_list().len() >= RX_DESC_COUNT,
        ensures
            r.0.wf(),
            r.0.base_addr == base_addr,
            r.0.mac_addr@ == seq![0x35u8, 0x5d, 0x00, 0x39, 0xcf, 0x6c],
            r.0.link_up,
            r.0.rings_set_up(tx_ring, rx_ring, old(rx_descs)@, final(rx_descs)@, final(tx_descs)@),
            r.1@ == init0_prefix_ops() + mac_address_ops(r.0.mac_addr@) + init0_suffix_ops(
                tx_ring.desc_base(),
                rx_ring.desc_base(),
                (rx_ring.desc_base() + (RX_DESC_COUNT - 1) * DESC_SIZE) as usize,
            ),
            forall|regs: RegFile| #[trigger] run_ops(regs, r.1@)(mac::CONFIG) & (GMAC_CONFIG_RE | GMAC_CONFIG_TE)
                == GMAC_CONFIG_RE | GMAC_CONFIG_TE,
    {
        let mut nic = DwmacNic {
            base_addr,
            mac_addr: [0x35, 0x5d, 0x00, 0x39, 0xcf, 0x6c],
            link_up: true,
            tx_ring,
            rx_ring,
        };
        let mut ops: Vec<RegOp> = vec![
            RegOp::Update { reg: mac::LPI_CONTROL_STATUS, clear: mac::LPI_DISABLE_MASK, set: 0 },
            RegOp::Write { reg: mac::INTERRUPT_ENABLE, value: mac::INT_ENABLE_RGMII },
        ];
        let mut step = nic.init_mtl();
        ops.append(&mut step);
        let mut step = nic.flow_control();
        ops.append(&mut step);
        let mut step = nic.setup_mac_address();
        ops.append(&mut step);
        let mut step = nic.stop_dma();
        ops.append(&mut step);
        let mut step = nic.set_sys_bus_mode(0x030308F1);
        ops.append(&mut step);
        let mut step = nic.set_bus_mode(0x0);
        ops.append(&mut step);
        let mut step = nic.setup_descriptor_rings(rx_descs, tx_descs);
        ops.append(&mut step);
        let mut step = nic.start_dma();
        ops.append(&mut step);
        let mut step = nic.start_mac();
        ops.append(&mut step);
        let mut step = nic.enable_dma_interrupts();
        ops.append(&mut step);
        assert(ops@ =~= init0_prefix_ops() + mac_address_ops(nic.mac_addr@) + init0_suffix_ops(
            tx_ring.desc_base(),
            rx_ring.desc_base(),
            (rx_ring.desc_base() + (RX_DESC_COUNT - 1) * DESC_SIZE) as usize,
        ));
        proof {
            assert forall|regs: RegFile| #[trigger] run_ops(regs, ops@)(mac::CONFIG) & (GMAC_CONFIG_RE | GMAC_CONFIG_TE)
                == GMAC_CONFIG_RE | GMAC_CONFIG_TE by {
                lemma_bring_up_enables_rx_tx(
                    regs,
                    tx_ring.desc_base(),
                    rx_ring.desc_base(),
                    (rx_ring.desc_base() + (RX_DESC_COUNT - 1) * DESC_SIZE) as usize,
                    nic.mac_addr@,
                );
                assert(0x1u32 | 0x2u32 == 3u32) by (bit_vector);
            }
        }
        (nic, ops)
    }
    /// Queues the frame of `len` bytes in pool buffer `buf_ptr` for transmission in the
    /// tail slot of the transmit ring.
    ///
    /// Fails with `TxAgain`, changing nothing, when the ring is full or the tail
    /// descriptor is still owned by the DMA engine. Otherwise it moves the head and the
    /// tail one slot forward, attaches the buffer to the slot, fills the descriptor
    /// (buffer bus address, length, first and last descriptor, owned by the DMA engine)
    /// and returns the slot and the write of the new transmit tail pointer.
    pub fn transmit(&mut self, descs: &mut Vec<DmaExtendedDescriptor>, buf_ptr: usize, len: usize) -> (r: Result<(usize, RegOp), NicError>)
        requires
            old(self).wf(),
            old(descs)@.len() == TX_DESC_COUNT,
            next_index(old(self).tx_ring.tail_index() as int, TX_DESC_COUNT as int)
                != old(self).tx_ring.head_index() ==> {
                &&& old(self).tx_ring.pool().base() <= buf_ptr
                &&& old(self).tx_ring.pool().bus_base() + (buf_ptr - old(self).tx_ring.pool().base())
                    <= usize::MAX
            },
        ensures
            final(self).wf(),
            final(self).rx_ring == old(self).rx_ring,
            final(self).base_addr == old(self).base_addr,
            final(self).mac_addr == old(self).mac_addr,
            final(self).link_up == old(self).link_up,
            final(descs)@.len() == TX_DESC_COUNT,
            ({
                let ring = old(self).tx_ring;
                let t = ring.tail_index() as int;
                let full = next_index(t, TX_DESC_COUNT as int) == ring.head_index();
                let busy = old(descs)@[t].basic.owned();
                let bus = ring.pool().bus_of(buf_ptr) as usize;
                &&& (full || busy) ==> r == Err::<(usize, RegOp), NicError>(NicError::TxAgain)
                    && final(self).tx_ring == ring && final(descs)@ == old(descs)@
                &&& !(full || busy) ==> {
                    &&& r == Ok::<(usize, RegOp), NicError>(
                        (
                            t as usize,
                            wr(
                                CHAN_TX_END_ADDR,
                                (ring.desc_base() + next_index(t, TX_DESC_COUNT as int) * DESC_SIZE) as u32,
                            ),
                        ),
                    )
                    &&& final(self).tx_ring.head_index() == next_index(
                        ring.head_index() as int,
                        TX_DESC_COUNT as int,
                    )
                    &&& final(self).tx_ring.tail_index() == next_index(t, TX_DESC_COUNT as int)
                    &&& final(self).tx_ring.buffer_list() == ring.buffer_list().update(t, bus)
                    &&& final(self).tx_ring.desc_base() == ring.desc_base()
                    &&& final(self).tx_ring.pool() == ring.pool()
                    &&& final(descs)@[t].basic.w0() == bus as u32
                    &&& final(descs)@[t].basic.w1() == 0
                    &&& final(descs)@[t].basic.w2() == len as u32
                    &&& final(descs)@[t].basic.w3() == tx_desc3(len as u32)
                    &&& final(descs)@[t].basic.w3() & 0x7fff == final(descs)@[t].basic.w2() & 0x7fff
                    &&& len <= 0x7fff ==> final(descs)@[t].basic.w3() & 0x7fff == len
                    &&& forall|k: int| 0 <= k < TX_DESC_COUNT && k != t ==> #[trigger] final(descs)@[k] == old(descs)@[k]
                }
            }),
    {
        if self.tx_ring.is_full() {
            return Err(NicError::TxAgain);
        }
        let bus_addr = self.tx_ring.mem_pool().bus_addr(buf_ptr);
        let length = len as u32;
        let head = self.tx_ring.head();
        let next = self.tx_ring.next_tail();
        if next == head {
            return Err(NicError::TxAgain);
        }
        let tail = self.tx_ring.tail();
        if descs[tail].is_owned_by_dma() {
            return Err(NicError::TxAgain);
        }
        self.tx_ring.advance_head();
        let index = tail;
        let mut desc = descs[index];
        desc.set_buffer_paddr(bus_addr);
        desc.basic.set_des1(0);
        desc.basic.set_des2(length);
        desc.basic.set_des3(DESC_OWN | TDES3_FIRST_DESCRIPTOR | TDES3_LAST_DESCRIPTOR | length);
        descs.set(index, desc);
        self.tx_ring.set_buffer(index, bus_addr);
        self.tx_ring.advance_tail();
        let new_tail = self.tx_ring.tail();
        let op = self.update_tx_end_addr(new_tail);
        proof {
            lemma_tx_desc3_fields(length);
        }
        Ok((index, op))
    }

    /// Takes the frame received in the head slot of the receive ring.
    ///
    /// Fails with `RxAgain`, changing nothing, when the DMA engine still owns the head
    /// descriptor. Otherwise the head moves one slot forward, and the frame's buffer (its
    /// virtual address) and length (from descriptor word 3) are the result; a fresh pool
    /// buffer replaces it in the slot and the descriptor is handed back to the DMA engine,
    /// with the write of the new receive tail pointer. With no free buffer in the pool it
    /// fails with `RxNoMemory` after moving the head.
    pub fn receive(&mut self, descs: &mut Vec<DmaExtendedDescriptor>) -> (r: Result<(usize, usize, RegOp), NicError>)
        requires
            old(self).wf(),
            old(descs)@.len() == RX_DESC_COUNT,
            !old(descs)@[old(self).rx_ring.head_index() as int].basic.owned() ==> old(
                self,
            ).rx_ring.pool().holds_bus(
                old(self).rx_ring.buffer_list()[old(self).rx_ring.head_index() as int],
            ),
        ensures
            final(self).wf(),
            final(self).tx_ring == old(self).tx_ring,
            final(self).base_addr == old(self).base_addr,
            final(self).mac_addr == old(self).mac_addr,
            final(self).link_up == old(self).link_up,
            final(descs)@.len() == RX_DESC_COUNT,
            ({
                let ring = old(self).rx_ring;
                let h = ring.head_index() as int;
                let d = old(descs)@[h];
                let pool = ring.pool();
                let new_buf = pool.free_list()[0];
                let new_bus = pool.bus_of(new_buf) as usize;
                &&& d.basic.owned() ==> r == Err::<(usize, usize, RegOp), NicError>(NicError::RxAgain)
                    && final(self).rx_ring == ring && final(descs)@ == old(descs)@
                &&& !d.basic.owned() && pool.free_list().len() == 0 ==> {
                    &&& r == Err::<(usize, usize, RegOp), NicError>(NicError::RxNoMemory)
                    &&& final(self).rx_ring.head_index() == next_index(h, RX_DESC_COUNT as int)
                    &&& final(self).rx_ring.tail_index() == ring.tail_index()
                    &&& final(self).rx_ring.buffer_list() == ring.buffer_list()
                    &&& final(self).rx_ring.desc_base() == ring.desc_base()
                    &&& final(self).rx_ring.pool().bus_base() == pool.bus_base()
                    &&& final(self).rx_ring.pool().base() == pool.base()
                    &&& final(self).rx_ring.pool().free_list() == pool.free_list()
                    &&& final(descs)@ == old(descs)@
                }
                &&& !d.basic.owned() && pool.free_list().len() > 0 ==> {
                    &&& r == Ok::<(usize, usize, RegOp), NicError>(
                        (
                            pool.ptr_of(ring.buffer_list()[h]) as usize,
                            (d.basic.w3() & RDES3_PACKET_SIZE_MASK) as usize,
                            wr(CHAN_RX_END_ADDR, (ring.desc_base() + h * DESC_SIZE) as u32),
                        ),
                    )
                    &&& final(self).rx_ring.head_index() == next_index(h, RX_DESC_COUNT as int)
                    &&& final(self).rx_ring.tail_index() == ring.tail_index()
                    &&& final(self).rx_ring.buffer_list() == ring.buffer_list().update(h, new_bus)
                    &&& final(self).rx_ring.desc_base() == ring.desc_base()
                    &&& final(self).rx_ring.pool().bus_base() == pool.bus_base()
                    &&& final(self).rx_ring.pool().base() == pool.base()
                    &&& final(self).rx_ring.pool().free_list() == pool.free_list().drop_first()
                    &&& final(descs)@[h].basic.w0() == new_bus as u32
                    &&& final(descs)@[h].basic.w1() == 0
                    &&& final(descs)@[h].basic.w2() == 0
                    &&& final(descs)@[h].basic.w3() == RX_DESC3_READY
                    &&& forall|k: int| 0 <= k < RX_DESC_COUNT && k != h ==> #[trigger] final(descs)@[k] == old(descs)@[k]
                }
            }),
    {
        let head = self.rx_ring.head();
        if descs[head].is_owned_by_dma() {
            return Err(NicError::RxAgain);
        }
        self.rx_ring.advance_head();
        let packet_len = (descs[head].basic.des3() & RDES3_PACKET_SIZE_MASK) as usize;
        let bus_addr = self.rx_ring.buffer(head);
        let buffer_ptr = self.rx_ring.mem_pool().bus_addr_to_ptr(bus_addr);
        let ghost pool_before = self.rx_ring.pool();
        let buf_ptr = match self.rx_ring.mem_pool_mut().alloc_buf() {
            Some(p) => p,
            None => {
                return Err(NicError::RxNoMemory);
            },
        };
        assert(pool_before.holds(pool_before.free_list()[0]));
        assert(self.rx_ring.pool().free_in_pool()) by {
            assert forall|j: int| 0 <= j < self.rx_ring.pool().free_list().len() implies self.rx_ring.pool().holds(
                #[trigger] self.rx_ring.pool().free_list()[j],
            ) by {
                assert(self.rx_ring.pool().free_list()[j] == pool_before.free_list()[j + 1]);
            }
        }
        let new_bus = self.rx_ring.mem_pool().bus_addr(buf_ptr);
        self.rx_ring.set_buffer(head, new_bus);
        let mut desc = descs[head];
        desc.set_buffer_paddr(new_bus);
        desc.basic.set_des1(0);
        desc.basic.set_des2(0);
        desc.basic.set_des3(DESC_OWN | RDES3_BUFFER1_VALID_ADDR | RDES3_INT_ON_COMPLETION_EN);
        assert((0x8000_0000u32 | 0x0100_0000u32 | 0x4000_0000u32) | 0x0200_0000u32 == 0xc300_0000u32)
            by (bit_vector);
        descs.set(head, desc);
        let op = self.update_rx_end_addr(head);
        Ok((buffer_ptr, packet_len, op))
    }

    /// The register program that acknowledges MAC interrupts, given the MAC interrupt
    /// status word as read: an LPI interrupt (with no RGMII one) gets the LPI control bits
    /// cleared; then the MTL and MTL queue 0 interrupt status registers are acknowledged,
    /// in that order.
    pub fn read_mac_intr_status(&self, mac_intr_status: u32) -> (ops: Vec<RegOp>)
        ensures
            ops@ == (if mac_intr_status & 1 == 0 && mac_intr_status & 0x20 != 0 {
                lpi_disable_ops()
            } else {
                Seq::<RegOp>::empty()
            }) + seq![ack(mtl::INTERRUPT_STATUS), ack(mtl::Q0_INTR_STATUS)],
    {
        let mut ops: Vec<RegOp> = Vec::new();
        if mac_intr_status & 1 != 0 {
        } else if mac_intr_status & 0x20 != 0 {
            ops.push(RegOp::Update { reg: mac::LPI_CONTROL_STATUS, clear: mac::LPI_DISABLE_MASK, set: 0 });
        }
        ops.push(RegOp::Acknowledge { reg: mtl::INTERRUPT_STATUS });
        ops.push(RegOp::Acknowledge { reg: mtl::Q0_INTR_STATUS });
        assert(ops@ =~= (if mac_intr_status & 1 == 0 && mac_intr_status & 0x20 != 0 {
                lpi_disable_ops()
            } else {
                Seq::<RegOp>::empty()
            }) + seq![ack(mtl::INTERRUPT_STATUS), ack(mtl::Q0_INTR_STATUS)]);
        ops
    }

    /// Acknowledges the DMA channel interrupts, one register read at a time, from channel
    /// 0 up: given the state and the value of the register that the previous step asked
    /// for, the next state, an optional register write, and what to read next or the
    /// result.
    ///
    /// A channel whose status is zero is passed over. For a nonzero status the interrupt
    /// enable mask is read, and the enabled status bits are written back (clearing them).
    /// The scan stops with `true` after the first channel whose status reports a received
    /// frame, and with `false` after channel 7.
    pub fn clear_dma_intr_status(&self, st: ClearIntrState, value: u32) -> (r: (ClearIntrState, ClearIntrStep))
        requires
            st is Status ==> st->Status_0 <= 7,
            st is Enable ==> st->Enable_0 <= 7,
            !(st is Finished),
        ensures
            clear_intr_measure(r.0) < clear_intr_measure(st),
            r.0 is Status ==> r.0->Status_0 <= 7,
            r.0 is Enable ==> r.0->Enable_0 <= 7,
            (r.0 is Finished) <==> (r.1.next is Done),
            st matches ClearIntrState::Status(i) ==> {
                &&& value != 0 ==> r == (ClearIntrState::Enable(i, value), clear_step(None, ClearIntrNext::Read(CHAN_INTR_ENABLE)))
                &&& value == 0 && i < 7 ==> r == (ClearIntrState::Status((i + 1) as usize), clear_step(None, ClearIntrNext::Read(chan_status_reg(i + 1))))
                &&& value == 0 && i == 7 ==> r == (ClearIntrState::Finished, clear_step(None, ClearIntrNext::Done(false)))
            },
            st matches ClearIntrState::Enable(i, s) ==> {
                let write = if s & value != 0 { Some(wr(chan_status_reg(i as int), s & value)) } else { None };
                &&& s & DMA_CHAN_STATUS_RI != 0 ==> r == (ClearIntrState::Finished, clear_step(write, ClearIntrNext::Done(true)))
                &&& s & DMA_CHAN_STATUS_RI == 0 && i < 7 ==> r == (ClearIntrState::Status((i + 1) as usize), clear_step(write, ClearIntrNext::Read(chan_status_reg(i + 1))))
                &&& s & DMA_CHAN_STATUS_RI == 0 && i == 7 ==> r == (ClearIntrState::Finished, clear_step(write, ClearIntrNext::Done(false)))
            },
    {
        match st {
            ClearIntrState::Status(i) => {
                if value != 0 {
                    (ClearIntrState::Enable(i, value), ClearIntrStep { write: None, next: ClearIntrNext::Read(CHAN_INTR_ENABLE) })
                } else if i < 7 {
                    (ClearIntrState::Status(i + 1), ClearIntrStep { write: None, next: ClearIntrNext::Read(CHAN_BASE_ADDR + (i + 1) * 0x100 + 0x60) })
                } else {
                    (ClearIntrState::Finished, ClearIntrStep { write: None, next: ClearIntrNext::Done(false) })
                }
            },
            ClearIntrState::Enable(i, s) => {
                let write = if s & value != 0 {
                    Some(RegOp::Write { reg: CHAN_BASE_ADDR + i * 0x100 + 0x60, value: s & value })
                } else {
                    None
                };
                if s & DMA_CHAN_STATUS_RI != 0 {
                    (ClearIntrState::Finished, ClearIntrStep { write, next: ClearIntrNext::Done(true) })
                } else if i < 7 {
                    (ClearIntrState::Status(i + 1), ClearIntrStep { write, next: ClearIntrNext::Read(CHAN_BASE_ADDR + (i + 1) * 0x100 + 0x60) })
                } else {
                    (ClearIntrState::Finished, ClearIntrStep { write, next: ClearIntrNext::Done(false) })
                }
            },
            ClearIntrState::Finished => {
                (ClearIntrState::Finished, ClearIntrStep { write: None, next: ClearIntrNext::Done(false) })
            },
        }
    }

    /// What the periodic scan of the receive ring reports of slot `i`: whether the CPU
    /// owns it, whether word 3 holds status bits other than owned and buffer-valid, and
    /// whether word 2 is nonzero.
    pub open spec fn rx_scan_entry(d: DmaExtendedDescriptor) -> RxSlotScan {
        RxSlotScan {
            cpu_owned: !d.basic.owned(),
            has_status: d.basic.w3() & !RDES3_BUFFER1_VALID_ADDR & !DESC_OWN != 0,
            des3: d.basic.w3(),
            des2: d.basic.w2(),
        }
    }

    /// Scans the receive descriptors; the result has one report per slot, in order.
    pub fn scan_rx_ring(&self, descs: &Vec<DmaExtendedDescriptor>) -> (r: Vec<RxSlotScan>)
        requires
            descs@.len() == RX_DESC_COUNT,
        ensures
            r@.len() == RX_DESC_COUNT,
            forall|i: int| 0 <= i < RX_DESC_COUNT ==> #[trigger] r@[i] == Self::rx_scan_entry(descs@[i]),
    {
        let mut r: Vec<RxSlotScan> = Vec::new();
        let mut i: usize = 0;
        while i < RX_DESC_COUNT
            invariant
                i <= RX_DESC_COUNT,
                descs@.len() == RX_DESC_COUNT,
                r@.len() == i,
                forall|j: int| 0 <= j < i ==> #[trigger] r@[j] == Self::rx_scan_entry(descs@[j]),
            decreases RX_DESC_COUNT - i,
        {
            let desc = &descs[i];
            let des3 = desc.basic.des3();
            r.push(RxSlotScan {
                cpu_owned: !desc.is_owned_by_dma(),
                has_status: des3 & !RDES3_BUFFER1_VALID_ADDR & !DESC_OWN != 0,
                des3,
                des2: desc.basic.des2(),
            });
            i = i + 1;
        }
        r
    }
}

} // verus!
