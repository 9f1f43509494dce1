//! DMA register offsets, descriptor bits and decoders of DMA status words.
use vstd::prelude::*;

verus! {

pub const BUS_MODE: usize = 0x1000;
pub const SYS_BUS_MODE: usize = 0x1004;
pub const DMA_STATUS: usize = 0x1008;
pub const DMA_DEBUG_STATUS0: usize = 0x100c;
pub const DMA_DEBUG_STATUS1: usize = 0x1010;
pub const DMA_DEBUG_STATUS2: usize = 0x1014;
pub const CHAN_BASE_ADDR: usize = 0x1100;
pub const CHAN_TX_CTRL: usize = 0x1104;
pub const CHAN_RX_CTRL: usize = 0x1108;
pub const CHAN_TX_BASE_ADDR_HI: usize = 0x1110;
pub const CHAN_TX_BASE_ADDR: usize = 0x1114;
pub const CHAN_RX_BASE_ADDR_HI: usize = 0x1118;
pub const CHAN_RX_BASE_ADDR: usize = 0x111c;
pub const CHAN_TX_END_ADDR: usize = 0x1120;
pub const CHAN_RX_END_ADDR: usize = 0x1128;
pub const CHAN_TX_RING_LEN: usize = 0x112c;
pub const CHAN_RX_RING_LEN: usize = 0x1130;
pub const CHAN_INTR_ENABLE: usize = 0x1134;
pub const CHAN_CUR_TX_DESC: usize = 0x1144;
pub const CHAN_CUR_RX_DESC: usize = 0x114c;
pub const CHAN_STATUS: usize = 0x1160;

/// Offset of the interrupt status register of DMA channel `n`.
pub fn chan_status_csr(n: usize) -> (r: usize)
    requires
        n * 0x100 + 0x1160 <= usize::MAX,
    ensures
        r == CHAN_BASE_ADDR + n * 0x100 + 0x60,
{
    CHAN_BASE_ADDR + n * 0x100 + 0x60
}

pub const DMA_CHAN_STATUS_REB: u32 = 0x380000;
pub const DMA_CHAN_STATUS_REB_SHIFT: u32 = 19;
pub const DMA_CHAN_STATUS_TEB: u32 = 0x70000;
pub const DMA_CHAN_STATUS_TEB_SHIFT: u32 = 16;
pub const DMA_CHAN_STATUS_NIS: u32 = 0x8000;
pub const DMA_CHAN_STATUS_AIS: u32 = 0x4000;
pub const DMA_CHAN_STATUS_CDE: u32 = 0x2000;
pub const DMA_CHAN_STATUS_FBE: u32 = 0x1000;
pub const DMA_CHAN_STATUS_ERI: u32 = 0x800;
pub const DMA_CHAN_STATUS_ETI: u32 = 0x400;
pub const DMA_CHAN_STATUS_RWT: u32 = 0x200;
pub const DMA_CHAN_STATUS_RPS: u32 = 0x100;
pub const DMA_CHAN_STATUS_RBU: u32 = 0x80;
pub const DMA_CHAN_STATUS_RI: u32 = 0x40;
pub const DMA_CHAN_STATUS_TBU: u32 = 0x4;
pub const DMA_CHAN_STATUS_TPS: u32 = 0x2;
pub const DMA_CHAN_STATUS_TI: u32 = 0x1;

/// The decoded interrupt status word of one DMA channel.
#[derive(PartialEq, Eq, Structural, Clone, Copy, Debug)]
pub struct ChanStatus {
    pub channel: usize,
    pub status: u32,
    pub rebs: u32,
    pub tebs: u32,
    pub nis: bool,
    pub ais: bool,
    pub cde: bool,
    pub fbe: bool,
    pub eri: bool,
    pub eti: bool,
    pub rwt: bool,
    pub rps: bool,
    pub rbu: bool,
    pub ri: bool,
    pub tbu: bool,
    pub tps: bool,
    pub ti: bool,
}

/// Decodes the interrupt status word `status` of DMA channel `n`.
pub fn debug_chan_status(n: usize, status: u32) -> (r: ChanStatus)
    ensures
        r.channel == n,
        r.status == status,
        r.rebs == (status & DMA_CHAN_STATUS_REB) >> DMA_CHAN_STATUS_REB_SHIFT,
        r.tebs == (status & DMA_CHAN_STATUS_TEB) >> DMA_CHAN_STATUS_TEB_SHIFT,
        r.nis == (status & DMA_CHAN_STATUS_NIS != 0),
        r.ais == (status & DMA_CHAN_STATUS_AIS != 0),
        r.cde == (status & DMA_CHAN_STATUS_CDE != 0),
        r.fbe == (status & DMA_CHAN_STATUS_FBE != 0),
        r.eri == (status & DMA_CHAN_STATUS_ERI != 0),
        r.eti == (status & DMA_CHAN_STATUS_ETI != 0),
        r.rwt == (status & DMA_CHAN_STATUS_RWT != 0),
        r.rps == (status & DMA_CHAN_STATUS_RPS != 0),
        r.rbu == (status & DMA_CHAN_STATUS_RBU != 0),
        r.ri == (status & DMA_CHAN_STATUS_RI != 0),
        r.tbu == (status & DMA_CHAN_STATUS_TBU != 0),
        r.tps == (status & DMA_CHAN_STATUS_TPS != 0),
        r.ti == (status & DMA_CHAN_STATUS_TI != 0),
{
    ChanStatus {
        channel: n,
        status,
        rebs: (status & DMA_CHAN_STATUS_REB) >> DMA_CHAN_STATUS_REB_SHIFT,
        tebs: (status & DMA_CHAN_STATUS_TEB) >> DMA_CHAN_STATUS_TEB_SHIFT,
        nis: status & DMA_CHAN_STATUS_NIS != 0,
        ais: status & DMA_CHAN_STATUS_AIS != 0,
        cde: status & DMA_CHAN_STATUS_CDE != 0,
        fbe: status & DMA_CHAN_STATUS_FBE != 0,
        eri: status & DMA_CHAN_STATUS_ERI != 0,
        eti: status & DMA_CHAN_STATUS_ETI != 0,
        rwt: status & DMA_CHAN_STATUS_RWT != 0,
        rps: status & DMA_CHAN_STATUS_RPS != 0,
        rbu: status & DMA_CHAN_STATUS_RBU != 0,
        ri: status & DMA_CHAN_STATUS_RI != 0,
        tbu: status & DMA_CHAN_STATUS_TBU != 0,
        tps: status & DMA_CHAN_STATUS_TPS != 0,
        ti: status & DMA_CHAN_STATUS_TI != 0,
    }
}

/// DMA bus mode: software reset.
pub const DMA_RESET: u32 = 0x1;

/// Descriptor word 3: owned by the DMA engine.
pub const DESC_OWN: u32 = 0x80000000;

/// RDES3 (read format): buffer 1 address valid.
pub const RDES3_BUFFER1_VALID_ADDR: u32 = 0x1000000;
/// RDES3: RDES0 valid; every write of descriptor word 3 sets it.
pub const RDES3_RDES0_VALID: u32 = 0x2000000;
/// RDES3 (read format): interrupt on completion.
pub const RDES3_INT_ON_COMPLETION_EN: u32 = 0x40000000;
/// RDES3 (write-back format): error summary.
pub const RDES3_ERROR_SUMMARY: u32 = 0x8000;
/// RDES3 (write-back format): packet length, bits 14:0.
pub const RDES3_PACKET_SIZE_MASK: u32 = 0x7fff;

/// TDES3 (read format): first descriptor of a frame.
pub const TDES3_FIRST_DESCRIPTOR: u32 = 0x20000000;
/// TDES3 (read format): last descriptor of a frame.
pub const TDES3_LAST_DESCRIPTOR: u32 = 0x10000000;

pub const TDES3WB_IP_HDR_ERROR: u32 = 0x1;
pub const TDES3WB_DEFERRED: u32 = 0x2;
pub const TDES3WB_UNDERFLOW_ERROR: u32 = 0x4;
pub const TDES3WB_EXCESSIVE_DEFERRAL: u32 = 0x8;
pub const TDES3WB_COLLISION_COUNT_MASK: u32 = 0xf0;
pub const TDES3WB_EXCESSIVE_COLLISION: u32 = 0x100;
pub const TDES3WB_LATE_COLLISION: u32 = 0x200;
pub const TDES3WB_NO_CARRIER: u32 = 0x400;
pub const TDES3WB_LOSS_CARRIER: u32 = 0x800;
pub const TDES3WB_PAYLOAD_ERROR: u32 = 0x1000;
pub const TDES3WB_PACKET_FLUSHED: u32 = 0x2000;
pub const TDES3WB_JABBER_TIMEOUT: u32 = 0x4000;
pub const TDES3WB_ERROR_SUMMARY: u32 = 0x8000;
pub const TDES3WB_TIMESTAMP_STATUS: u32 = 0x20000;

/// The decoded write-back word 3 of a transmit descriptor.
#[derive(PartialEq, Eq, Structural, Clone, Copy, Debug)]
pub struct Tdes3Writeback {
    pub tdes3: u32,
    pub ip_hdr_error: bool,
    pub deferred: bool,
    pub underflow_error: bool,
    pub excessive_deferral: bool,
    pub collision_count: u32,
    pub excessive_collision: bool,
    pub late_collision: bool,
    pub no_carrier: bool,
    pub loss_carrier: bool,
    pub payload_error: bool,
    pub packet_flushed: bool,
    pub jabber_timeout: bool,
    pub error_summary: bool,
    pub timestamp_status: bool,
}

/// Decodes the write-back word 3 of a transmit descriptor.
pub fn debug_tdes3_writeback(tdes3: u32) -> (r: Tdes3Writeback)
    ensures
        r.tdes3 == tdes3,
        r.ip_hdr_error == (tdes3 & TDES3WB_IP_HDR_ERROR != 0),
        r.deferred == (tdes3 & TDES3WB_DEFERRED != 0),
        r.underflow_error == (tdes3 & TDES3WB_UNDERFLOW_ERROR != 0),
        r.excessive_deferral == (tdes3 & TDES3WB_EXCESSIVE_DEFERRAL != 0),
        r.collision_count == (tdes3 & TDES3WB_COLLISION_COUNT_MASK) >> 4u32,
        r.excessive_collision == (tdes3 & TDES3WB_EXCESSIVE_COLLISION != 0),
        r.late_collision == (tdes3 & TDES3WB_LATE_COLLISION != 0),
        r.no_carrier == (tdes3 & TDES3WB_NO_CARRIER != 0),
        r.loss_carrier == (tdes3 & TDES3WB_LOSS_CARRIER != 0),
        r.payload_error == (tdes3 & TDES3WB_PAYLOAD_ERROR != 0),
        r.packet_flushed == (tdes3 & TDES3WB_PACKET_FLUSHED != 0),
        r.jabber_timeout == (tdes3 & TDES3WB_JABBER_TIMEOUT != 0),
        r.error_summary == (tdes3 & TDES3WB_ERROR_SUMMARY != 0),
        r.timestamp_status == (tdes3 & TDES3WB_TIMESTAMP_STATUS != 0),
{
    Tdes3Writeback {
        tdes3,
        ip_hdr_error: tdes3 & TDES3WB_IP_HDR_ERROR != 0,
        deferred: tdes3 & TDES3WB_DEFERRED != 0,
        underflow_error: tdes3 & TDES3WB_UNDERFLOW_ERROR != 0,
        excessive_deferral: tdes3 & TDES3WB_EXCESSIVE_DEFERRAL != 0,
        collision_count: (tdes3 & TDES3WB_COLLISION_COUNT_MASK) >> 4u32,
        excessive_collision: tdes3 & TDES3WB_EXCESSIVE_COLLISION != 0,
        late_collision: tdes3 & TDES3WB_LATE_COLLISION != 0,
        no_carrier: tdes3 & TDES3WB_NO_CARRIER != 0,
        loss_carrier: tdes3 & TDES3WB_LOSS_CARRIER != 0,
        payload_error: tdes3 & TDES3WB_PAYLOAD_ERROR != 0,
        packet_flushed: tdes3 & TDES3WB_PACKET_FLUSHED != 0,
        jabber_timeout: tdes3 & TDES3WB_JABBER_TIMEOUT != 0,
        error_summary: tdes3 & TDES3WB_ERROR_SUMMARY != 0,
        timestamp_status: tdes3 & TDES3WB_TIMESTAMP_STATUS != 0,
    }
}

/// Tx/Rx queue 0 flow control value written by the QoS setup (pause time 0xffff, TFE).
pub const GMAC_Q0_TX_FLOW_CTRL: usize = 0x0070;
pub const GMAC_Q0_TX_FLOW_CTRL_TFE: u32 = 0xffff_0002;

/// Channel interrupt enable bits.
pub const INTR_TIE: u32 = 0x1;
pub const INTR_RIE: u32 = 0x40;
pub const INTR_FBE: u32 = 0x1000;
pub const INTR_AIE: u32 = 0x4000;
pub const INTR_NIE: u32 = 0x8000;
/// The default channel interrupt mask of core version 4.10: NIE | RIE | TIE | AIE | FBE.
pub const INTR_DEFAULT_MASK_4_10: u32 = 0xd041;

} // verus!
