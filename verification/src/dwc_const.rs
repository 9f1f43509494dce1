//! Bit helpers and the register map of the EQoS controller.
#![allow(non_upper_case_globals)]
use vstd::prelude::*;

verus! {

/* MAC registers (offsets from the controller base) */
pub const GMAC_CONFIG: u32 = 0;
pub const mac_q0_tx_flow_ctrl: u32 = 0x070;
pub const mac_rx_flow_ctrl: u32 = 0x090;
pub const mac_rxq_ctrl0: u32 = 0x0a0;
pub const mac_us_tic_counter: u32 = 0x0dc;
pub const mac_hw_feature0: u32 = 0x11c;
pub const mac_hw_feature1: u32 = 0x120;
pub const mac_hw_feature2: u32 = 0x124;
pub const mac_mdio_address: u32 = 0x200;
pub const mac_mdio_data: u32 = 0x204;
pub const mac_address0_high: u32 = 0x300;
pub const mac_address0_low: u32 = 0x304;

/* MAC configuration bits */
pub const GMAC_CONFIG_TE: u32 = 0x2;
pub const GMAC_CONFIG_RE: u32 = 0x1;
pub const EQOS_MAC_CONFIGURATION_TE: u32 = 0x2;
pub const EQOS_MAC_CONFIGURATION_RE: u32 = 0x1;

/* MAC address registers */
pub const GMAC_HI_DCS_SHIFT: u32 = 16;
pub const GMAC_HI_REG_AE: u32 = 0x8000_0000;

/* MDIO */
pub const EQOS_MAC_MDIO_ADDRESS_PA_SHIFT: u32 = 21;
pub const EQOS_MAC_MDIO_ADDRESS_RDA_SHIFT: u32 = 16;
pub const EQOS_MAC_MDIO_ADDRESS_CR_SHIFT: u32 = 8;
pub const EQOS_MAC_MDIO_ADDRESS_CR_250_300: u32 = 5;
pub const EQOS_MAC_MDIO_ADDRESS_SKAP: u32 = 0x10;
pub const EQOS_MAC_MDIO_ADDRESS_GOC_SHIFT: u32 = 2;
pub const EQOS_MAC_MDIO_ADDRESS_GOC_READ: u32 = 3;
pub const EQOS_MAC_MDIO_ADDRESS_GOC_WRITE: u32 = 1;
pub const EQOS_MAC_MDIO_ADDRESS_C45E: u32 = 0x2;
pub const EQOS_MAC_MDIO_ADDRESS_GB: u32 = 0x1;
pub const EQOS_MAC_MDIO_DATA_GD_MASK: u32 = 0xffff;

/* MTL registers */
pub const MTL_RXQ_DMA_MAP0: u32 = 0x0c30;
pub const mtl_txq0_operation_mode: u32 = 0xd00;
pub const mtl_rxq0_operation_mode: u32 = 0xd30;

/* DMA registers */
pub const dma_ch0_control: u32 = 0x1100;
pub const dma_ch0_tx_control: u32 = 0x1104;
pub const dma_ch0_rx_control: u32 = 0x1108;
pub const dma_ch0_txdesc_list_address: u32 = 0x1114;
pub const dma_ch0_rxdesc_list_address: u32 = 0x111c;
pub const dma_ch0_txdesc_tail_pointer: u32 = 0x1120;
pub const dma_ch0_rxdesc_tail_pointer: u32 = 0x1128;
pub const dma_ch0_txdesc_ring_length: u32 = 0x112c;
pub const dma_ch0_rxdesc_ring_length: u32 = 0x1130;
pub const DMA_BUS_MODE: u32 = 0x1000;
pub const DMA_STATUS: u32 = 0x1008;
pub const DMA_DEBUG_STATUS_0: u32 = 0x100c;
pub const DMA_DEBUG_STATUS_1: u32 = 0x1010;
pub const DMA_DEBUG_STATUS_2: u32 = 0x1014;
pub const DMA_BUS_MODE_SFT_RESET: u32 = 0x1;
pub const DMA_CHAN_INTR_ENA: u32 = 0x1134;
pub const DMA_CHAN_CUR_TX_DESC: u32 = 0x1144;
pub const DMA_CHAN_CUR_RX_DESC: u32 = 0x114c;
pub const DMA_CHAN_CUR_TX_BUF_ADDR: u32 = 0x1154;
pub const DMA_CHAN_CUR_RX_BUF_ADDR: u32 = 0x115c;
pub const DMA_CHAN_INTR_ENA_RIE: u32 = 0x40;
pub const DMA_CHAN_INTR_ENA_TIE: u32 = 0x1;
pub const DMA_CHAN_INTR_DEFAULT_RX: u32 = 0x40;
pub const DMA_CHAN_INTR_DEFAULT_TX: u32 = 0x1;
pub const EQOS_DMA_CH0_TX_CONTROL_ST: u32 = 0x1;
pub const EQOS_DMA_CH0_RX_CONTROL_SR: u32 = 0x1;

// starfive-visionfive2 cache line size
pub const ARCH_DMA_MINALIGN: u32 = 64;
pub const BITS_PER_LONG: u32 = 64;

/// Whether bit `i` of `x` is set.
pub open spec fn bit_set_u32(x: u32, i: u32) -> bool {
    (x >> i) & 1u32 == 1u32
}

/// A word with only bit `n` set.
#[allow(non_snake_case)]
pub fn BIT(n: u32) -> (r: u32)
    requires
        n < 32,
    ensures
        r == 1u32 << n,
        forall|i: u32| i < 32 ==> (bit_set_u32(r, i) <==> i == n),
{
    let r: u32 = 1u32 << n;
    assert(forall|i: u32| i < 32 ==> (((r >> i) & 1u32 == 1u32) <==> i == n)) by (bit_vector)
        requires
            n < 32,
            r == 1u32 << n,
    ;
    r
}

/// `x` rounded up to a multiple of `a` (for `a` a power of two).
#[allow(non_snake_case)]
pub fn ALIGN(x: u32, a: u32) -> (r: u32)
    requires
        a >= 1,
        x + (a - 1) <= u32::MAX,
    ensures
        r == (x + (a - 1)) as u32 & !((a - 1) as u32),
        forall|k: u32| k < 32 && a == 1u32 << k ==> r % a == 0 && x <= r && r < x + a,
{
    let r: u32 = (x + (a - 1)) & !(a - 1);
    assert forall|k: u32| k < 32 && a == 1u32 << k implies r % a == 0 && x <= r && r < x + a by {
        let s: u32 = (x + (a - 1)) as u32;
        assert(r == s & !((a - 1) as u32));
        assert(s & !((a - 1) as u32) <= s) by (bit_vector);
        assert((s & !((a - 1) as u32)) % a == 0 && s - (s & !((a - 1) as u32)) < a) by (bit_vector)
            requires
                k < 32,
                a == 1u32 << k,
        ;
    }
    r
}

/// The 32-bit mask with bits `l..=h` set.
#[allow(non_snake_case)]
pub fn GENMASK(h: u32, l: u32) -> (r: u32)
    requires
        l < 64,
        h < 64,
    ensures
        r == (((!0u64 - (1u64 << l)) + 1) as u64 & (!0u64 >> ((63 - h) as u64))) as u32,
        forall|i: u32| i < 32 ==> (bit_set_u32(r, i) <==> l <= i && i <= h),
{
    let lo: u64 = 1u64 << l;
    assert(!0u64 == 0xffff_ffff_ffff_ffffu64) by (bit_vector);
    assert(lo >= 1) by (bit_vector)
        requires
            l < 64,
            lo == 1u64 << l,
    ;
    let low_cleared: u64 = (!0u64 - lo) + 1;
    let high_cleared: u64 = !0u64 >> (63 - h);
    let r: u32 = (low_cleared & high_cleared) as u32;
    assert(forall|i: u32| i < 32 ==> (((r >> i) & 1u32 == 1u32) <==> l <= i && i <= h))
        by (bit_vector)
        requires
            l < 64,
            h < 64,
            lo == 1u64 << l,
            low_cleared == (!0u64 - lo) + 1,
            high_cleared == !0u64 >> ((63 - h) as u64),
            r == (low_cleared & high_cleared) as u32,
    ;
    r
}

} // verus!
