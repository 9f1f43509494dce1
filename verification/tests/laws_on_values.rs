use std::collections::HashMap;

use dwmac::descriptor::{DmaDescriptor, DmaExtendedDescriptor};
use dwmac::dwc_init::{jh7110_reset_trigger, stmmac_dwmac4_get_mac_addr, stmmac_dwmac4_set_mac, stmmac_set_mac};
use dwmac::mempool::MemPool;
use dwmac::mmio::RegOp;
use dwmac::nic::DwmacNic;
use dwmac::ring::{DescriptorRing, RX_DESC_COUNT, TX_DESC_COUNT};

/// Runs a register program on registers that hold what is written to them.
fn run(regs: &mut HashMap<usize, u32>, ops: &[RegOp]) {
    for op in ops {
        match *op {
            RegOp::Write { reg, value } => {
                regs.insert(reg, value);
            }
            RegOp::Update { reg, clear, set } => {
                let v = *regs.get(&reg).unwrap_or(&0);
                regs.insert(reg, (v & !clear) | set);
            }
            RegOp::WaitUntil { .. } | RegOp::Acknowledge { .. } => {}
        }
    }
}

fn zeroed(n: usize) -> Vec<DmaExtendedDescriptor> {
    (0..n).map(|_| DmaExtendedDescriptor { basic: DmaDescriptor::from_raw(0, 0, 0, 0) }).collect()
}

#[test]
fn bring_up_leaves_mac_address_in_registers() {
    for use_init0 in [false, true] {
        let tx = DescriptorRing::<TX_DESC_COUNT>::new(0x9000_0000, MemPool::new(0xa000_0000, 0x4000_0000));
        let rx = DescriptorRing::<RX_DESC_COUNT>::new(0x9000_1000, MemPool::new(0xb000_0000, 0x5000_0000));
        let mut rx_descs = zeroed(RX_DESC_COUNT);
        let mut tx_descs = zeroed(TX_DESC_COUNT);
        let (nic, ops) = if use_init0 {
            DwmacNic::init0(0, tx, rx, &mut rx_descs, &mut tx_descs)
        } else {
            DwmacNic::init(0, tx, rx, &mut rx_descs, &mut tx_descs)
        };
        let mut regs: HashMap<usize, u32> = HashMap::new();
        regs.insert(0x300, 0xdead_beef);
        regs.insert(0x304, 0x1234_5678);
        run(&mut regs, &ops);
        let mut addr = [0u8; 6];
        stmmac_dwmac4_get_mac_addr(&mut addr, regs[&0x300], regs[&0x304]);
        assert_eq!(addr, nic.mac_addr);
    }
}

#[test]
fn set_mac_toggles_only_enable_bits() {
    let reg = 0x1604_0000;
    let mut regs: HashMap<usize, u32> = HashMap::new();
    regs.insert(reg, 0x0807_2200);
    run(&mut regs, &stmmac_dwmac4_set_mac(true));
    assert_eq!(regs[&reg], 0x0807_2203);
    run(&mut regs, &stmmac_dwmac4_set_mac(false));
    assert_eq!(regs[&reg], 0x0807_2200);
    regs.insert(reg, 0x0807_2203);
    run(&mut regs, &stmmac_set_mac(false));
    assert_eq!(regs[&reg], 0x0807_2203);
    run(&mut regs, &stmmac_set_mac(true));
    assert_eq!(regs[&reg], 0x0807_220f);
}

#[test]
fn stmmac_set_mac_disables_rx_and_tx() {
    let reg = 0x1604_0000;
    let mut regs: HashMap<usize, u32> = HashMap::new();
    regs.insert(reg, 0x0807_220f);
    run(&mut regs, &stmmac_set_mac(false));
    assert_eq!(regs[&reg], 0x0807_2203);
}

#[test]
fn reset_trigger_touches_only_its_line() {
    let reg = 0x1302_0300;
    let mut regs: HashMap<usize, u32> = HashMap::new();
    regs.insert(reg, 0xffe5_afc4);
    run(&mut regs, &jh7110_reset_trigger(66, false));
    assert_eq!(regs[&reg], 0xffe5_afc0);
    run(&mut regs, &jh7110_reset_trigger(66, true));
    assert_eq!(regs[&reg], 0xffe5_afc4);
}

#[test]
fn set_bits_replaces_masked_bits_only() {
    let tx = DescriptorRing::<TX_DESC_COUNT>::new(0x9000_0000, MemPool::new(0xa000_0000, 0x4000_0000));
    let rx = DescriptorRing::<RX_DESC_COUNT>::new(0x9000_1000, MemPool::new(0xb000_0000, 0x5000_0000));
    let (nic, _) = DwmacNic::init(0, tx, rx, &mut zeroed(RX_DESC_COUNT), &mut zeroed(TX_DESC_COUNT));
    let mut regs: HashMap<usize, u32> = HashMap::new();
    regs.insert(0x1108, 0xffff_ffff);
    let op = nic.set_bits(0x1108, 0x7ffe, 0xc80);
    run(&mut regs, &[op]);
    assert_eq!(regs[&0x1108], 0xffff_8c81);
    run(&mut regs, &[op]);
    assert_eq!(regs[&0x1108], 0xffff_8c81);
}
