use dwmac::descriptor::{DmaDescriptor, DmaExtendedDescriptor};
use dwmac::mempool::MemPool;
use dwmac::mmio::RegOp;
use dwmac::nic::{clear_dma_intr_start, ClearIntrNext, ClearIntrState, ClearIntrStep, DwmacNic, NicError, ResetPoll};
use dwmac::ring::{DescriptorRing, RX_DESC_COUNT, TX_DESC_COUNT};

const TX_DESCS: usize = 0x9000_0000;
const RX_DESCS: usize = 0x9000_1000;
const TX_POOL_BUS: usize = 0xa000_0000;
const TX_POOL: usize = 0x4000_0000;
const RX_POOL_BUS: usize = 0xb000_0000;
const RX_POOL: usize = 0x5000_0000;

fn zeroed(n: usize) -> Vec<DmaExtendedDescriptor> {
    (0..n).map(|_| DmaExtendedDescriptor { basic: DmaDescriptor::from_raw(0, 0, 0, 0) }).collect()
}

fn rings() -> (DescriptorRing<TX_DESC_COUNT>, DescriptorRing<RX_DESC_COUNT>) {
    (
        DescriptorRing::new(TX_DESCS, MemPool::new(TX_POOL_BUS, TX_POOL)),
        DescriptorRing::new(RX_DESCS, MemPool::new(RX_POOL_BUS, RX_POOL)),
    )
}

fn new_nic() -> (DwmacNic, Vec<RegOp>, Vec<DmaExtendedDescriptor>, Vec<DmaExtendedDescriptor>) {
    let (tx, rx) = rings();
    let mut rx_descs = zeroed(RX_DESC_COUNT);
    let mut tx_descs = zeroed(TX_DESC_COUNT);
    let (nic, ops) = DwmacNic::init(0x1000, tx, rx, &mut rx_descs, &mut tx_descs);
    (nic, ops, rx_descs, tx_descs)
}

fn w(reg: usize, value: u32) -> RegOp {
    RegOp::Write { reg, value }
}

#[test]
fn init_programs_rings_and_mac_address() {
    let (nic, ops, rx_descs, tx_descs) = new_nic();
    assert_eq!(nic.base_addr, 0x1000);
    assert_eq!(nic.mac_addr, [0x6c, 0xcf, 0x39, 0x00, 0xb2, 0x7b]);
    assert!(nic.link_up);
    assert_eq!(
        ops,
        vec![
            w(0x1110, 0),
            w(0x1114, TX_DESCS as u32),
            w(0x112c, 255),
            w(0x1118, 0),
            w(0x111c, RX_DESCS as u32),
            w(0x1128, (RX_DESCS + 255 * 16) as u32),
            w(0x1130, 255),
            w(0x1104, 0x80011),
            w(0x1108, 0x80c81),
            w(0x300, 0x8000_7bb2),
            w(0x304, 0x0039_cf6c),
        ]
    );
    assert_eq!(nic.rx_ring.head(), 0);
    assert_eq!(nic.rx_ring.tail(), 255);
    assert_eq!(nic.tx_ring.head(), 0);
    assert_eq!(nic.tx_ring.tail(), 0);
    assert_eq!(rx_descs[0].basic.des0(), RX_POOL_BUS as u32);
    assert_eq!(rx_descs[0].basic.des2(), 0);
    assert_eq!(rx_descs[0].basic.des3(), 0xc300_0000);
    assert_eq!(rx_descs[1].basic.des0(), (RX_POOL_BUS + 2048) as u32);
    assert_eq!(nic.rx_ring.buffer(255), RX_POOL_BUS + 255 * 2048);
    assert!(rx_descs.iter().all(|d| d.is_owned_by_dma()));
    assert!(tx_descs.iter().all(|d| d.basic == DmaDescriptor::from_raw(0, 0, 0, 0)));
    assert!(!nic.rx_ring.has_completed_rx(&rx_descs));
}

#[test]
fn init0_program_length_and_mac() {
    let (tx, rx) = rings();
    let mut rx_descs = zeroed(RX_DESC_COUNT);
    let mut tx_descs = zeroed(TX_DESC_COUNT);
    let (nic, ops) = DwmacNic::init0(0x2000, tx, rx, &mut rx_descs, &mut tx_descs);
    assert_eq!(nic.mac_addr, [0x35, 0x5d, 0x00, 0x39, 0xcf, 0x6c]);
    assert_eq!(ops.len(), 42);
    assert_eq!(ops[0], RegOp::Update { reg: 0xd0, clear: 0x0039_0000, set: 0 });
    assert_eq!(ops[1], w(0xb4, 1));
    assert_eq!(ops[17], w(0x300, 0x8000_6ccf));
    assert_eq!(ops[18], w(0x304, 0x3900_5d35));
    assert_eq!(ops[16], RegOp::Update { reg: 0x0, clear: 0x8b_0000, set: 0 });
    assert_eq!(ops[40], w(0x1134, 0xd041));
}

#[test]
fn ring_indices_move_around() {
    let (mut tx, _) = rings();
    assert!(tx.is_empty());
    assert!(!tx.is_full());
    assert!(tx.has_available_tx());
    assert_eq!(tx.next_head(), 1);
    assert_eq!(tx.next_tail(), 1);
    for _ in 0..255 {
        tx.advance_tail();
    }
    assert_eq!(tx.tail(), 255);
    assert!(tx.is_full());
    assert!(!tx.has_available_tx());
    assert_eq!(tx.next_tail(), 0);
    tx.advance_rx_tail();
    assert_eq!(tx.tail(), 0);
    assert!(tx.is_empty());
    tx.advance_head();
    assert_eq!(tx.head(), 1);
    assert_eq!(tx.get_descriptor_paddr(3), TX_DESCS + 48);
}

#[test]
fn transmit_fills_tail_descriptor() {
    let (mut nic, _, _, mut tx_descs) = new_nic();
    let r = nic.transmit(&mut tx_descs, TX_POOL + 2048, 60);
    assert_eq!(r, Ok((0, w(0x1120, (TX_DESCS + 16) as u32))));
    assert_eq!(tx_descs[0].basic.des0(), (TX_POOL_BUS + 2048) as u32);
    assert_eq!(tx_descs[0].basic.des1(), 0);
    assert_eq!(tx_descs[0].basic.des2(), 60);
    assert_eq!(tx_descs[0].basic.des3(), 0xb200_003c);
    assert_eq!(nic.tx_ring.head(), 1);
    assert_eq!(nic.tx_ring.tail(), 1);
    assert_eq!(nic.tx_ring.buffer(0), TX_POOL_BUS + 2048);
}

#[test]
fn transmit_refuses_busy_or_full_ring() {
    let (mut nic, _, _, mut tx_descs) = new_nic();
    tx_descs[0] = DmaExtendedDescriptor { basic: DmaDescriptor::from_raw(0, 0, 0, 0x8000_0000) };
    let before = tx_descs.clone();
    assert_eq!(nic.transmit(&mut tx_descs, TX_POOL, 60), Err(NicError::TxAgain));
    assert_eq!(tx_descs, before);
    assert_eq!(nic.tx_ring.tail(), 0);
    for _ in 0..255 {
        nic.tx_ring.advance_tail();
    }
    assert_eq!(nic.transmit(&mut tx_descs, 0, 60), Err(NicError::TxAgain));
    assert_eq!(NicError::TxAgain.message(), "TX Error::Again");
}

#[test]
fn receive_takes_frame_and_recycles_slot() {
    let (mut nic, _, mut rx_descs, _) = new_nic();
    assert_eq!(nic.receive(&mut rx_descs), Err(NicError::RxAgain));
    assert_eq!(NicError::RxAgain.message(), "RX Error::Again");
    rx_descs[0] = DmaExtendedDescriptor { basic: DmaDescriptor::from_raw(0, 0, 0, 0x3000_003c) };
    assert!(nic.rx_ring.has_completed_rx(&rx_descs));
    let r = nic.receive(&mut rx_descs);
    assert_eq!(r, Ok((RX_POOL, 60, w(0x1128, RX_DESCS as u32))));
    assert_eq!(nic.rx_ring.head(), 1);
    assert_eq!(nic.rx_ring.buffer(0), RX_POOL_BUS + 256 * 2048);
    assert_eq!(rx_descs[0].basic.des0(), (RX_POOL_BUS + 256 * 2048) as u32);
    assert_eq!(rx_descs[0].basic.des3(), 0xc300_0000);
}

#[test]
fn receive_without_free_buffer() {
    let (mut nic, _, mut rx_descs, _) = new_nic();
    while nic.rx_ring.mem_pool_mut().alloc_buf().is_some() {}
    rx_descs[0] = DmaExtendedDescriptor { basic: DmaDescriptor::from_raw(0, 0, 0, 42) };
    assert_eq!(nic.receive(&mut rx_descs), Err(NicError::RxNoMemory));
    assert_eq!(NicError::RxNoMemory.message(), "RX Error::NoMemory");
    assert_eq!(nic.rx_ring.head(), 1);
}

#[test]
fn reclaim_takes_back_released_descriptors() {
    let (mut tx, _) = rings();
    let mut descs = zeroed(TX_DESC_COUNT);
    tx.set_buffer(0, TX_POOL_BUS + 2048);
    tx.set_buffer(1, TX_POOL_BUS + 4096);
    tx.set_buffer(2, TX_POOL_BUS);
    tx.advance_tail();
    tx.advance_tail();
    tx.advance_tail();
    descs[0] = DmaExtendedDescriptor { basic: DmaDescriptor::from_raw(1, 2, 3, 4) };
    descs[1] = DmaExtendedDescriptor { basic: DmaDescriptor::from_raw(5, 6, 7, 8) };
    descs[2] = DmaExtendedDescriptor { basic: DmaDescriptor::from_raw(0, 0, 0, 0x8000_0000) };
    for _ in 0..512 {
        tx.mem_pool_mut().alloc_buf();
    }
    assert_eq!(tx.reclaim_tx_descriptors(&mut descs), 2);
    assert_eq!(tx.head(), 2);
    assert_eq!(tx.tail(), 3);
    assert_eq!(descs[0].basic, DmaDescriptor::from_raw(0, 0, 0, 0));
    assert_eq!(descs[1].basic, DmaDescriptor::from_raw(0, 0, 0, 0));
    assert!(descs[2].is_owned_by_dma());
    assert_eq!(tx.mem_pool_mut().alloc_buf(), Some(TX_POOL + 2048));
    assert_eq!(tx.mem_pool_mut().alloc_buf(), Some(TX_POOL + 4096));
    assert_eq!(tx.mem_pool_mut().alloc_buf(), None);
    assert_eq!(tx.reclaim_tx_descriptors(&mut descs), 0);
}

#[test]
fn end_address_updates() {
    let (nic, _, _, _) = new_nic();
    assert_eq!(nic.update_rx_end_addr(5), w(0x1128, (RX_DESCS + 80) as u32));
    assert_eq!(nic.update_tx_end_addr(2), w(0x1120, (TX_DESCS + 32) as u32));
}

#[test]
fn small_register_programs() {
    let (nic, _, _, _) = new_nic();
    assert_eq!(nic.reset_dma(), vec![RegOp::Update { reg: 0x1000, clear: 1, set: 1 }]);
    assert_eq!(nic.set_clock_freq(0x7c), vec![w(0xdc, 0x7c)]);
    assert_eq!(nic.set_qos(), vec![w(0x70, 0xffff_0002)]);
    assert_eq!(nic.set_bits(0x1108, 0x7ffe, 0xffff_ffff), RegOp::Update { reg: 0x1108, clear: 0x7ffe, set: 0x7ffe });
}

#[test]
fn reset_poll_decisions() {
    assert_eq!(DwmacNic::reset_dma_poll(1000, 1), ResetPoll::Retry(999));
    assert_eq!(DwmacNic::reset_dma_poll(0, 1), ResetPoll::TimedOut);
    assert_eq!(DwmacNic::reset_dma_poll(5, 0), ResetPoll::Done);
    assert_eq!(DwmacNic::reset_dma_poll(0, 0xfffe), ResetPoll::Done);
}

#[test]
fn mac_interrupt_acknowledgement() {
    let (nic, _, _, _) = new_nic();
    let acks = vec![RegOp::Acknowledge { reg: 0xc20 }, RegOp::Acknowledge { reg: 0xd2c }];
    let mut with_lpi = vec![RegOp::Update { reg: 0xd0, clear: 0x0039_0000, set: 0 }];
    with_lpi.extend(acks.iter().copied());
    assert_eq!(nic.read_mac_intr_status(0x20), with_lpi);
    assert_eq!(nic.read_mac_intr_status(0x21), acks);
    assert_eq!(nic.read_mac_intr_status(0), acks);
}

/// Drives the DMA interrupt acknowledgement over channel status words `st` with enable
/// mask `en`; the registers read, the writes made, and the result.
fn drive_clear(nic: &DwmacNic, st: &[u32], en: u32) -> (Vec<usize>, Vec<RegOp>, bool) {
    let (mut state, mut next) = clear_dma_intr_start();
    let (mut reads, mut writes) = (vec![], vec![]);
    loop {
        match next {
            ClearIntrNext::Read(reg) => {
                reads.push(reg);
                let value = if reg == 0x1134 { en } else { st[(reg - 0x1160) / 0x100] };
                let (s, step) = nic.clear_dma_intr_status(state, value);
                if let Some(op) = step.write {
                    writes.push(op);
                }
                state = s;
                next = step.next;
            }
            ClearIntrNext::Done(rx) => return (reads, writes, rx),
        }
    }
}

#[test]
fn dma_interrupt_acknowledgement_stops_at_rx() {
    let (nic, _, _, _) = new_nic();
    let (reads, writes, rx) = drive_clear(&nic, &[0, 0x41, 0x1, 0, 0, 0, 0, 0], 0xd041);
    assert!(rx);
    assert_eq!(reads, vec![0x1160, 0x1260, 0x1134]);
    assert_eq!(writes, vec![w(0x1260, 0x41)]);
    let (reads, writes, rx) = drive_clear(&nic, &[1; 8], 0xd041);
    assert!(!rx);
    assert_eq!(reads.len(), 16);
    assert_eq!(writes.len(), 8);
    assert_eq!(writes[7], w(0x1860, 1));
    let (reads, writes, rx) = drive_clear(&nic, &[0x4, 0, 0, 0, 0, 0, 0, 0], 0xd041);
    assert!(!rx);
    assert_eq!(reads.len(), 9);
    assert!(writes.is_empty());
    assert_eq!(
        nic.clear_dma_intr_status(ClearIntrState::Status(7), 0),
        (ClearIntrState::Finished, ClearIntrStep { write: None, next: ClearIntrNext::Done(false) })
    );
}

#[test]
fn rx_ring_scan_reports() {
    let (nic, _, mut rx_descs, _) = new_nic();
    rx_descs[3] = DmaExtendedDescriptor { basic: DmaDescriptor::from_raw(0, 0, 64, 0x0100_0000) };
    let scan = nic.scan_rx_ring(&rx_descs);
    assert_eq!(scan.len(), RX_DESC_COUNT);
    assert!(!scan[0].cpu_owned);
    assert!(scan[0].has_status);
    assert!(scan[3].cpu_owned);
    assert!(!scan[3].has_status);
    assert_eq!(scan[3].des2, 64);
}
