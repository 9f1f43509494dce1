use dwmac::descriptor::{DmaDescriptor, DmaExtendedDescriptor};
use dwmac::mempool::MemPool;

#[test]
fn pool_hands_out_buffers_in_address_order() {
    let mut pool = MemPool::<4, 0x100>::new(0x8000_0000, 0x1_0000);
    assert_eq!(pool.base_ptr(), 0x1_0000);
    assert_eq!(pool.alloc_buf(), Some(0x1_0000));
    assert_eq!(pool.alloc_buf(), Some(0x1_0100));
    assert_eq!(pool.alloc_buf(), Some(0x1_0200));
    assert_eq!(pool.alloc_buf(), Some(0x1_0300));
    assert_eq!(pool.alloc_buf(), None);
}

#[test]
fn pool_is_first_in_first_out() {
    let mut pool = MemPool::<2, 0x100>::new(0x8000_0000, 0x1_0000);
    let a = pool.alloc_buf().unwrap();
    let b = pool.alloc_buf().unwrap();
    assert_eq!(pool.alloc_buf(), None);
    pool.free(b);
    pool.free(a);
    assert_eq!(pool.alloc_buf(), Some(b));
    assert_eq!(pool.alloc_buf(), Some(a));
    assert_eq!(pool.alloc_buf(), None);
}

#[test]
fn pool_translates_addresses_both_ways() {
    let pool = MemPool::<4, 0x100>::new(0x8000_0000, 0x1_0000);
    assert_eq!(pool.bus_addr(0x1_0100), 0x8000_0100);
    assert_eq!(pool.bus_addr(0x1_0000), 0x8000_0000);
    assert_eq!(pool.bus_addr_to_ptr(0x8000_0210), 0x1_0210);
    assert_eq!(pool.bus_addr_to_ptr(pool.bus_addr(0x1_02f0)), 0x1_02f0);
}

#[test]
fn descriptor_words_and_ownership() {
    let mut d = DmaDescriptor::from_raw(1, 2, 3, 4);
    assert_eq!((d.des0(), d.des1(), d.des2(), d.des3()), (1, 2, 3, 4));
    assert!(!d.basic_is_owned_by_dma());
    d.set_des0(10);
    d.set_des1(11);
    d.set_des2(12);
    assert_eq!((d.des0(), d.des1(), d.des2()), (10, 11, 12));
    d.set_des3(0);
    assert_eq!(d.des3(), 0x0200_0000);
    d.set_own();
    assert_eq!(d.des3(), 0x8200_0000);
    assert!(d.basic_is_owned_by_dma());
    assert!(DmaDescriptor::from_raw(0, 0, 0, 0x8000_0000).basic_is_owned_by_dma());
}

#[test]
fn extended_descriptor_operations() {
    let mut e = DmaExtendedDescriptor { basic: DmaDescriptor::from_raw(9, 9, 9, 0x8000_0009) };
    assert!(e.is_owned_by_dma());
    e.cache_invalidate();
    e.set_buffer_paddr(0x1_2345_6789);
    assert_eq!(e.basic.des0(), 0x2345_6789);
    assert_eq!(e.basic.des3(), 0x8000_0009);
    e.zero_init();
    assert_eq!(e.basic, DmaDescriptor::from_raw(0, 0, 0, 0));
    assert!(!e.is_owned_by_dma());
}
