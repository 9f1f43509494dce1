//! Descriptor rings: the indices that the driver keeps over a ring of `N` DMA
//! descriptors, the bus address of the buffer behind each slot, and the pool that those
//! buffers come from.
use crate::descriptor::DmaExtendedDescriptor;
use crate::mempool::MemPool;
use crate::regs::dma::{DESC_OWN, RDES3_BUFFER1_VALID_ADDR, RDES3_INT_ON_COMPLETION_EN};
use vstd::prelude::*;

verus! {

/// Number of transmit descriptors.
pub const TX_DESC_COUNT: usize = 256;
/// Number of receive descriptors.
pub const RX_DESC_COUNT: usize = 256;
/// Size of one packet buffer.
pub const MAX_FRAME_SIZE: usize = 2048;
/// Number of buffers in the pool of each ring.
pub const POOL_SIZE: usize = RX_DESC_COUNT + TX_DESC_COUNT;
/// Size of one descriptor in DMA memory: four 32-bit words.
pub const DESC_SIZE: usize = 16;

/// Word 3 of a receive descriptor handed to the DMA engine: owned, buffer 1 valid,
/// interrupt on completion (and RDES0 valid, which every word-3 store sets).
pub const RX_DESC3_READY: u32 = 0xc300_0000;

/// The slot after slot `i` of a ring of `n` slots.
pub open spec fn next_index(i: int, n: int) -> int {
    if i + 1 == n {
        0
    } else {
        i + 1
    }
}

/// Stepping one slot forward is adding one modulo the ring size.
pub proof fn lemma_next_index(i: int, n: int)
    requires
        0 <= i < n,
    ensures
        next_index(i, n) == (i + 1) % n,
        0 <= next_index(i, n) < n,
{
    if i + 1 == n {
        vstd::arithmetic::div_mod::lemma_mod_self_0(n);
    } else {
        vstd::arithmetic::div_mod::lemma_small_mod((i + 1) as nat, n as nat);
    }
}

/// In a well-formed ring fewer than `N` slots are in flight; the ring is full exactly
/// when `N - 1` are, and empty exactly when none is.
pub proof fn lemma_ring_occupancy<const N: usize>(ring: DescriptorRing<N>)
    requires
        ring.wf(),
    ensures
        0 <= ring.in_flight() < N,
        (next_index(ring.tail_index() as int, N as int) == ring.head_index()) <==> ring.in_flight()
            == N - 1,
        (ring.head_index() == ring.tail_index()) <==> ring.in_flight() == 0,
{
}

/// Fullness of a ring of at least two slots: full means the slot after the tail,
/// `(tail + 1) % N`, is the head; a ring is never full and empty at once; it is full
/// right after receive initialisation and not full right after transmit initialisation.
pub proof fn lemma_ring_fullness<const N: usize>(
    ring: DescriptorRing<N>,
    before: DescriptorRing<N>,
    old_descs: Seq<DmaExtendedDescriptor>,
    descs: Seq<DmaExtendedDescriptor>,
)
    requires
        ring.wf(),
        N >= 2,
    ensures
        (next_index(ring.tail_index() as int, N as int) == ring.head_index()) <==> (ring.tail_index()
            + 1) % (N as int) == ring.head_index(),
        !((next_index(ring.tail_index() as int, N as int) == ring.head_index()) && ring.head_index()
            == ring.tail_index()),
        DescriptorRing::<N>::rx_initialized(before, ring, old_descs, descs) ==> next_index(
            ring.tail_index() as int,
            N as int,
        ) == ring.head_index(),
        DescriptorRing::<N>::tx_initialized(before, ring, descs) ==> next_index(
            ring.tail_index() as int,
            N as int,
        ) != ring.head_index(),
{
    lemma_next_index(ring.tail_index() as int, N as int);
}

/// A ring of `N` descriptors: a head index (the oldest slot in use), a tail index (the
/// next slot to fill), the bus address of the buffer attached to each slot, and the pool
/// that buffers come from.
pub struct DescriptorRing<const N: usize> {
    phy_descriptors: usize,
    mem_pool: MemPool<POOL_SIZE, MAX_FRAME_SIZE>,
    head: usize,
    tail: usize,
    buffers: Vec<usize>,
}

impl<const N: usize> DescriptorRing<N> {
    pub closed spec fn head_index(&self) -> usize {
        self.head
    }

    pub closed spec fn tail_index(&self) -> usize {
        self.tail
    }

    /// The bus address of the buffer attached to each slot.
    pub closed spec fn buffer_list(&self) -> Seq<usize> {
        self.buffers@
    }

    /// The bus address of the first descriptor.
    pub closed spec fn desc_base(&self) -> usize {
        self.phy_descriptors
    }

    /// The pool that the ring's buffers come from.
    pub closed spec fn pool(&self) -> MemPool<POOL_SIZE, MAX_FRAME_SIZE> {
        self.mem_pool
    }

    /// The pool that the ring's buffers come from.
    pub fn mem_pool(&self) -> (r: &MemPool<POOL_SIZE, MAX_FRAME_SIZE>)
        ensures
            *r == self.pool(),
    {
        &self.mem_pool
    }

    /// The pool that the ring's buffers come from, to change.
    pub fn mem_pool_mut(&mut self) -> (r: &mut MemPool<POOL_SIZE, MAX_FRAME_SIZE>)
        ensures
            *r == old(self).pool(),
            final(self).pool() == *final(r),
            final(self).head_index() == old(self).head_index(),
            final(self).tail_index() == old(self).tail_index(),
            final(self).buffer_list() == old(self).buffer_list(),
            final(self).desc_base() == old(self).desc_base(),
    {
        &mut self.mem_pool
    }

    pub open spec fn wf(&self) -> bool {
        &&& 0 < N
        &&& self.head_index() < N
        &&& self.tail_index() < N
        &&& self.buffer_list().len() == N
        &&& self.desc_base() + N * DESC_SIZE <= usize::MAX
        &&& self.pool().wf()
        &&& self.pool().free_in_pool()
    }

    /// Slot `j` places after the head.
    pub open spec fn slot(&self, j: int) -> int {
        if self.head_index() + j < N {
            self.head_index() + j
        } else {
            self.head_index() + j - N
        }
    }

    /// How many places slot `k` lies after the head.
    pub open spec fn offset(&self, k: int) -> int {
        if k >= self.head_index() {
            k - self.head_index()
        } else {
            k + N - self.head_index()
        }
    }

    /// Number of slots from the head up to (not including) the tail.
    pub open spec fn in_flight(&self) -> int {
        self.offset(self.tail_index() as int)
    }

    /// Everything but the head index is as in `other`.
    pub open spec fn same_but_head(&self, other: &Self) -> bool {
        &&& self.tail_index() == other.tail_index()
        &&& self.buffer_list() == other.buffer_list()
        &&& self.desc_base() == other.desc_base()
        &&& self.pool() == other.pool()
    }

    /// Everything but the tail index is as in `other`.
    pub open spec fn same_but_tail(&self, other: &Self) -> bool {
        &&& self.head_index() == other.head_index()
        &&& self.buffer_list() == other.buffer_list()
        &&& self.desc_base() == other.desc_base()
        &&& self.pool() == other.pool()
    }

    /// An empty ring whose descriptors start at bus address `phy_descriptors`, with its
    /// buffers taken from `mem_pool`.
    pub fn new(phy_descriptors: usize, mem_pool: MemPool<POOL_SIZE, MAX_FRAME_SIZE>) -> (ring: Self)
        requires
            0 < N,
            phy_descriptors + N * DESC_SIZE <= usize::MAX,
            mem_pool.wf(),
            mem_pool.free_in_pool(),
        ensures
            ring.wf(),
            ring.head_index() == 0,
            ring.tail_index() == 0,
            ring.desc_base() == phy_descriptors,
            ring.pool() == mem_pool,
            forall|i: int| 0 <= i < N ==> #[trigger] ring.buffer_list()[i] == 0,
    {
        let mut buffers: Vec<usize> = Vec::new();
        let mut i: usize = 0;
        while i < N
            invariant
                i <= N,
                buffers@.len() == i,
                forall|j: int| 0 <= j < i ==> #[trigger] buffers@[j] == 0,
            decreases N - i,
        {
            buffers.push(0);
            i = i + 1;
        }
        DescriptorRing { phy_descriptors, mem_pool, head: 0, tail: 0, buffers }
    }

    /// The bus address of descriptor `index`.
    pub fn get_descriptor_paddr(&self, index: usize) -> (r: usize)
        requires
            self.desc_base() + index * DESC_SIZE <= usize::MAX,
        ensures
            r == self.desc_base() + index * DESC_SIZE,
    {
        self.phy_descriptors + index * DESC_SIZE
    }

    pub fn head(&self) -> (r: usize)
        ensures
            r == self.head_index(),
    {
        self.head
    }

    pub fn tail(&self) -> (r: usize)
        ensures
            r == self.tail_index(),
    {
        self.tail
    }

    /// The slot after the head.
    pub fn next_head(&self) -> (r: usize)
        requires
            self.wf(),
        ensures
            r == next_index(self.head_index() as int, N as int),
            r == (self.head_index() + 1) % (N as int),
    {
        proof {
            lemma_next_index(self.head as int, N as int);
        }
        (self.head + 1) % N
    }

    /// The slot after the tail.
    pub fn next_tail(&self) -> (r: usize)
        requires
            self.wf(),
        ensures
            r == next_index(self.tail_index() as int, N as int),
            r == (self.tail_index() + 1) % (N as int),
    {
        proof {
            lemma_next_index(self.tail as int, N as int);
        }
        (self.tail + 1) % N
    }

    /// Moves the head one slot forward.
    pub fn advance_head(&mut self)
        requires
            old(self).wf(),
        ensures
            final(self).wf(),
            final(self).head_index() == next_index(old(self).head_index() as int, N as int),
            final(self).same_but_head(old(self)),
    {
        proof {
            lemma_next_index(self.head as int, N as int);
        }
        self.head = (self.head + 1) % N;
    }

    /// Moves the tail one slot forward.
    pub fn advance_tail(&mut self)
        requires
            old(self).wf(),
        ensures
            final(self).wf(),
            final(self).tail_index() == next_index(old(self).tail_index() as int, N as int),
            final(self).same_but_tail(old(self)),
    {
        proof {
            lemma_next_index(self.tail as int, N as int);
        }
        self.tail = (self.tail + 1) % N;
    }

    /// Moves the tail of a receive ring one slot forward.
    pub fn advance_rx_tail(&mut self)
        requires
            old(self).wf(),
        ensures
            final(self).wf(),
            final(self).tail_index() == next_index(old(self).tail_index() as int, N as int),
            final(self).same_but_tail(old(self)),
    {
        proof {
            lemma_next_index(self.tail as int, N as int);
        }
        self.tail = (self.tail + 1) % N;
    }

    /// Whether no slot is left to fill: the slot after the tail is the head.
    pub fn is_full(&self) -> (r: bool)
        requires
            self.wf(),
        ensures
            r == (next_index(self.tail_index() as int, N as int) == self.head_index()),
    {
        self.next_tail() == self.head()
    }

    /// Whether no slot is in use: the head is the tail.
    pub fn is_empty(&self) -> (r: bool)
        ensures
            r == (self.head_index() == self.tail_index()),
    {
        self.head() == self.tail()
    }

    /// Whether a frame can be queued for transmission.
    pub fn has_available_tx(&self) -> (r: bool)
        requires
            self.wf(),
        ensures
            r == (next_index(self.tail_index() as int, N as int) != self.head_index()),
    {
        !self.is_full()
    }

    /// Whether the DMA engine has handed the head descriptor back with a received frame.
    pub fn has_completed_rx(&self, descs: &Vec<DmaExtendedDescriptor>) -> (r: bool)
        requires
            self.wf(),
            descs@.len() == N,
        ensures
            r == !descs@[self.head_index() as int].basic.owned(),
    {
        !descs[self.head()].is_owned_by_dma()
    }

    /// `ring` and `descs` are `old_ring` and `old_descs` after receive initialisation: a
    /// fresh pool buffer in every slot, in pool order, every descriptor ready to receive
    /// into it, head at slot 0, tail at the last slot.
    pub open spec fn rx_initialized(
        old_ring: Self,
        ring: Self,
        old_descs: Seq<DmaExtendedDescriptor>,
        descs: Seq<DmaExtendedDescriptor>,
    ) -> bool {
        &&& ring.wf()
        &&& ring.head_index() == 0
        &&& ring.tail_index() == N - 1
        &&& ring.desc_base() == old_ring.desc_base()
        &&& ring.pool().bus_base() == old_ring.pool().bus_base()
        &&& ring.pool().base() == old_ring.pool().base()
        &&& ring.pool().free_list() == old_ring.pool().free_list().skip(N as int)
        &&& descs.len() == N
        &&& forall|i: int|
            0 <= i < N ==> #[trigger] ring.buffer_list()[i] == old_ring.pool().bus_of(
                old_ring.pool().free_list()[i],
            )
        &&& forall|i: int|
            0 <= i < N ==> {
                &&& (#[trigger] descs[i]).basic.w0() == ring.buffer_list()[i] as u32
                &&& descs[i].basic.w1() == old_descs[i].basic.w1()
                &&& descs[i].basic.w2() == 0
                &&& descs[i].basic.w3() == RX_DESC3_READY
            }
    }

    /// `ring` and `descs` are `old_ring` after transmit initialisation: every descriptor
    /// cleared, head and tail at slot 0, buffers and pool as they were.
    pub open spec fn tx_initialized(old_ring: Self, ring: Self, descs: Seq<DmaExtendedDescriptor>) -> bool {
        &&& ring.wf()
        &&& ring.head_index() == 0
        &&& ring.tail_index() == 0
        &&& ring.buffer_list() == old_ring.buffer_list()
        &&& ring.desc_base() == old_ring.desc_base()
        &&& ring.pool() == old_ring.pool()
        &&& descs.len() == N
        &&& forall|i: int|
            0 <= i < N ==> {
                &&& (#[trigger] descs[i]).basic.w0() == 0
                &&& descs[i].basic.w1() == 0
                &&& descs[i].basic.w2() == 0
                &&& descs[i].basic.w3() == 0
            }
    }

    /// Attaches a fresh buffer from the pool to every slot and hands every descriptor to
    /// the DMA engine, ready to receive; the head becomes slot 0 and the tail the last slot.
    pub fn init_rx_ring(&mut self, descs: &mut Vec<DmaExtendedDescriptor>) -> (r: Result<(), ()>)
        requires
            old(self).wf(),
            old(descs)@.len() == N,
            old(self).pool().free_list().len() >= N,
        ensures
            r is Ok,
            Self::rx_initialized(*old(self), *final(self), old(descs)@, final(descs)@),
    {
        let ghost old_pool = self.mem_pool;
        let ghost old_descs = descs@;
        let mut i: usize = 0;
        while i < N
            invariant
                0 < N,
                i <= N,
                self.head < N,
                self.tail < N,
                self.buffers@.len() == N,
                self.phy_descriptors == old(self).phy_descriptors,
                self.phy_descriptors + N * DESC_SIZE <= usize::MAX,
                self.mem_pool.wf(),
                self.mem_pool.bus_base() == old_pool.bus_base(),
                self.mem_pool.base() == old_pool.base(),
                old_pool.free_list().len() >= N,
                old_pool.free_in_pool(),
                self.mem_pool.free_list() == old_pool.free_list().skip(i as int),
                descs@.len() == N,
                forall|j: int|
                    0 <= j < i ==> #[trigger] self.buffers@[j] == old_pool.bus_of(
                        old_pool.free_list()[j],
                    ),
                forall|j: int|
                    0 <= j < i ==> {
                        &&& (#[trigger] descs@[j]).basic.w0() == self.buffers@[j] as u32
                        &&& descs@[j].basic.w1() == old_descs[j].basic.w1()
                        &&& descs@[j].basic.w2() == 0
                        &&& descs@[j].basic.w3() == RX_DESC3_READY
                    },
                forall|j: int| i <= j < N ==> #[trigger] descs@[j] == old_descs[j],
            decreases N - i,
        {
            let ghost before = self.mem_pool.free_list();
            assert(before[0] == old_pool.free_list()[i as int]);
            let buffer = match self.mem_pool.alloc_buf() {
                Some(b) => b,
                None => {
                    assert(false);
                    0
                },
            };
            assert(old_pool.holds(old_pool.free_list()[i as int]));
            let bus_addr = self.mem_pool.bus_addr(buffer);
            let mut desc = descs[i];
            desc.set_buffer_paddr(bus_addr);
            desc.basic.set_des2(0);
            desc.basic.set_des3(DESC_OWN | RDES3_BUFFER1_VALID_ADDR | RDES3_INT_ON_COMPLETION_EN);
            assert((0x8000_0000u32 | 0x0100_0000u32 | 0x4000_0000u32) | 0x0200_0000u32 == 0xc300_0000u32)
                by (bit_vector);
            descs.set(i, desc);
            self.buffers.set(i, bus_addr);
            assert(self.mem_pool.free_list() =~= old_pool.free_list().skip(i + 1));
            i = i + 1;
        }
        self.head = 0;
        self.tail = N - 1;
        assert(self.mem_pool.free_in_pool()) by {
            assert forall|j: int| 0 <= j < self.mem_pool.free_list().len() implies self.mem_pool.holds(
                #[trigger] self.mem_pool.free_list()[j],
            ) by {
                assert(self.mem_pool.free_list()[j] == old_pool.free_list()[j + N]);
            }
        }
        Ok(())
    }

    /// Clears every descriptor; the ring becomes empty at slot 0.
    pub fn init_tx_ring(&mut self, descs: &mut Vec<DmaExtendedDescriptor>) -> (r: Result<(), ()>)
        requires
            old(self).wf(),
            old(descs)@.len() == N,
        ensures
            r is Ok,
            Self::tx_initialized(*old(self), *final(self), final(descs)@),
    {
        let mut i: usize = 0;
        while i < N
            invariant
                i <= N,
                descs@.len() == N,
                forall|j: int|
                    0 <= j < i ==> {
                        &&& (#[trigger] descs@[j]).basic.w0() == 0
                        &&& descs@[j].basic.w1() == 0
                        &&& descs@[j].basic.w2() == 0
                        &&& descs@[j].basic.w3() == 0
                    },
            decreases N - i,
        {
            let mut desc = descs[i];
            desc.zero_init();
            descs.set(i, desc);
            i = i + 1;
        }
        self.head = 0;
        self.tail = 0;
        Ok(())
    }

    /// Takes back the transmitted descriptors: from the head towards the tail, each
    /// descriptor that the DMA engine has released is cleared and its buffer returned to
    /// the pool, up to the first one that it still owns. The head moves past the slots
    /// taken back; the result is their number.
    pub fn reclaim_tx_descriptors(&mut self, descs: &mut Vec<DmaExtendedDescriptor>) -> (r: usize)
        requires
            old(self).wf(),
            old(descs)@.len() == N,
            forall|j: int|
                0 <= j < old(self).in_flight() && (forall|k: int|
                    0 <= k <= j ==> !(#[trigger] old(descs)@[old(self).slot(k)]).basic.owned())
                    ==> old(self).pool().holds_bus(
                    #[trigger] old(self).buffer_list()[old(self).slot(j)],
                ),
        ensures
            final(self).wf(),
            r <= old(self).in_flight(),
            forall|j: int| 0 <= j < r ==> !(#[trigger] old(descs)@[old(self).slot(j)]).basic.owned(),
            r < old(self).in_flight() ==> old(descs)@[old(self).slot(r as int)].basic.owned(),
            final(self).head_index() == old(self).slot(r as int),
            final(self).tail_index() == old(self).tail_index(),
            final(self).buffer_list() == old(self).buffer_list(),
            final(self).desc_base() == old(self).desc_base(),
            final(self).pool().bus_base() == old(self).pool().bus_base(),
            final(self).pool().base() == old(self).pool().base(),
            final(self).pool().free_list() == old(self).pool().free_list() + Seq::new(
                r as nat,
                |j: int| old(self).pool().ptr_of(old(self).buffer_list()[old(self).slot(j)]) as usize,
            ),
            final(descs)@.len() == N,
            forall|k: int|
                0 <= k < N && old(self).offset(k) < r ==> {
                    &&& (#[trigger] final(descs)@[k]).basic.w0() == 0
                    &&& final(descs)@[k].basic.w1() == 0
                    &&& final(descs)@[k].basic.w2() == 0
                    &&& final(descs)@[k].basic.w3() == 0
                },
            forall|k: int|
                0 <= k < N && old(self).offset(k) >= r ==> #[trigger] final(descs)@[k] == old(
                    descs,
                )@[k],
    {
        let ghost old_self = *self;
        let ghost old_descs = descs@;
        let head = self.head;
        let tail = self.tail;
        let n: usize = if tail >= head {
            tail - head
        } else {
            tail + N - head
        };
        let mut reclaimed: usize = 0;
        let mut current: usize = head;
        while reclaimed < n
            invariant_except_break
                reclaimed <= n,
            invariant
                old_self.wf(),
                n == old_self.in_flight(),
                n < N,
                head == old_self.head_index(),
                reclaimed <= n,
                current == old_self.slot(reclaimed as int),
                self.head == old_self.head,
                self.tail == old_self.tail,
                self.buffers == old_self.buffers,
                self.phy_descriptors == old_self.phy_descriptors,
                self.mem_pool.wf(),
                self.mem_pool.bus_base() == old_self.pool().bus_base(),
                self.mem_pool.base() == old_self.pool().base(),
                self.mem_pool.free_in_pool(),
                self.mem_pool.free_list() == old_self.pool().free_list() + Seq::new(
                    reclaimed as nat,
                    |j: int| old_self.pool().ptr_of(old_self.buffer_list()[old_self.slot(j)]) as usize,
                ),
                forall|j: int|
                    0 <= j < n && (forall|k: int|
                        0 <= k <= j ==> !(#[trigger] old_descs[old_self.slot(k)]).basic.owned())
                        ==> old_self.pool().holds_bus(
                        #[trigger] old_self.buffer_list()[old_self.slot(j)],
                    ),
                descs@.len() == N,
                forall|j: int| 0 <= j < reclaimed ==> !(#[trigger] old_descs[old_self.slot(j)]).basic.owned(),
                forall|k: int|
                    0 <= k < N && old_self.offset(k) < reclaimed ==> {
                        &&& (#[trigger] descs@[k]).basic.w0() == 0
                        &&& descs@[k].basic.w1() == 0
                        &&& descs@[k].basic.w2() == 0
                        &&& descs@[k].basic.w3() == 0
                    },
                forall|k: int|
                    0 <= k < N && old_self.offset(k) >= reclaimed ==> #[trigger] descs@[k]
                        == old_descs[k],
            ensures
                reclaimed < n ==> old_descs[old_self.slot(reclaimed as int)].basic.owned(),
            decreases n - reclaimed,
        {
            assert(old_self.offset(current as int) == reclaimed);
            let owned = descs[current].is_owned_by_dma();
            if owned {
                break;
            }
            let bus_addr = self.buffers[current];
            assert(old_self.pool().holds_bus(old_self.buffer_list()[old_self.slot(reclaimed as int)]));
            let ptr = self.mem_pool.bus_addr_to_ptr(bus_addr);
            self.mem_pool.free(ptr);
            let mut desc = descs[current];
            desc.zero_init();
            descs.set(current, desc);
            assert(self.mem_pool.free_list() =~= old_self.pool().free_list() + Seq::new(
                (reclaimed + 1) as nat,
                |j: int| old_self.pool().ptr_of(old_self.buffer_list()[old_self.slot(j)]) as usize,
            ));
            current = if current + 1 == N {
                0
            } else {
                current + 1
            };
            reclaimed = reclaimed + 1;
        }
        if reclaimed > 0 {
            self.head = current;
        }
        reclaimed
    }

    /// The bus address of the buffer attached to slot `index`.
    pub fn buffer(&self, index: usize) -> (r: usize)
        requires
            self.wf(),
            index < N,
        ensures
            r == self.buffer_list()[index as int],
    {
        self.buffers[index]
    }

    /// Attaches the buffer at bus address `bus_addr` to slot `index`.
    pub fn set_buffer(&mut self, index: usize, bus_addr: usize)
        requires
            old(self).wf(),
            index < N,
        ensures
            final(self).wf(),
            final(self).buffer_list() == old(self).buffer_list().update(index as int, bus_addr),
            final(self).head_index() == old(self).head_index(),
            final(self).tail_index() == old(self).tail_index(),
            final(self).desc_base() == old(self).desc_base(),
            final(self).pool() == old(self).pool(),
    {
        self.buffers.set(index, bus_addr);
    }
}

} // verus!
