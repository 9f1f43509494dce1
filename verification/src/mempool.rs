//! A pool of `N` DMA buffers of `PS` bytes each, carved from one DMA allocation.
use std::collections::VecDeque;
use vstd::prelude::*;

verus! {

/// A pool of `N` DMA buffers of `PS` bytes, laid out back to back from virtual address
/// `base()` (bus address `bus_base()`). Free buffers are handed out first in, first out.
pub struct MemPool<const N: usize, const PS: usize> {
    bus_addr: usize,
    ptr: usize,
    free: VecDeque<usize>,
}

impl<const N: usize, const PS: usize> MemPool<N, PS> {
    /// Bus address of the first buffer.
    pub closed spec fn bus_base(&self) -> usize {
        self.bus_addr
    }

    /// Virtual address of the first buffer.
    pub closed spec fn base(&self) -> usize {
        self.ptr
    }

    /// The free buffers, in the order in which `alloc` hands them out.
    pub closed spec fn free_list(&self) -> Seq<usize> {
        self.free@
    }

    /// The pool's byte range fits in the address space, seen from the CPU and the bus.
    pub open spec fn wf(&self) -> bool {
        &&& self.base() + N * PS <= usize::MAX
        &&& self.bus_base() + N * PS <= usize::MAX
    }

    /// Virtual address `p` lies in the pool.
    pub open spec fn holds(&self, p: usize) -> bool {
        self.base() <= p < self.base() + N * PS
    }

    /// Bus address `b` lies in the pool.
    pub open spec fn holds_bus(&self, b: usize) -> bool {
        self.bus_base() <= b < self.bus_base() + N * PS
    }

    /// Every free buffer lies in the pool.
    pub open spec fn free_in_pool(&self) -> bool {
        forall|i: int| 0 <= i < self.free_list().len() ==> self.holds(#[trigger] self.free_list()[i])
    }

    /// The bus address of virtual address `p`.
    pub open spec fn bus_of(&self, p: usize) -> int {
        self.bus_base() + (p - self.base())
    }

    /// The virtual address of bus address `b`.
    pub open spec fn ptr_of(&self, b: usize) -> int {
        self.base() + (b - self.bus_base())
    }

    /// The start of buffer `i`.
    pub open spec fn buffer(&self, i: int) -> int {
        self.base() + i * PS
    }

    /// A pool over the allocation at virtual address `ptr`, bus address `bus_addr`, with
    /// all `N` buffers free, in address order.
    pub fn new(bus_addr: usize, ptr: usize) -> (pool: Self)
        requires
            ptr + N * PS <= usize::MAX,
            bus_addr + N * PS <= usize::MAX,
        ensures
            pool.wf(),
            pool.bus_base() == bus_addr,
            pool.base() == ptr,
            pool.free_list().len() == N,
            forall|i: int| 0 <= i < N ==> #[trigger] pool.free_list()[i] == pool.buffer(i),
            PS > 0 ==> pool.free_in_pool(),
    {
        let mut free_buffers: VecDeque<usize> = VecDeque::new();
        let mut i: usize = 0;
        while i < N
            invariant
                i <= N,
                ptr + N * PS <= usize::MAX,
                free_buffers@.len() == i,
                forall|j: int| 0 <= j < i ==> #[trigger] free_buffers@[j] == ptr + j * PS,
            decreases N - i,
        {
            assert(i * PS <= N * PS) by (nonlinear_arith)
                requires
                    i < N,
            ;
            free_buffers.push_back(ptr + i * PS);
            i = i + 1;
        }
        let pool = MemPool { bus_addr, ptr, free: free_buffers };
        assert forall|j: int| PS > 0 && 0 <= j < pool.free_list().len() implies pool.holds(
            #[trigger] pool.free_list()[j],
        ) by {
            assert(j * PS < N * PS) by (nonlinear_arith)
                requires
                    0 <= j < N,
                    PS > 0,
            ;
        }
        pool
    }

    /// Virtual address of the first buffer.
    pub fn base_ptr(&self) -> (r: usize)
        ensures
            r == self.base(),
    {
        self.ptr
    }

    /// Takes the oldest free buffer; `None` when none is free.
    pub fn alloc_buf(&mut self) -> (r: Option<usize>)
        ensures
            final(self).bus_base() == old(self).bus_base(),
            final(self).base() == old(self).base(),
            old(self).free_list().len() == 0 ==> r is None && final(self).free_list() == old(
                self,
            ).free_list(),
            old(self).free_list().len() > 0 ==> r == Some(old(self).free_list()[0])
                && final(self).free_list() == old(self).free_list().drop_first(),
    {
        self.free.pop_front()
    }

    /// Returns buffer `ptr` to the pool, as the newest free buffer.
    pub fn free(&mut self, ptr: usize)
        ensures
            final(self).bus_base() == old(self).bus_base(),
            final(self).base() == old(self).base(),
            final(self).free_list() == old(self).free_list().push(ptr),
    {
        self.free.push_back(ptr);
    }

    /// The bus address of virtual address `ptr`.
    pub fn bus_addr(&self, ptr: usize) -> (r: usize)
        requires
            self.base() <= ptr,
            self.bus_base() + (ptr - self.base()) <= usize::MAX,
        ensures
            r == self.bus_of(ptr),
    {
        self.bus_addr + (ptr - self.ptr)
    }

    /// The virtual address of bus address `bus_addr`.
    pub fn bus_addr_to_ptr(&self, bus_addr: usize) -> (r: usize)
        requires
            self.bus_base() <= bus_addr,
            self.base() + (bus_addr - self.bus_base()) <= usize::MAX,
        ensures
            r == self.ptr_of(bus_addr),
    {
        self.ptr + (bus_addr - self.bus_addr)
    }
}

/// Translating a pool address to the bus and back gives it back, and so does the
/// opposite round trip; an address in the pool has its bus address in the pool.
pub proof fn lemma_bus_translation<const N: usize, const PS: usize>(
    pool: MemPool<N, PS>,
    p: usize,
    b: usize,
)
    requires
        pool.wf(),
    ensures
        pool.holds(p) ==> pool.holds_bus(pool.bus_of(p) as usize) && pool.ptr_of(
            pool.bus_of(p) as usize,
        ) == p,
        pool.holds_bus(b) ==> pool.holds(pool.ptr_of(b) as usize) && pool.bus_of(
            pool.ptr_of(b) as usize,
        ) == b,
{
}

} // verus!
