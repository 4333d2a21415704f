//! Hands out equal-sized slots of a virtual address range, such as the user stack slots of
//! an address space.

use vstd::prelude::*;

verus! {

/// A virtual address.
pub type VirtualAddress = u64;

/// The slots `bottom + i * slab_size .. bottom + (i + 1) * slab_size` of a virtual address
/// range, each free or taken.
pub struct SlabAllocator {
    bottom: VirtualAddress,
    slab_size: u64,
    taken: Vec<bool>,
}

impl SlabAllocator {
    /// The address at which the first slot starts.
    pub closed spec fn bottom(&self) -> VirtualAddress {
        self.bottom
    }

    /// The size of a slot in bytes.
    pub closed spec fn slab_size(&self) -> u64 {
        self.slab_size
    }

    /// For each slot, whether it is taken.
    pub closed spec fn slots(&self) -> Seq<bool> {
        self.taken@
    }

    /// The slots have a positive size and all lie within the address space.
    pub closed spec fn wf(&self) -> bool {
        &&& self.slab_size > 0
        &&& self.bottom + self.taken@.len() * self.slab_size <= 0x1_0000_0000_0000_0000
    }

    /// An allocator of all the whole slots of `slab_size` bytes that fit in `bottom..=top`,
    /// all of them free.
    pub fn new(bottom: VirtualAddress, top: VirtualAddress, slab_size: u64) -> (allocator: SlabAllocator)
        requires
            bottom <= top < u64::MAX,
            slab_size > 0,
            (top - bottom + 1) / (slab_size as int) <= usize::MAX,
        ensures
            allocator.wf(),
            allocator.bottom() == bottom,
            allocator.slab_size() == slab_size,
            allocator.slots() == Seq::new(((top - bottom + 1) / (slab_size as int)) as nat, |i: int| false),
    {
        let count = ((top - bottom + 1) / slab_size) as usize;
        let mut taken: Vec<bool> = Vec::new();
        while taken.len() < count
            invariant
                taken.len() <= count,
                forall|i: int| 0 <= i < taken.len() ==> taken@[i] == false,
            decreases count - taken.len(),
        {
            taken.push(false);
        }
        proof {
            let n = (top - bottom + 1) as int;
            let s = slab_size as int;
            assert((n / s) * s <= n) by (nonlinear_arith)
                requires
                    n >= 0,
                    s > 0,
            ;
        }
        let allocator = SlabAllocator { bottom, slab_size, taken };
        assert(allocator.slots() =~= Seq::new(((top - bottom + 1) / (slab_size as int)) as nat, |i: int| false));
        allocator
    }

    /// Takes the lowest free slot and returns the address at which it starts, or `None`
    /// when every slot is taken.
    pub fn alloc_slot(&mut self) -> (slot: Option<VirtualAddress>)
        requires
            old(self).wf(),
        ensures
            final(self).wf(),
            final(self).bottom() == old(self).bottom(),
            final(self).slab_size() == old(self).slab_size(),
            match old(self).slots().index_of_first(false) {
                None => slot is None && final(self).slots() == old(self).slots(),
                Some(i) => slot == Some((old(self).bottom() + i * old(self).slab_size()) as u64)
                    && final(self).slots() == old(self).slots().update(i, true),
            },
    {
        let mut i: usize = 0;
        while i < self.taken.len()
            invariant
                i <= self.taken.len(),
                self.taken@ == old(self).taken@,
                self.bottom == old(self).bottom,
                self.slab_size == old(self).slab_size,
                self.wf(),
                forall|j: int| 0 <= j < i ==> self.taken@[j] == true,
            decreases self.taken.len() - i,
        {
            if !self.taken[i] {
                proof {
                    self.taken@.index_of_first_ensures(false);
                    let first = self.taken@.index_of_first(false);
                    assert(self.taken@.contains(false)) by {
                        assert(self.taken@[i as int] == false);
                    }
                    let k = first.unwrap();
                    if k < i {
                        assert(self.taken@[k] == true);
                    }
                    if k > i {
                        assert(self.taken@[i as int] != false);
                    }
                    assert(k == i);
                    let b = self.bottom as int;
                    let s = self.slab_size as int;
                    let len = self.taken@.len() as int;
                    assert(b + i * s + s <= b + len * s) by (nonlinear_arith)
                        requires
                            i < len,
                            s > 0,
                    ;
                }
                self.taken.set(i, true);
                return Some(self.bottom + i as u64 * self.slab_size);
            }
            i = i + 1;
        }
        proof {
            self.taken@.index_of_first_ensures(false);
            assert(!self.taken@.contains(false));
        }
        None
    }
}

} // verus!
