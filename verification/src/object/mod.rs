//! Kernel objects and their identifiers.

pub mod address_space;

use vstd::prelude::*;

verus! {

/// Each kernel object is assigned a 64-bit ID. IDs come from a counter that starts at `1`;
/// until the counter wraps around after `2^64 - 1` allocations, no ID is handed out twice
/// and the sentinel `0` is never handed out.
#[derive(Clone, Copy, PartialEq, Eq, PartialOrd, Ord, Hash, Debug, Structural)]
pub struct KernelObjectId(pub u64);

/// A kernel object ID of `0` is reserved as a sentinel value that will never point to a real
/// kernel object. It is used to mark things like the `owner` of a kernel object being the
/// kernel itself.
pub fn sentinel_kernel_id() -> (id: KernelObjectId)
    ensures
        id == KernelObjectId(0),
{
    KernelObjectId(0)
}

/// The source of kernel object IDs: the next ID it hands out. It starts at `1` and is
/// advanced by one, wrapping, on each allocation.
pub struct KernelObjectIdCounter {
    next: u64,
}

impl KernelObjectIdCounter {
    /// The ID that the next allocation hands out.
    pub closed spec fn next_id(&self) -> u64 {
        self.next
    }

    /// A counter that has handed out nothing yet: its first ID is `1`.
    pub fn new() -> (counter: KernelObjectIdCounter)
        ensures
            counter.next_id() == 1,
    {
        KernelObjectIdCounter { next: 1 }
    }
}

/// The counter's value after `n` allocations from `start`, wrapping at `2^64`.
pub open spec fn counter_after(start: u64, n: nat) -> u64 {
    ((start + n) % 0x1_0000_0000_0000_0000) as u64
}

/// Hands out the counter's current ID and advances it by one, wrapping as an atomic
/// fetch-and-add does.
pub fn alloc_kernel_object_id(counter: &mut KernelObjectIdCounter) -> (id: KernelObjectId)
    ensures
        id == KernelObjectId(old(counter).next_id()),
        final(counter).next_id() == counter_after(old(counter).next_id(), 1),
{
    let id = counter.next;
    counter.next = id.wrapping_add(1);
    KernelObjectId(id)
}

/// Allocating `n` IDs and then one more leaves the counter where `n + 1` allocations do.
pub proof fn lemma_counter_after_step(start: u64, n: nat)
    ensures
        counter_after(counter_after(start, n), 1) == counter_after(start, n + 1),
{
    let m: int = 0x1_0000_0000_0000_0000;
    let a = (start + n) % m;
    assert((a + 1) % m == (start + n + 1) % m) by {
        vstd::arithmetic::div_mod::lemma_add_mod_noop(start + n, 1, m);
        vstd::arithmetic::div_mod::lemma_small_mod(1, m as nat);
    }
}

/// IDs are never reused and the sentinel is never handed out: of the IDs handed out by a
/// counter that has not wrapped around, the `i`-th and the `j`-th differ, and neither is
/// `0`.
pub proof fn lemma_ids_unique(start: u64, i: nat, j: nat)
    requires
        1 <= start,
        i < j,
        start + j <= u64::MAX,
    ensures
        counter_after(start, i) != counter_after(start, j),
        counter_after(start, i) != 0,
        counter_after(start, j) != 0,
{
}

/// Implemented by all kernel objects, so that common code can be generic over them.
pub trait KernelObject {
    /// The object's ID.
    fn id(&self) -> KernelObjectId;
}

} // verus!
