//! Address spaces: the user-space memory of a set of tasks. The page tables themselves are
//! the platform's; an address space records what is mapped into it, hands out slots for
//! user stacks and tracks whether it is the active one.

use crate::memory::PhysicalAddress;
use crate::object::{alloc_kernel_object_id, KernelObject, KernelObjectId, KernelObjectIdCounter};
use crate::slab_allocator::{SlabAllocator, VirtualAddress};
use vstd::prelude::*;

verus! {

/// A mebibyte, in bytes.
pub const MEBIBYTES_TO_BYTES: u64 = 1024 * 1024;

/// The lowest address of the user stack slots.
pub const USER_STACK_BOTTOM: VirtualAddress = 0x0000_0002_0000_0000;

/// The highest address of the user stack slots.
pub const USER_STACK_TOP: VirtualAddress = 0x0000_0003_ffff_ffff;

/// The size of a user stack slot.
pub const USER_STACK_SLOT_SIZE: u64 = 2 * MEBIBYTES_TO_BYTES;

/// The number of user stack slots in an address space.
pub open spec fn user_stack_slot_count() -> nat {
    ((USER_STACK_TOP - USER_STACK_BOTTOM + 1) / (USER_STACK_SLOT_SIZE as int)) as nat
}

/// An address space has 4096 user stack slots.
pub proof fn lemma_user_stack_slot_count()
    ensures
        user_stack_slot_count() == 4096,
{
    assert(USER_STACK_SLOT_SIZE == 0x20_0000);
    assert(USER_STACK_TOP - USER_STACK_BOTTOM + 1 == 0x2_0000_0000);
    assert(0x2_0000_0000int / 0x20_0000int == 4096);
}

/// Whether an address space is the one the processor is running in.
#[derive(PartialEq, Eq, Debug, Structural)]
pub enum State {
    NotActive,
    Active,
}

/// The access rights of a mapping.
#[derive(Clone, Copy, PartialEq, Eq, Debug, Structural)]
pub struct Flags {
    pub writable: bool,
    pub executable: bool,
    pub user_accessible: bool,
    pub cached: bool,
}

/// A region of physical memory to be mapped at a virtual address.
#[derive(Clone, Copy, PartialEq, Eq, Debug, Structural)]
pub struct MemoryObject {
    pub virtual_address: VirtualAddress,
    pub physical_address: PhysicalAddress,
    pub size: usize,
    pub flags: Flags,
}

/// Why a page table refused to map an area.
#[derive(Clone, Copy, PartialEq, Eq, Debug, Structural)]
pub enum PagingError {
    /// Part of the area is mapped already.
    AlreadyMapped,
}

/// Why a memory object could not be mapped into an address space.
#[derive(Clone, Copy, PartialEq, Eq, Debug, Structural)]
pub enum MemoryObjectError {
    /// The virtual range that the memory object asks for is not free.
    AddressRangeNotFree,
}

/// Where a task's user stack lies: its slot starts at `slot_bottom`, the stack grows down
/// from `top` (the slot's last byte), and its mapped part starts at `stack_bottom`.
#[derive(Clone, Copy, PartialEq, Eq, Debug, Structural)]
pub struct TaskStack {
    pub top: VirtualAddress,
    pub slot_bottom: VirtualAddress,
    pub stack_bottom: VirtualAddress,
}

/// The stack laid out in the user stack slot that starts at `slot_bottom`, with
/// `initial_size` bytes mapped below its top.
pub open spec fn user_stack(slot_bottom: int, initial_size: int) -> TaskStack {
    TaskStack {
        top: (slot_bottom + USER_STACK_SLOT_SIZE - 1) as u64,
        slot_bottom: slot_bottom as u64,
        stack_bottom: (slot_bottom + USER_STACK_SLOT_SIZE - initial_size) as u64,
    }
}

/// The stack laid out in a slot ends at the slot's last byte and holds exactly
/// `initial_size` bytes from its bottom up to and including its top.
pub proof fn lemma_user_stack_layout(slot_bottom: int, initial_size: int)
    requires
        0 <= slot_bottom,
        slot_bottom + USER_STACK_SLOT_SIZE <= u64::MAX,
        0 <= initial_size <= USER_STACK_SLOT_SIZE,
    ensures
        user_stack(slot_bottom, initial_size).slot_bottom == slot_bottom,
        user_stack(slot_bottom, initial_size).top == slot_bottom + USER_STACK_SLOT_SIZE - 1,
        user_stack(slot_bottom, initial_size).top - user_stack(slot_bottom, initial_size).stack_bottom
            + 1 == initial_size,
{
}

/// An address space.
pub struct AddressSpace {
    pub id: KernelObjectId,
    pub owner: KernelObjectId,
    pub state: State,
    pub memory_objects: Vec<MemoryObject>,
    pub user_stack_allocator: SlabAllocator,
}

impl AddressSpace {
    /// The user stack slot allocator covers the user stack range in slots of the user stack
    /// slot size.
    pub closed spec fn wf(&self) -> bool {
        &&& self.user_stack_allocator.wf()
        &&& self.user_stack_allocator.bottom() == USER_STACK_BOTTOM
        &&& self.user_stack_allocator.slab_size() == USER_STACK_SLOT_SIZE
        &&& self.user_stack_allocator.slots().len() == user_stack_slot_count()
    }

    /// For each user stack slot, whether it is taken.
    pub closed spec fn user_stack_slots(&self) -> Seq<bool> {
        self.user_stack_allocator.slots()
    }

    /// A well-formed address space has one entry per user stack slot, 4096 in all.
    pub proof fn lemma_wf_slot_count(&self)
        requires
            self.wf(),
        ensures
            self.user_stack_slots().len() == user_stack_slot_count(),
            user_stack_slot_count() == 4096,
    {
        lemma_user_stack_slot_count();
    }

    /// A new, inactive address space with nothing mapped and every user stack slot free,
    /// owned by `owner`, under the next ID of `ids`.
    pub fn new(owner: KernelObjectId, ids: &mut KernelObjectIdCounter) -> (address_space: AddressSpace)
        ensures
            address_space.wf(),
            address_space.id == KernelObjectId(old(ids).next_id()),
            final(ids).next_id() == crate::object::counter_after(old(ids).next_id(), 1),
            address_space.owner == owner,
            address_space.state == State::NotActive,
            address_space.memory_objects@ == Seq::<MemoryObject>::empty(),
            address_space.user_stack_slots() == Seq::new(user_stack_slot_count(), |i: int| false),
    {
        let id = alloc_kernel_object_id(ids);
        let user_stack_allocator = SlabAllocator::new(
            USER_STACK_BOTTOM,
            USER_STACK_TOP,
            USER_STACK_SLOT_SIZE,
        );
        AddressSpace {
            id,
            owner,
            state: State::NotActive,
            memory_objects: Vec::new(),
            user_stack_allocator,
        }
    }

    /// Records `memory_object` as mapped into this address space, given `mapped`, the page
    /// table's answer to the request to map its area. An area that is mapped already is
    /// reported as a virtual range that is not free, and nothing is recorded.
    pub fn map_memory_object(
        &mut self,
        memory_object: MemoryObject,
        mapped: Result<(), PagingError>,
    ) -> (result: Result<(), MemoryObjectError>)
        ensures
            final(self).wf() == old(self).wf(),
            final(self).id == old(self).id,
            final(self).owner == old(self).owner,
            final(self).state == old(self).state,
            final(self).user_stack_allocator == old(self).user_stack_allocator,
            match mapped {
                Ok(()) => result is Ok && final(self).memory_objects@ == old(
                    self,
                ).memory_objects@.push(memory_object),
                Err(PagingError::AlreadyMapped) => result == Err::<(), MemoryObjectError>(
                    MemoryObjectError::AddressRangeNotFree,
                ) && final(self).memory_objects@ == old(self).memory_objects@,
            },
    {
        match mapped {
            Ok(()) => {},
            Err(PagingError::AlreadyMapped) => {
                return Err(MemoryObjectError::AddressRangeNotFree);
            },
        }
        self.memory_objects.push(memory_object);
        Ok(())
    }

    /// Takes the lowest free user stack slot and lays out a stack in it with `initial_size`
    /// bytes mapped below its top. Returns `None` if no more user stacks can be allocated in
    /// this address space. The stack must fit in its slot.
    pub fn alloc_user_stack(&mut self, initial_size: usize) -> (stack: Option<TaskStack>)
        requires
            old(self).wf(),
            initial_size <= USER_STACK_SLOT_SIZE,
        ensures
            final(self).wf(),
            final(self).id == old(self).id,
            final(self).owner == old(self).owner,
            final(self).state == old(self).state,
            final(self).memory_objects == old(self).memory_objects,
            match old(self).user_stack_slots().index_of_first(false) {
                None => stack is None && final(self).user_stack_slots() == old(
                    self,
                ).user_stack_slots(),
                Some(i) => stack == Some(
                    user_stack(USER_STACK_BOTTOM + i * USER_STACK_SLOT_SIZE, initial_size as int),
                ) && final(self).user_stack_slots() == old(self).user_stack_slots().update(i, true),
            },
            stack matches Some(s) ==> {
                &&& s.top == s.slot_bottom + USER_STACK_SLOT_SIZE - 1
                &&& s.top - s.stack_bottom + 1 == initial_size
                &&& USER_STACK_BOTTOM <= s.slot_bottom
                &&& s.top <= USER_STACK_TOP
                &&& (s.slot_bottom - USER_STACK_BOTTOM) % (USER_STACK_SLOT_SIZE as int) == 0
            },
    {
        proof {
            self.user_stack_allocator.slots().index_of_first_ensures(false);
        }
        let slot_bottom = match self.user_stack_allocator.alloc_slot() {
            Some(slot_bottom) => slot_bottom,
            None => {
                return None;
            },
        };
        proof {
            let i = old(self).user_stack_slots().index_of_first(false).unwrap();
            assert(i < user_stack_slot_count());
            lemma_user_stack_slot_count();
            assert(slot_bottom + USER_STACK_SLOT_SIZE <= USER_STACK_TOP + 1) by (nonlinear_arith)
                requires
                    slot_bottom == USER_STACK_BOTTOM + i * USER_STACK_SLOT_SIZE,
                    0 <= i < 4096,
            ;
        }
        let top = slot_bottom + USER_STACK_SLOT_SIZE - 1;
        let stack_bottom = top - initial_size as u64 + 1;
        Some(TaskStack { top, slot_bottom, stack_bottom })
    }

    /// Makes this, an inactive address space, the active one. Switching to an address space
    /// that is active already is a bug, on which the kernel panics: the `requires` keeps it
    /// out.
    pub fn switch_to(&mut self)
        requires
            old(self).state == State::NotActive,
        ensures
            final(self).state == State::Active,
            final(self).wf() == old(self).wf(),
            final(self).id == old(self).id,
            final(self).owner == old(self).owner,
            final(self).memory_objects == old(self).memory_objects,
            final(self).user_stack_allocator == old(self).user_stack_allocator,
    {
        self.state = State::Active;
    }

    /// Marks this, the active address space, as no longer active. Switching from an address
    /// space that is not active is a bug, on which the kernel panics: the `requires` keeps it
    /// out.
    pub fn switch_from(&mut self)
        requires
            old(self).state == State::Active,
        ensures
            final(self).state == State::NotActive,
            final(self).wf() == old(self).wf(),
            final(self).id == old(self).id,
            final(self).owner == old(self).owner,
            final(self).memory_objects == old(self).memory_objects,
            final(self).user_stack_allocator == old(self).user_stack_allocator,
    {
        self.state = State::NotActive;
    }
}

/// User stacks never overlap: the slot that the next allocation takes differs from every
/// slot that is taken, and the stack laid out in it shares no address with the stack of any
/// taken slot.
pub proof fn lemma_user_stacks_disjoint(slots: Seq<bool>, taken: int, size: int, other_size: int)
    requires
        slots.len() == user_stack_slot_count(),
        0 <= taken < slots.len(),
        slots[taken],
        slots.index_of_first(false) is Some,
        0 <= size <= USER_STACK_SLOT_SIZE,
        0 <= other_size <= USER_STACK_SLOT_SIZE,
    ensures
        ({
            let next = slots.index_of_first(false).unwrap();
            let stack = user_stack(USER_STACK_BOTTOM + next * USER_STACK_SLOT_SIZE, size);
            let other = user_stack(USER_STACK_BOTTOM + taken * USER_STACK_SLOT_SIZE, other_size);
            &&& next != taken
            &&& stack.top < other.slot_bottom || other.top < stack.slot_bottom
            &&& USER_STACK_BOTTOM <= stack.slot_bottom <= stack.stack_bottom <= stack.top + 1
            &&& stack.top <= USER_STACK_TOP
            &&& USER_STACK_BOTTOM <= other.slot_bottom <= other.stack_bottom <= other.top + 1
            &&& other.top <= USER_STACK_TOP
        }),
{
    slots.index_of_first_ensures(false);
    let next = slots.index_of_first(false).unwrap();
    assert(next != taken);
    lemma_user_stack_slot_count();
    assert(next * USER_STACK_SLOT_SIZE <= 4095 * USER_STACK_SLOT_SIZE) by (nonlinear_arith)
        requires
            0 <= next < 4096,
    ;
    assert(taken * USER_STACK_SLOT_SIZE <= 4095 * USER_STACK_SLOT_SIZE) by (nonlinear_arith)
        requires
            0 <= taken < 4096,
    ;
    if next < taken {
        assert(next * USER_STACK_SLOT_SIZE + USER_STACK_SLOT_SIZE <= taken * USER_STACK_SLOT_SIZE)
            by (nonlinear_arith)
            requires
                next < taken,
        ;
    } else {
        assert(taken * USER_STACK_SLOT_SIZE + USER_STACK_SLOT_SIZE <= next * USER_STACK_SLOT_SIZE)
            by (nonlinear_arith)
            requires
                taken < next,
        ;
    }
}

/// Successive user stacks of an address space are disjoint and lie in the user stack range:
/// when one allocation takes the lowest free slot and the next allocation, on the slots
/// that the first left, takes the lowest free slot again, the two stacks share no address
/// and both lie within `USER_STACK_BOTTOM..=USER_STACK_TOP`.
pub proof fn lemma_successive_user_stacks_disjoint(
    address_space: AddressSpace,
    first_size: int,
    second_size: int,
)
    requires
        address_space.wf(),
        address_space.user_stack_slots().index_of_first(false) is Some,
        address_space.user_stack_slots().update(
            address_space.user_stack_slots().index_of_first(false).unwrap(),
            true,
        ).index_of_first(false) is Some,
        0 <= first_size <= USER_STACK_SLOT_SIZE,
        0 <= second_size <= USER_STACK_SLOT_SIZE,
    ensures
        ({
            let slots = address_space.user_stack_slots();
            let first_slot = slots.index_of_first(false).unwrap();
            let second_slot = slots.update(first_slot, true).index_of_first(false).unwrap();
            let first = user_stack(USER_STACK_BOTTOM + first_slot * USER_STACK_SLOT_SIZE, first_size);
            let second = user_stack(USER_STACK_BOTTOM + second_slot * USER_STACK_SLOT_SIZE, second_size);
            &&& first.top < second.slot_bottom || second.top < first.slot_bottom
            &&& USER_STACK_BOTTOM <= first.slot_bottom && first.top <= USER_STACK_TOP
            &&& USER_STACK_BOTTOM <= second.slot_bottom && second.top <= USER_STACK_TOP
        }),
{
    let slots = address_space.user_stack_slots();
    address_space.lemma_wf_slot_count();
    slots.index_of_first_ensures(false);
    let first_slot = slots.index_of_first(false).unwrap();
    lemma_user_stacks_disjoint(slots.update(first_slot, true), first_slot, second_size, first_size);
}

impl KernelObject for AddressSpace {
    fn id(&self) -> (id: KernelObjectId)
        ensures
            id == self.id,
    {
        self.id
    }
}

} // verus!
