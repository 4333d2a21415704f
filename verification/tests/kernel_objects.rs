use pebble::memory::{frames_needed, Frame, PAGE_SIZE};
use pebble::object::address_space::{
    AddressSpace, Flags, MemoryObject, MemoryObjectError, PagingError, State, TaskStack,
    USER_STACK_BOTTOM, USER_STACK_SLOT_SIZE,
};
use pebble::object::{alloc_kernel_object_id, sentinel_kernel_id, KernelObject, KernelObjectId, KernelObjectIdCounter};
use pebble::slab_allocator::SlabAllocator;

fn memory_object(virtual_address: u64) -> MemoryObject {
    MemoryObject {
        virtual_address,
        physical_address: 0x10_0000,
        size: 0x3000,
        flags: Flags { writable: true, executable: false, user_accessible: true, cached: true },
    }
}

#[test]
fn ids_start_at_one_and_increase() {
    let mut counter = KernelObjectIdCounter::new();
    let first = alloc_kernel_object_id(&mut counter);
    let second = alloc_kernel_object_id(&mut counter);
    let third = alloc_kernel_object_id(&mut counter);
    assert_eq!(first, KernelObjectId(1));
    assert_eq!(second, KernelObjectId(2));
    assert_eq!(third, KernelObjectId(3));
    assert_ne!(first, sentinel_kernel_id());
    assert_eq!(sentinel_kernel_id(), KernelObjectId(0));
}

#[test]
fn containing_frame_and_start_address() {
    assert_eq!(Frame::get_containing_frame(0), Frame { number: 0 });
    assert_eq!(Frame::get_containing_frame(4095), Frame { number: 0 });
    assert_eq!(Frame::get_containing_frame(4097), Frame { number: 1 });
    assert_eq!(Frame { number: 3 }.get_start_address(), 3 * PAGE_SIZE);
    let frame = Frame::get_containing_frame(0x12_3456);
    assert!(frame.get_start_address() <= 0x12_3456);
    assert!(0x12_3456 < frame.get_start_address() + PAGE_SIZE);
    assert_eq!(Frame::get_containing_frame(Frame { number: 77 }.get_start_address()), Frame { number: 77 });
}

#[test]
fn frames_needed_rounds_up() {
    assert_eq!(frames_needed(0), 0);
    assert_eq!(frames_needed(1), 1);
    assert_eq!(frames_needed(4096), 1);
    assert_eq!(frames_needed(4097), 2);
    assert_eq!(frames_needed(3 * 4096 + 5), 4);
}

#[test]
fn new_address_space() {
    let mut ids = KernelObjectIdCounter::new();
    let owner = alloc_kernel_object_id(&mut ids);
    let address_space = AddressSpace::new(owner, &mut ids);
    assert_eq!(address_space.id, KernelObjectId(2));
    assert_eq!(address_space.id(), KernelObjectId(2));
    assert_eq!(address_space.owner, owner);
    assert_eq!(address_space.state, State::NotActive);
    assert!(address_space.memory_objects.is_empty());
    assert_eq!(alloc_kernel_object_id(&mut ids), KernelObjectId(3));
}

#[test]
fn mapping_records_memory_objects() {
    let mut ids = KernelObjectIdCounter::new();
    let mut address_space = AddressSpace::new(KernelObjectId(0), &mut ids);
    assert_eq!(address_space.map_memory_object(memory_object(0x1000_0000), Ok(())), Ok(()));
    assert_eq!(address_space.memory_objects, vec![memory_object(0x1000_0000)]);
    assert_eq!(
        address_space.map_memory_object(memory_object(0x1000_1000), Err(PagingError::AlreadyMapped)),
        Err(MemoryObjectError::AddressRangeNotFree)
    );
    assert_eq!(address_space.memory_objects, vec![memory_object(0x1000_0000)]);
}

#[test]
fn user_stacks_take_successive_slots() {
    let mut ids = KernelObjectIdCounter::new();
    let mut address_space = AddressSpace::new(KernelObjectId(0), &mut ids);
    let first = address_space.alloc_user_stack(0x4000).unwrap();
    assert_eq!(
        first,
        TaskStack { top: 0x2_001f_ffff, slot_bottom: 0x2_0000_0000, stack_bottom: 0x2_001f_c000 }
    );
    let second = address_space.alloc_user_stack(USER_STACK_SLOT_SIZE as usize).unwrap();
    assert_eq!(
        second,
        TaskStack { top: 0x2_003f_ffff, slot_bottom: 0x2_0020_0000, stack_bottom: 0x2_0020_0000 }
    );
    assert!(first.top < second.slot_bottom);
    let empty = address_space.alloc_user_stack(0).unwrap();
    assert_eq!(empty.stack_bottom, empty.top + 1);
}

#[test]
fn user_stacks_run_out() {
    let mut ids = KernelObjectIdCounter::new();
    let mut address_space = AddressSpace::new(KernelObjectId(0), &mut ids);
    let mut last = None;
    for _ in 0..4096 {
        last = address_space.alloc_user_stack(0x1000);
        assert!(last.is_some());
    }
    assert_eq!(last.unwrap().top, 0x3_ffff_ffff);
    assert_eq!(address_space.alloc_user_stack(0x1000), None);
}

#[test]
fn switching_alternates_state() {
    let mut ids = KernelObjectIdCounter::new();
    let mut address_space = AddressSpace::new(KernelObjectId(0), &mut ids);
    address_space.switch_to();
    assert_eq!(address_space.state, State::Active);
    address_space.switch_from();
    assert_eq!(address_space.state, State::NotActive);
    address_space.switch_to();
    assert_eq!(address_space.state, State::Active);
}

#[test]
fn slab_allocator_hands_out_lowest_free_slot() {
    let mut slabs = SlabAllocator::new(0x1000, 0x4fff, 0x1000);
    assert_eq!(slabs.alloc_slot(), Some(0x1000));
    assert_eq!(slabs.alloc_slot(), Some(0x2000));
    assert_eq!(slabs.alloc_slot(), Some(0x3000));
    assert_eq!(slabs.alloc_slot(), Some(0x4000));
    assert_eq!(slabs.alloc_slot(), None);
    let mut partial = SlabAllocator::new(USER_STACK_BOTTOM, USER_STACK_BOTTOM + 0x2fff, 0x2000);
    assert_eq!(partial.alloc_slot(), Some(USER_STACK_BOTTOM));
    assert_eq!(partial.alloc_slot(), None);
}

#[test]
fn mapping_and_switching_keep_stacks_allocatable() {
    let mut ids = KernelObjectIdCounter::new();
    let mut address_space = AddressSpace::new(KernelObjectId(0), &mut ids);
    assert_eq!(address_space.map_memory_object(memory_object(0x1000_0000), Ok(())), Ok(()));
    address_space.switch_to();
    let first = address_space.alloc_user_stack(0x1000).unwrap();
    address_space.switch_from();
    let second = address_space.alloc_user_stack(0x8000).unwrap();
    assert!(first.top < second.slot_bottom);
    assert!(USER_STACK_BOTTOM <= first.slot_bottom);
    assert!(second.top <= pebble::object::address_space::USER_STACK_TOP);
}
