# pebble

The verified core of the Pebble operating system, written in Verus.

- `src/syscall`: how system calls report their outcome in one register (status numbers,
  kernel object identifiers in the low half, error statuses in the high half), with the
  round-trip laws of the encoding.
- `src/object`: kernel object IDs and address spaces (mapped memory objects, user stack
  slots, the active state).
- `src/slab_allocator.rs`: equal-sized slots of a virtual range, lowest free first.
- `src/memory.rs`: physical frames.
- `src/framebuffer.rs`: the simple framebuffer driver's drawing, with the laws of which
  pixels a rectangle paints.
- `src/boot.rs`: finding the boot volume by its label, sizing the backup framebuffer,
  enabling `xsave`.
- `app/`: the platform side (locks, page tables, UEFI boot services, control registers,
  video memory), which hands plain values to the library.
