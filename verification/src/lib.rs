//! The verified core of the Pebble operating system: kernel object identifiers, the
//! system-call result encoding, physical frames, address spaces, the simple framebuffer
//! driver and the boot loader's decisions.

mod bits;
pub mod boot;
pub mod framebuffer;
pub mod memory;
pub mod object;
pub mod slab_allocator;
pub mod syscall;
