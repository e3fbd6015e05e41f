//! Ownership primitives for a memory-mapped ring interface: a descriptor
//! handle that releases its resource exactly once, a mapped region that is
//! unmapped exactly once, and the address arithmetic into such a region.
//!
//! The operating-system calls themselves are made by the code that holds
//! these values; every decision about them (whether a descriptor is valid,
//! whether a mapping succeeded, what must be released and when) is made and
//! proved here.

pub mod error;
pub mod fd;
pub mod mmap;
