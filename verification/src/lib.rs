//! Boundary layer for a pre-operating-system boot-stage program: block- and
//! byte-granular disk access, binary device-path records, and wide-string
//! marshaling, all sitting between a caller's logical requests and a
//! firmware's pointer-and-length call surface.
//!
//! The firmware itself (allocator, block device, path services, console) is
//! reached through traits whose contracts state what every implementation
//! must guarantee; the buffer-lifecycle and encoding logic of this crate is
//! verified against those contracts alone.

pub mod base;
pub mod bootservices;
pub mod console;
pub mod protocol;
pub mod util;
