//! Access-control core of a small microkernel, with the memory and
//! system-call checks around it.
//!
//! `capability` and `cspace` hold the object-capability model: rights that
//! can only shrink, capabilities that only the kernel mints, and a fixed
//! table of slots per process. The other modules describe addresses, page
//! tables, the frame bitmap, system-call decoding, the console byte stream
//! and the clearing of secrets.
use vstd::prelude::*;

pub mod address;
pub mod capability;
pub mod cspace;
pub mod exception;
pub mod frame;
pub mod mapper;
pub mod memory;
pub mod paging;
pub mod syscall;
pub mod uart;
pub mod zeroize;
