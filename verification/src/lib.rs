//! The Linux system-call layer of an APE process: path resolution inside a
//! root directory, the per-process state, and the system calls answered from
//! that state.
use vstd::prelude::*;

pub mod abi;
pub mod call_laws;
pub mod compat;
pub mod fd;
pub mod laws;
pub mod layout_laws;
pub mod memory;
pub mod misc;
pub mod path;
pub mod path_laws;
pub mod process;
pub mod records;
pub mod runtime;
pub mod service;
pub mod signal;
pub mod state;
pub mod syscall;
pub mod text;
pub mod user_mem;

verus! {

} // verus!
