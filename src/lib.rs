//! Best-effort memory allocator facade.
//!
//! The facade routes every allocation to one backend engine, chosen from the
//! build target: the thread-caching engine on 64-bit Linux (x86-64 and ARM64),
//! a portable engine everywhere else and in builds without the standard
//! library. The choice of engine and of the
//! maintenance hook is stated and proved in [`target`]; the facade type and its
//! lifecycle entry point live in [`facade`].

pub mod facade;
pub mod target;

pub use facade::{init_impl, BEMalloc};
pub use target::{Backend, TargetArch, TargetOs};
