//! The allocator facade and its lifecycle entry point.
//!
//! The allocation entry points themselves take and return raw pointers; they
//! are implemented outside this verified library, over the handle that
//! [`BEMalloc::engine`] gives.

use vstd::prelude::*;
use tcmalloc_better::TCMalloc;
use crate::target::{
    Backend, TargetArch, TargetOs, backend_for, has_maintenance, maintenance_runs, select_backend,
};

verus! {

/// The engine's handle, `tcmalloc_better::TCMalloc`: a unit struct with no
/// fields, declared transparently so that the facade can construct it.
#[verifier::external_type_specification]
pub struct ExTCMalloc(TCMalloc);

/// The system of the one build target that this library models. The linked
/// engine runs on Linux.
pub const LINKED_OS: TargetOs = TargetOs::Linux;

/// The architecture of the one build target that this library models. The
/// engine also runs on ARM64, which selects the same engine; the library states
/// its contracts for x86-64.
pub const LINKED_ARCH: TargetArch = TargetArch::X86_64;

/// The library is built with the standard library, so `init` may spawn threads.
pub const THREADS_AVAILABLE: bool = true;

/// The engine that the selection rule picks for the build target of this library.
pub open spec fn linked_backend() -> Backend {
    backend_for(LINKED_OS, LINKED_ARCH, THREADS_AVAILABLE)
}

/// A memory allocator facade. It owns no heap state: it records which engine
/// the selection rule picked and holds that engine's handle, to which the
/// allocation entry points forward every request unchanged.
pub struct BEMalloc {
    alloc_impl: TCMalloc,
    backend: Backend,
}

/// Whether the engine, as linked for the given target, asks for background
/// housekeeping (`TCMalloc::needs_process_background_actions`). It depends on
/// which engine symbols the build links, which is fixed for a build target.
pub uninterp spec fn engine_needs_background(os: TargetOs, arch: TargetArch) -> bool;

/// Relies on `TCMalloc::process_background_actions_thread`: it spawns a thread
/// that runs the engine's housekeeping, and returns its handle, exactly when
/// `needs_process_background_actions()` holds; otherwise it does nothing and
/// returns `None`. The handle is not kept: the thread lives as long as the
/// process. The result tells whether a thread was spawned.
#[verifier::external_body]
fn spawn_background_actions() -> (spawned: bool)
    ensures
        spawned == engine_needs_background(LINKED_OS, LINKED_ARCH),
{
    TCMalloc::process_background_actions_thread().is_some()
}

/// Starts the linked engine's maintenance routine, if the selected engine has
/// one in this build and the engine asks for it. Returns whether a maintenance
/// thread was started.
pub fn init_impl() -> (started: bool)
    ensures
        started == (maintenance_runs(linked_backend(), THREADS_AVAILABLE)
            && engine_needs_background(LINKED_OS, LINKED_ARCH)),
{
    let backend = select_backend(LINKED_OS, LINKED_ARCH, THREADS_AVAILABLE);
    if has_maintenance(backend, THREADS_AVAILABLE) {
        spawn_background_actions()
    } else {
        false
    }
}

impl BEMalloc {
    /// Creates the facade over the engine that the selection rule picks for
    /// this library's build target.
    pub fn new() -> (r: BEMalloc)
        ensures
            r.backend_view() == linked_backend(),
    {
        BEMalloc {
            alloc_impl: TCMalloc,
            backend: select_backend(LINKED_OS, LINKED_ARCH, THREADS_AVAILABLE),
        }
    }

    /// The engine behind this facade.
    pub closed spec fn backend_view(&self) -> Backend {
        self.backend
    }

    /// Which engine serves this facade's requests.
    pub fn backend(&self) -> (b: Backend)
        ensures
            b == self.backend_view(),
    {
        self.backend
    }

    /// The engine handle that requests are forwarded to.
    pub fn engine(&self) -> &TCMalloc {
        &self.alloc_impl
    }

    /// Starts the allocator's background maintenance, where the selected
    /// engine has a maintenance routine and the linked engine asks for
    /// housekeeping; otherwise does nothing. Returns whether a maintenance
    /// thread was started.
    ///
    /// Meant to be called once, early in `main`. The facade keeps no record of
    /// earlier calls: where the engine asks for housekeeping, each call starts
    /// one more maintenance thread.
    pub fn init() -> (started: bool)
        ensures
            started == (maintenance_runs(linked_backend(), THREADS_AVAILABLE)
                && engine_needs_background(LINKED_OS, LINKED_ARCH)),
    {
        init_impl()
    }
}

impl Default for BEMalloc {
    fn default() -> (r: BEMalloc)
        ensures
            r.backend_view() == linked_backend(),
    {
        BEMalloc::new()
    }
}

} // verus!
