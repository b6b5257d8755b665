//! Backend selection: a total map from the build target to one engine.

use vstd::prelude::*;

verus! {

/// Operating system of a build target.
#[derive(Clone, Copy, Debug, PartialEq, Eq, Structural)]
pub enum TargetOs {
    Linux,
    Windows,
    MacOs,
    FreeBsd,
    NetBsd,
    OpenBsd,
    Android,
    /// Any other system, including targets without an operating system.
    Other,
}

/// Processor architecture of a build target.
#[derive(Clone, Copy, Debug, PartialEq, Eq, Structural)]
pub enum TargetArch {
    X86_64,
    Aarch64,
    X86,
    Arm,
    Riscv64,
    Wasm32,
    /// Any other architecture.
    Other,
}

/// The allocation engine compiled into a build.
#[derive(Clone, Copy, Debug, PartialEq, Eq, Structural)]
pub enum Backend {
    /// The high-throughput, thread-caching engine.
    Primary,
    /// The portable general-purpose engine.
    Fallback,
}

/// The primary engine supports exactly 64-bit Linux on x86-64 and ARM64.
pub open spec fn primary_supports(os: TargetOs, arch: TargetArch) -> bool {
    os == TargetOs::Linux && (arch == TargetArch::X86_64 || arch == TargetArch::Aarch64)
}

/// The engine that a build for `(os, arch)` uses; `std_available` tells whether
/// the build has the standard library. Builds without it use the portable engine.
pub open spec fn backend_for(os: TargetOs, arch: TargetArch, std_available: bool) -> Backend {
    if primary_supports(os, arch) && std_available {
        Backend::Primary
    } else {
        Backend::Fallback
    }
}

/// Whether a build starts a background maintenance routine on `init`: only the
/// primary engine has one, and only where threads can be spawned.
pub open spec fn maintenance_runs(backend: Backend, threads_available: bool) -> bool {
    backend == Backend::Primary && threads_available
}

/// Picks the engine for a build target.
pub fn select_backend(os: TargetOs, arch: TargetArch, std_available: bool) -> (b: Backend)
    ensures
        b == backend_for(os, arch, std_available),
        b == Backend::Primary <==> (primary_supports(os, arch) && std_available),
{
    if !std_available {
        return Backend::Fallback;
    }
    match (os, arch) {
        (TargetOs::Linux, TargetArch::X86_64) => Backend::Primary,
        (TargetOs::Linux, TargetArch::Aarch64) => Backend::Primary,
        _ => Backend::Fallback,
    }
}

/// Whether `init` starts a maintenance routine, for the given engine and for
/// whether the environment can spawn threads.
pub fn has_maintenance(backend: Backend, threads_available: bool) -> (r: bool)
    ensures
        r == maintenance_runs(backend, threads_available),
{
    match backend {
        Backend::Primary => threads_available,
        Backend::Fallback => false,
    }
}

/// The system that a target identifier names (`"linux"`, `"macos"`, ...).
pub open spec fn os_named(name: Seq<char>) -> TargetOs {
    if name == "linux"@ {
        TargetOs::Linux
    } else if name == "windows"@ {
        TargetOs::Windows
    } else if name == "macos"@ {
        TargetOs::MacOs
    } else if name == "freebsd"@ {
        TargetOs::FreeBsd
    } else if name == "netbsd"@ {
        TargetOs::NetBsd
    } else if name == "openbsd"@ {
        TargetOs::OpenBsd
    } else if name == "android"@ {
        TargetOs::Android
    } else {
        TargetOs::Other
    }
}

/// The architecture that a target identifier names (`"x86_64"`, `"aarch64"`, ...).
pub open spec fn arch_named(name: Seq<char>) -> TargetArch {
    if name == "x86_64"@ {
        TargetArch::X86_64
    } else if name == "aarch64"@ {
        TargetArch::Aarch64
    } else if name == "x86"@ {
        TargetArch::X86
    } else if name == "arm"@ {
        TargetArch::Arm
    } else if name == "riscv64"@ {
        TargetArch::Riscv64
    } else if name == "wasm32"@ {
        TargetArch::Wasm32
    } else {
        TargetArch::Other
    }
}

/// Whether two strings hold the same characters.
fn same_text(a: &str, b: &str) -> (r: bool)
    ensures
        r == (a@ == b@),
{
    let n: usize = a.unicode_len();
    if n != b.unicode_len() {
        return false;
    }
    let mut i: usize = 0;
    while i < n
        invariant
            n == a@.len(),
            n == b@.len(),
            i <= n,
            a@.subrange(0, i as int) == b@.subrange(0, i as int),
        decreases n - i,
    {
        if a.get_char(i) != b.get_char(i) {
            return false;
        }
        assert(a@.subrange(0, i + 1) == a@.subrange(0, i as int).push(a@[i as int]));
        assert(b@.subrange(0, i + 1) == b@.subrange(0, i as int).push(b@[i as int]));
        i = i + 1;
    }
    assert(a@ == a@.subrange(0, n as int));
    assert(b@ == b@.subrange(0, n as int));
    true
}

impl TargetOs {
    /// Reads a target identifier; unknown names map to `Other`.
    pub fn from_name(name: &str) -> (r: TargetOs)
        ensures
            r == os_named(name@),
    {
        if same_text(name, "linux") {
            TargetOs::Linux
        } else if same_text(name, "windows") {
            TargetOs::Windows
        } else if same_text(name, "macos") {
            TargetOs::MacOs
        } else if same_text(name, "freebsd") {
            TargetOs::FreeBsd
        } else if same_text(name, "netbsd") {
            TargetOs::NetBsd
        } else if same_text(name, "openbsd") {
            TargetOs::OpenBsd
        } else if same_text(name, "android") {
            TargetOs::Android
        } else {
            TargetOs::Other
        }
    }
}

impl TargetArch {
    /// Reads a target identifier; unknown names map to `Other`.
    pub fn from_name(name: &str) -> (r: TargetArch)
        ensures
            r == arch_named(name@),
    {
        if same_text(name, "x86_64") {
            TargetArch::X86_64
        } else if same_text(name, "aarch64") {
            TargetArch::Aarch64
        } else if same_text(name, "x86") {
            TargetArch::X86
        } else if same_text(name, "arm") {
            TargetArch::Arm
        } else if same_text(name, "riscv64") {
            TargetArch::Riscv64
        } else if same_text(name, "wasm32") {
            TargetArch::Wasm32
        } else {
            TargetArch::Other
        }
    }
}

} // verus!
