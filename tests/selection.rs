use malloc_best_effort::target::{has_maintenance, select_backend};
use malloc_best_effort::{Backend, TargetArch, TargetOs};

#[test]
fn linux_x86_64_uses_primary() {
    assert_eq!(select_backend(TargetOs::Linux, TargetArch::X86_64, true), Backend::Primary);
}

#[test]
fn linux_aarch64_uses_primary() {
    assert_eq!(select_backend(TargetOs::Linux, TargetArch::Aarch64, true), Backend::Primary);
}

#[test]
fn linux_other_arches_fall_back() {
    for arch in [
        TargetArch::X86,
        TargetArch::Arm,
        TargetArch::Riscv64,
        TargetArch::Wasm32,
        TargetArch::Other,
    ] {
        assert_eq!(select_backend(TargetOs::Linux, arch, true), Backend::Fallback);
    }
}

#[test]
fn other_systems_fall_back() {
    for os in [
        TargetOs::Windows,
        TargetOs::MacOs,
        TargetOs::FreeBsd,
        TargetOs::NetBsd,
        TargetOs::OpenBsd,
        TargetOs::Android,
        TargetOs::Other,
    ] {
        assert_eq!(select_backend(os, TargetArch::X86_64, true), Backend::Fallback);
        assert_eq!(select_backend(os, TargetArch::Aarch64, true), Backend::Fallback);
    }
}

#[test]
fn builds_without_std_fall_back() {
    assert_eq!(select_backend(TargetOs::Linux, TargetArch::X86_64, false), Backend::Fallback);
    assert_eq!(select_backend(TargetOs::Linux, TargetArch::Aarch64, false), Backend::Fallback);
    assert_eq!(select_backend(TargetOs::Windows, TargetArch::X86_64, false), Backend::Fallback);
}

#[test]
fn maintenance_needs_primary_and_threads() {
    assert!(has_maintenance(Backend::Primary, true));
    assert!(!has_maintenance(Backend::Primary, false));
    assert!(!has_maintenance(Backend::Fallback, true));
    assert!(!has_maintenance(Backend::Fallback, false));
}

#[test]
fn os_names_are_read() {
    assert_eq!(TargetOs::from_name("linux"), TargetOs::Linux);
    assert_eq!(TargetOs::from_name("windows"), TargetOs::Windows);
    assert_eq!(TargetOs::from_name("macos"), TargetOs::MacOs);
    assert_eq!(TargetOs::from_name("freebsd"), TargetOs::FreeBsd);
    assert_eq!(TargetOs::from_name("netbsd"), TargetOs::NetBsd);
    assert_eq!(TargetOs::from_name("openbsd"), TargetOs::OpenBsd);
    assert_eq!(TargetOs::from_name("android"), TargetOs::Android);
}

#[test]
fn unknown_os_names_are_other() {
    assert_eq!(TargetOs::from_name(""), TargetOs::Other);
    assert_eq!(TargetOs::from_name("Linux"), TargetOs::Other);
    assert_eq!(TargetOs::from_name("linu"), TargetOs::Other);
    assert_eq!(TargetOs::from_name("linuxx"), TargetOs::Other);
    assert_eq!(TargetOs::from_name("none"), TargetOs::Other);
}

#[test]
fn arch_names_are_read() {
    assert_eq!(TargetArch::from_name("x86_64"), TargetArch::X86_64);
    assert_eq!(TargetArch::from_name("aarch64"), TargetArch::Aarch64);
    assert_eq!(TargetArch::from_name("x86"), TargetArch::X86);
    assert_eq!(TargetArch::from_name("arm"), TargetArch::Arm);
    assert_eq!(TargetArch::from_name("riscv64"), TargetArch::Riscv64);
    assert_eq!(TargetArch::from_name("wasm32"), TargetArch::Wasm32);
}

#[test]
fn unknown_arch_names_are_other() {
    assert_eq!(TargetArch::from_name(""), TargetArch::Other);
    assert_eq!(TargetArch::from_name("x86_6"), TargetArch::Other);
    assert_eq!(TargetArch::from_name("armv7"), TargetArch::Other);
    assert_eq!(TargetArch::from_name("powerpc64"), TargetArch::Other);
}

#[test]
fn names_select_backend() {
    let pick = |os: &str, arch: &str| {
        select_backend(TargetOs::from_name(os), TargetArch::from_name(arch), true)
    };
    assert_eq!(pick("linux", "x86_64"), Backend::Primary);
    assert_eq!(pick("linux", "aarch64"), Backend::Primary);
    assert_eq!(pick("linux", "arm"), Backend::Fallback);
    assert_eq!(pick("macos", "aarch64"), Backend::Fallback);
    assert_eq!(pick("windows", "x86_64"), Backend::Fallback);
}
