use w2nix_runtime::arch::{RuntimeArch, WoaCapabilities};
use w2nix_runtime::capi::{arch_code, to_w2nix_capabilities, W2nixCapabilities};
use w2nix_runtime::textreadmode::{PerProcess, TEXT_READ_FLAGS};
use w2nix_runtime::unix::{compile_target_arch, timespec_to_ns, Timespec};
use w2nix_runtime::windows::{map_machine, monotonic_time_ns, realtime_ns};

fn is_arch(a: RuntimeArch) -> bool {
    matches!(
        a,
        RuntimeArch::Unknown | RuntimeArch::X86 | RuntimeArch::X64 | RuntimeArch::Arm64
    )
}

#[test]
fn capabilities_have_arch_values() {
    for name in ["x86", "x86_64", "aarch64", "riscv64"] {
        let caps = w2nix_runtime::unix::woa_capabilities(compile_target_arch(name));
        assert!(is_arch(caps.host_arch));
        assert!(is_arch(caps.process_arch));
    }
    for (ok, pm, nm) in [(0, 0, 0), (1, 0, 0xAA64), (1, 0x8664, 0xAA64), (1, 0x1234, 0x8664)] {
        let caps = w2nix_runtime::windows::woa_capabilities(ok, pm, nm);
        assert!(is_arch(caps.host_arch));
        assert!(is_arch(caps.process_arch));
    }
}

#[test]
fn per_process_is_opaque() {
    assert_eq!(core::mem::size_of::<PerProcess>(), 0);
}

#[test]
fn machine_types_map_to_architectures() {
    assert_eq!(map_machine(0x014c), RuntimeArch::X86);
    assert_eq!(map_machine(0x8664), RuntimeArch::X64);
    assert_eq!(map_machine(0xAA64), RuntimeArch::Arm64);
    assert_eq!(map_machine(0), RuntimeArch::Unknown);
    assert_eq!(map_machine(0x01c4), RuntimeArch::Unknown);
}

#[test]
fn windows_capabilities_from_wow64_answer() {
    let failed = w2nix_runtime::windows::woa_capabilities(0, 0x014c, 0xAA64);
    assert_eq!(
        failed,
        WoaCapabilities {
            host_arch: RuntimeArch::Unknown,
            process_arch: RuntimeArch::Unknown,
            x64_emulation_available: false,
            x86_emulation_available: false,
        }
    );
    let emulated = w2nix_runtime::windows::woa_capabilities(1, 0x014c, 0xAA64);
    assert_eq!(
        emulated,
        WoaCapabilities {
            host_arch: RuntimeArch::Arm64,
            process_arch: RuntimeArch::X86,
            x64_emulation_available: true,
            x86_emulation_available: true,
        }
    );
    let native = w2nix_runtime::windows::woa_capabilities(1, 0, 0x8664);
    assert_eq!(
        native,
        WoaCapabilities {
            host_arch: RuntimeArch::X64,
            process_arch: RuntimeArch::X64,
            x64_emulation_available: false,
            x86_emulation_available: true,
        }
    );
    let x86_host = w2nix_runtime::windows::woa_capabilities(1, 0, 0x014c);
    assert!(!x86_host.x64_emulation_available && !x86_host.x86_emulation_available);
}

#[test]
fn emulation_of_x64_implies_x86() {
    for nm in [0u16, 0x014c, 0x8664, 0xAA64, 0x7777] {
        let caps = w2nix_runtime::windows::woa_capabilities(1, 0, nm);
        assert!(!caps.x64_emulation_available || caps.x86_emulation_available);
    }
}

#[test]
fn unix_capabilities_follow_target() {
    assert_eq!(compile_target_arch("x86"), RuntimeArch::X86);
    assert_eq!(compile_target_arch("x86_64"), RuntimeArch::X64);
    assert_eq!(compile_target_arch("aarch64"), RuntimeArch::Arm64);
    assert_eq!(compile_target_arch("arm"), RuntimeArch::Unknown);
    let caps = w2nix_runtime::unix::woa_capabilities(RuntimeArch::Arm64);
    assert_eq!(
        caps,
        WoaCapabilities {
            host_arch: RuntimeArch::Arm64,
            process_arch: RuntimeArch::Arm64,
            x64_emulation_available: false,
            x86_emulation_available: false,
        }
    );
}

#[test]
fn performance_counter_to_nanoseconds() {
    assert_eq!(monotonic_time_ns(1, 1, 10_000_000, 25), 2_500);
    assert_eq!(monotonic_time_ns(1, 1, 3, 1), 333_333_333);
    assert_eq!(monotonic_time_ns(1, 1, 1, i64::MAX), i64::MAX as u128 * 1_000_000_000);
    assert_eq!(monotonic_time_ns(0, 1, 10, 25), 0);
    assert_eq!(monotonic_time_ns(1, 0, 10, 25), 0);
    assert_eq!(monotonic_time_ns(1, 1, 0, 25), 0);
    assert_eq!(monotonic_time_ns(1, 1, -5, 25), 0);
    assert_eq!(monotonic_time_ns(1, 1, 10, -1), 0);
}

#[test]
fn counter_nanoseconds_never_decrease() {
    let freq = 3_579_545;
    let mut last = 0;
    for c in [0i64, 1, 2, 1000, 3_579_545, 3_579_546, 1 << 40] {
        let ns = monotonic_time_ns(1, 1, freq, c);
        assert!(ns >= last);
        last = ns;
    }
}

#[test]
fn filetime_to_nanoseconds() {
    assert_eq!(realtime_ns(0, 0), 0);
    assert_eq!(realtime_ns(1, 0), 100);
    assert_eq!(realtime_ns(1, 1), (0x1_0000_0001u128) * 100);
    assert_eq!(realtime_ns(u32::MAX, u32::MAX), u64::MAX as u128 * 100);
}

#[test]
fn timespec_to_nanoseconds() {
    let ts = Timespec { tv_sec: 2, tv_nsec: 5 };
    assert_eq!(timespec_to_ns(0, ts), 2_000_000_005);
    assert_eq!(timespec_to_ns(-1, ts), 0);
    assert_eq!(timespec_to_ns(0, Timespec { tv_sec: -1, tv_nsec: 5 }), 0);
    assert_eq!(timespec_to_ns(0, Timespec { tv_sec: 1, tv_nsec: -5 }), 0);
    let max = Timespec { tv_sec: i64::MAX, tv_nsec: 999_999_999 };
    assert_eq!(timespec_to_ns(0, max), i64::MAX as u128 * 1_000_000_000 + 999_999_999);
}

#[test]
fn timespec_nanoseconds_never_decrease() {
    let a = timespec_to_ns(0, Timespec { tv_sec: 1, tv_nsec: 999_999_999 });
    let b = timespec_to_ns(0, Timespec { tv_sec: 2, tv_nsec: 0 });
    let c = timespec_to_ns(0, Timespec { tv_sec: 2, tv_nsec: 1 });
    assert!(a <= b && b <= c);
}

#[test]
fn arch_codes_and_labels() {
    assert_eq!(arch_code(RuntimeArch::Unknown), 0);
    assert_eq!(arch_code(RuntimeArch::X86), 1);
    assert_eq!(arch_code(RuntimeArch::X64), 2);
    assert_eq!(arch_code(RuntimeArch::Arm64), 3);
    assert_eq!(RuntimeArch::X86.label(), "x86");
    assert_eq!(RuntimeArch::X64.label(), "x86_64");
    assert_eq!(RuntimeArch::Arm64.label(), "arm64");
    assert_eq!(RuntimeArch::Unknown.label(), "unknown");
}

#[test]
fn capabilities_in_c_abi_form() {
    let caps = WoaCapabilities {
        host_arch: RuntimeArch::Arm64,
        process_arch: RuntimeArch::X64,
        x64_emulation_available: true,
        x86_emulation_available: true,
    };
    assert_eq!(
        to_w2nix_capabilities(caps),
        W2nixCapabilities {
            host_arch: 3,
            process_arch: 2,
            x64_emulation_available: true,
            x86_emulation_available: true,
        }
    );
}

#[test]
fn text_mode_table_flags() {
    assert_eq!(TEXT_READ_FLAGS, 0x4000);
}
