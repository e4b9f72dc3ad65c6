//! The decisions and conversions of the Unix platform layer: the build
//! target's architecture and what `clock_gettime` reports, turned into
//! runtime values.

use vstd::prelude::*;

use crate::arch::{RuntimeArch, WoaCapabilities};

verus! {

/// Clock id of the wall clock.
pub const CLOCK_REALTIME: i32 = 0;

/// Clock id of the monotonic clock.
pub const CLOCK_MONOTONIC: i32 = 1;

/// Nanoseconds per second.
pub const NANOS_PER_SEC: u128 = 1_000_000_000;

/// A clock reading: seconds and nanoseconds.
#[derive(Debug, Clone, Copy, PartialEq, Eq, Structural)]
pub struct Timespec {
    pub tv_sec: i64,
    pub tv_nsec: i64,
}

/// The architecture named by a Rust `target_arch` value.
pub open spec fn target_arch(name: Seq<char>) -> RuntimeArch {
    if name == "x86"@ {
        RuntimeArch::X86
    } else if name == "x86_64"@ {
        RuntimeArch::X64
    } else if name == "aarch64"@ {
        RuntimeArch::Arm64
    } else {
        RuntimeArch::Unknown
    }
}

/// Nanoseconds of a `clock_gettime` answer (`rc` its return value); zero when
/// the call failed or a field is negative.
pub open spec fn timespec_nanoseconds(rc: i32, ts: Timespec) -> int {
    if rc != 0 || ts.tv_sec < 0 || ts.tv_nsec < 0 {
        0
    } else {
        ts.tv_sec * 1_000_000_000 + ts.tv_nsec
    }
}

/// The architecture named by a Rust `target_arch` value (`x86`, `x86_64`,
/// `aarch64`; anything else is unknown).
pub fn compile_target_arch(name: &str) -> (arch: RuntimeArch)
    ensures
        arch == target_arch(name@),
{
    let n = name.to_owned();
    if n == "x86".to_owned() {
        RuntimeArch::X86
    } else if n == "x86_64".to_owned() {
        RuntimeArch::X64
    } else if n == "aarch64".to_owned() {
        RuntimeArch::Arm64
    } else {
        RuntimeArch::Unknown
    }
}

/// On Unix the host and the process share the build target's architecture
/// and nothing is emulated.
pub fn woa_capabilities(arch: RuntimeArch) -> (caps: WoaCapabilities)
    ensures
        caps == (WoaCapabilities {
            host_arch: arch,
            process_arch: arch,
            x64_emulation_available: false,
            x86_emulation_available: false,
        }),
{
    WoaCapabilities {
        host_arch: arch,
        process_arch: arch,
        x64_emulation_available: false,
        x86_emulation_available: false,
    }
}

/// Nanoseconds of a `clock_gettime` answer.
pub fn timespec_to_ns(rc: i32, ts: Timespec) -> (ns: u128)
    ensures
        ns == timespec_nanoseconds(rc, ts),
{
    if rc != 0 || ts.tv_sec < 0 || ts.tv_nsec < 0 {
        return 0;
    }
    let s: u128 = ts.tv_sec as u128;
    assert(s * 1_000_000_000 <= 0x7fff_ffff_ffff_ffff * 1_000_000_000) by (nonlinear_arith)
        requires
            s <= 0x7fff_ffff_ffff_ffff,
    ;
    (s * NANOS_PER_SEC) + ts.tv_nsec as u128
}

/// A later reading (seconds first, then nanoseconds, each below one second)
/// never gives fewer nanoseconds.
pub proof fn lemma_timespec_nanoseconds_monotonic(a: Timespec, b: Timespec)
    requires
        0 <= a.tv_sec,
        0 <= a.tv_nsec < 1_000_000_000,
        0 <= b.tv_nsec < 1_000_000_000,
        a.tv_sec < b.tv_sec || (a.tv_sec == b.tv_sec && a.tv_nsec <= b.tv_nsec),
    ensures
        timespec_nanoseconds(0, a) <= timespec_nanoseconds(0, b),
{
    if a.tv_sec < b.tv_sec {
        assert(a.tv_sec * 1_000_000_000 + 1_000_000_000 <= b.tv_sec * 1_000_000_000) by (nonlinear_arith)
            requires
                a.tv_sec < b.tv_sec,
        ;
    }
}

/// A valid reading (seconds non-negative, nanoseconds below one second)
/// gives nanoseconds whose whole seconds are the seconds field and whose
/// remainder is the nanoseconds field. A failed call or a negative field
/// gives zero.
pub proof fn lemma_timespec_fields(rc: i32, ts: Timespec)
    ensures
        (rc != 0 || ts.tv_sec < 0 || ts.tv_nsec < 0) ==> timespec_nanoseconds(rc, ts) == 0,
        (rc == 0 && ts.tv_sec >= 0 && 0 <= ts.tv_nsec < 1_000_000_000) ==> (timespec_nanoseconds(
            rc,
            ts,
        ) / 1_000_000_000 == ts.tv_sec && timespec_nanoseconds(rc, ts) % 1_000_000_000
            == ts.tv_nsec),
{
    if rc == 0 && ts.tv_sec >= 0 && 0 <= ts.tv_nsec < 1_000_000_000 {
        vstd::arithmetic::div_mod::lemma_fundamental_div_mod_converse(
            ts.tv_sec * 1_000_000_000 + ts.tv_nsec,
            1_000_000_000,
            ts.tv_sec as int,
            ts.tv_nsec as int,
        );
    }
}

/// The `target_arch` names of the three known architectures map to them;
/// every other name maps to unknown.
pub proof fn lemma_target_arch_names(name: Seq<char>)
    ensures
        target_arch(seq!['x', '8', '6']) == RuntimeArch::X86,
        target_arch(seq!['x', '8', '6', '_', '6', '4']) == RuntimeArch::X64,
        target_arch(seq!['a', 'a', 'r', 'c', 'h', '6', '4']) == RuntimeArch::Arm64,
        name != seq!['x', '8', '6'] && name != seq!['x', '8', '6', '_', '6', '4'] && name != seq![
            'a',
            'a',
            'r',
            'c',
            'h',
            '6',
            '4',
        ] ==> target_arch(name) == RuntimeArch::Unknown,
{
    reveal_strlit("x86");
    reveal_strlit("x86_64");
    reveal_strlit("aarch64");
    assert("x86"@ =~= seq!['x', '8', '6']);
    assert("x86_64"@ =~= seq!['x', '8', '6', '_', '6', '4']);
    assert("aarch64"@ =~= seq!['a', 'a', 'r', 'c', 'h', '6', '4']);
}

} // verus!
