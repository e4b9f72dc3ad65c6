//! The decisions and conversions of the Win32 platform layer: what
//! `IsWow64Process2`, `QueryPerformanceCounter` and
//! `GetSystemTimePreciseAsFileTime` report, turned into runtime values.

use vstd::prelude::*;

use crate::arch::{unknown_capabilities, windows_host_capabilities, RuntimeArch, WoaCapabilities};

verus! {

/// The machine type of a process that is not running under emulation.
pub const IMAGE_FILE_MACHINE_UNKNOWN: u16 = 0;

pub const IMAGE_FILE_MACHINE_I386: u16 = 0x014c;

pub const IMAGE_FILE_MACHINE_AMD64: u16 = 0x8664;

pub const IMAGE_FILE_MACHINE_ARM64: u16 = 0xAA64;

/// Nanoseconds per second.
pub const NANOS_PER_SEC: u128 = 1_000_000_000;

/// The architecture of a PE machine type.
pub open spec fn machine_arch(machine: u16) -> RuntimeArch {
    if machine == IMAGE_FILE_MACHINE_I386 {
        RuntimeArch::X86
    } else if machine == IMAGE_FILE_MACHINE_AMD64 {
        RuntimeArch::X64
    } else if machine == IMAGE_FILE_MACHINE_ARM64 {
        RuntimeArch::Arm64
    } else {
        RuntimeArch::Unknown
    }
}

/// The capabilities that an `IsWow64Process2` answer describes: `ok` is its
/// return value, the machines what it wrote.
pub open spec fn wow64_capabilities(ok: i32, process_machine: u16, native_machine: u16) -> WoaCapabilities {
    if ok == 0 {
        unknown_capabilities()
    } else {
        let host = machine_arch(native_machine);
        let process = if process_machine == IMAGE_FILE_MACHINE_UNKNOWN {
            host
        } else {
            machine_arch(process_machine)
        };
        windows_host_capabilities(host, process)
    }
}

/// Nanoseconds of a performance-counter reading; zero when either query
/// failed or a value is out of range.
pub open spec fn counter_nanoseconds(fq_ok: i32, ct_ok: i32, freq: i64, counter: i64) -> int {
    if fq_ok == 0 || ct_ok == 0 || freq <= 0 || counter < 0 {
        0
    } else {
        (counter * 1_000_000_000) / (freq as int)
    }
}

/// Nanoseconds of a FILETIME (100 ns ticks, split in two 32-bit halves).
pub open spec fn filetime_nanoseconds(low: u32, high: u32) -> int {
    (high * 0x1_0000_0000 + low) * 100
}

/// The architecture of a PE machine type.
pub fn map_machine(machine: u16) -> (arch: RuntimeArch)
    ensures
        arch == machine_arch(machine),
{
    if machine == IMAGE_FILE_MACHINE_I386 {
        RuntimeArch::X86
    } else if machine == IMAGE_FILE_MACHINE_AMD64 {
        RuntimeArch::X64
    } else if machine == IMAGE_FILE_MACHINE_ARM64 {
        RuntimeArch::Arm64
    } else {
        RuntimeArch::Unknown
    }
}

/// The capabilities that an `IsWow64Process2` answer describes.
pub fn woa_capabilities(ok: i32, process_machine: u16, native_machine: u16) -> (caps: WoaCapabilities)
    ensures
        caps == wow64_capabilities(ok, process_machine, native_machine),
{
    if ok == 0 {
        return WoaCapabilities {
            host_arch: RuntimeArch::Unknown,
            process_arch: RuntimeArch::Unknown,
            x64_emulation_available: false,
            x86_emulation_available: false,
        };
    }
    let host_arch = map_machine(native_machine);
    let process_arch = if process_machine == IMAGE_FILE_MACHINE_UNKNOWN {
        host_arch
    } else {
        map_machine(process_machine)
    };
    let x64_emulation_available = host_arch == RuntimeArch::Arm64;
    let x86_emulation_available = host_arch == RuntimeArch::Arm64 || host_arch == RuntimeArch::X64;
    WoaCapabilities { host_arch, process_arch, x64_emulation_available, x86_emulation_available }
}

/// Nanoseconds of a performance-counter reading (`QueryPerformanceFrequency`
/// and `QueryPerformanceCounter` results and return values).
pub fn monotonic_time_ns(fq_ok: i32, ct_ok: i32, freq: i64, counter: i64) -> (ns: u128)
    ensures
        ns == counter_nanoseconds(fq_ok, ct_ok, freq, counter),
{
    if fq_ok == 0 || ct_ok == 0 || freq <= 0 || counter < 0 {
        return 0;
    }
    let c: u128 = counter as u128;
    let f: u128 = freq as u128;
    assert(c * 1_000_000_000 <= 0x7fff_ffff_ffff_ffff * 1_000_000_000) by (nonlinear_arith)
        requires
            c <= 0x7fff_ffff_ffff_ffff,
    ;
    let ns = (c * NANOS_PER_SEC) / f;
    ns
}

/// Nanoseconds of a FILETIME given as its low and high halves.
pub fn realtime_ns(low: u32, high: u32) -> (ns: u128)
    ensures
        ns == filetime_nanoseconds(low, high),
{
    let ticks_100ns: u64 = ((high as u64) << 32) | (low as u64);
    assert(((high as u64) << 32) | (low as u64) == high * 0x1_0000_0000 + low) by (bit_vector);
    ticks_100ns as u128 * 100u128
}

/// Every answer of `IsWow64Process2` gives capabilities in which x64
/// emulation comes only with x86 emulation.
pub proof fn lemma_wow64_emulation_consistent(ok: i32, process_machine: u16, native_machine: u16)
    ensures
        crate::arch::emulation_consistent(wow64_capabilities(ok, process_machine, native_machine)),
{
}

/// A process that is not emulated runs on the host architecture.
pub proof fn lemma_native_process_runs_host_arch(native_machine: u16)
    ensures
        wow64_capabilities(1, IMAGE_FILE_MACHINE_UNKNOWN, native_machine).process_arch
            == wow64_capabilities(1, IMAGE_FILE_MACHINE_UNKNOWN, native_machine).host_arch,
{
}

/// For a fixed frequency, a later counter value never gives fewer nanoseconds.
pub proof fn lemma_counter_nanoseconds_monotonic(freq: i64, c1: i64, c2: i64)
    requires
        freq > 0,
        0 <= c1 <= c2,
    ensures
        counter_nanoseconds(1, 1, freq, c1) <= counter_nanoseconds(1, 1, freq, c2),
{
    assert(c1 * 1_000_000_000 <= c2 * 1_000_000_000) by (nonlinear_arith)
        requires
            c1 <= c2,
    ;
    vstd::arithmetic::div_mod::lemma_div_is_ordered(
        c1 * 1_000_000_000,
        c2 * 1_000_000_000,
        freq as int,
    );
}

/// What an `IsWow64Process2` answer gives. A failed call gives nothing. Otherwise the host
/// architecture comes from the native machine, the process architecture from
/// the process machine (or is the host's when the process machine is zero,
/// meaning the process is not emulated), x64 emulation exactly on an ARM64
/// host and x86 emulation exactly on an ARM64 or x64 host.
pub proof fn lemma_wow64_answer(ok: i32, process_machine: u16, native_machine: u16)
    ensures
        ({
            let c = wow64_capabilities(ok, process_machine, native_machine);
            &&& ok == 0 ==> c.host_arch == RuntimeArch::Unknown && c.process_arch
                == RuntimeArch::Unknown && !c.x64_emulation_available
                && !c.x86_emulation_available
            &&& ok != 0 ==> {
                &&& native_machine == 0x014c ==> c.host_arch == RuntimeArch::X86
                &&& native_machine == 0x8664 ==> c.host_arch == RuntimeArch::X64
                &&& native_machine == 0xAA64 ==> c.host_arch == RuntimeArch::Arm64
                &&& native_machine != 0x014c && native_machine != 0x8664 && native_machine
                    != 0xAA64 ==> c.host_arch == RuntimeArch::Unknown
                &&& process_machine == 0 ==> c.process_arch == c.host_arch
                &&& process_machine == 0x014c ==> c.process_arch == RuntimeArch::X86
                &&& process_machine == 0x8664 ==> c.process_arch == RuntimeArch::X64
                &&& process_machine == 0xAA64 ==> c.process_arch == RuntimeArch::Arm64
                &&& process_machine != 0 && process_machine != 0x014c && process_machine
                    != 0x8664 && process_machine != 0xAA64 ==> c.process_arch
                    == RuntimeArch::Unknown
                &&& c.x64_emulation_available <==> native_machine == 0xAA64
                &&& c.x86_emulation_available <==> (native_machine == 0xAA64 || native_machine
                    == 0x8664)
            }
        }),
{
}

/// A valid performance-counter reading gives the whole number of
/// nanoseconds it stands for: `ns * freq <= counter * 10^9 < (ns + 1) * freq`.
/// A failed query or an out-of-range value gives zero.
pub proof fn lemma_counter_nanoseconds_floor(fq_ok: i32, ct_ok: i32, freq: i64, counter: i64)
    ensures
        (fq_ok == 0 || ct_ok == 0 || freq <= 0 || counter < 0) ==> counter_nanoseconds(
            fq_ok,
            ct_ok,
            freq,
            counter,
        ) == 0,
        (fq_ok != 0 && ct_ok != 0 && freq > 0 && counter >= 0) ==> ({
            let ns = counter_nanoseconds(fq_ok, ct_ok, freq, counter);
            &&& ns * freq <= counter * 1_000_000_000
            &&& counter * 1_000_000_000 < (ns + 1) * freq
        }),
{
    if fq_ok != 0 && ct_ok != 0 && freq > 0 && counter >= 0 {
        let x: int = counter * 1_000_000_000;
        let d: int = freq as int;
        vstd::arithmetic::div_mod::lemma_fundamental_div_mod(x, d);
        vstd::arithmetic::div_mod::lemma_mod_bound(x, d);
        let q = x / d;
        assert(q * d <= x);
        assert(x < (q + 1) * d) by (nonlinear_arith)
            requires
                x == d * q + x % d,
                x % d < d,
        ;
    }
}

/// A FILETIME's nanoseconds are a whole number of 100 ns ticks whose low 32
/// bits are `low` and whose high 32 bits are `high`.
pub proof fn lemma_filetime_ticks(low: u32, high: u32)
    ensures
        filetime_nanoseconds(low, high) % 100 == 0,
        (filetime_nanoseconds(low, high) / 100) % 0x1_0000_0000 == low,
        (filetime_nanoseconds(low, high) / 100) / 0x1_0000_0000 == high,
{
    let t: int = high * 0x1_0000_0000 + low;
    assert(t * 100 % 100 == 0 && t * 100 / 100 == t) by (nonlinear_arith)
        requires
            t >= 0,
    ;
    vstd::arithmetic::div_mod::lemma_fundamental_div_mod_converse(
        t,
        0x1_0000_0000,
        high as int,
        low as int,
    );
}

} // verus!
