//! Architecture and Windows-on-ARM emulation capabilities.

use vstd::prelude::*;

verus! {

/// An instruction-set architecture, as seen by the runtime.
#[derive(Debug, Clone, Copy, PartialEq, Eq, Structural)]
pub enum RuntimeArch {
    X86,
    X64,
    Arm64,
    Unknown,
}

/// The display name of an architecture.
pub open spec fn arch_label(arch: RuntimeArch) -> Seq<char> {
    match arch {
        RuntimeArch::X86 => "x86"@,
        RuntimeArch::X64 => "x86_64"@,
        RuntimeArch::Arm64 => "arm64"@,
        RuntimeArch::Unknown => "unknown"@,
    }
}

impl RuntimeArch {
    /// The display name: `x86`, `x86_64`, `arm64` or `unknown`.
    pub fn label(&self) -> (s: &'static str)
        ensures
            s@ == arch_label(*self),
    {
        match self {
            RuntimeArch::X86 => "x86",
            RuntimeArch::X64 => "x86_64",
            RuntimeArch::Arm64 => "arm64",
            RuntimeArch::Unknown => "unknown",
        }
    }
}

/// What the runtime knows of the host and of its own process.
#[derive(Debug, Clone, Copy, PartialEq, Eq, Structural)]
pub struct WoaCapabilities {
    pub host_arch: RuntimeArch,
    pub process_arch: RuntimeArch,
    pub x64_emulation_available: bool,
    pub x86_emulation_available: bool,
}

/// Nothing is known: every architecture unknown, no emulation.
pub open spec fn unknown_capabilities() -> WoaCapabilities {
    WoaCapabilities {
        host_arch: RuntimeArch::Unknown,
        process_arch: RuntimeArch::Unknown,
        x64_emulation_available: false,
        x86_emulation_available: false,
    }
}

/// The capabilities of a Windows host: an ARM64 host emulates x64 and x86,
/// an x64 host emulates x86, any other host emulates nothing.
pub open spec fn windows_host_capabilities(host: RuntimeArch, process: RuntimeArch) -> WoaCapabilities {
    WoaCapabilities {
        host_arch: host,
        process_arch: process,
        x64_emulation_available: host == RuntimeArch::Arm64,
        x86_emulation_available: host == RuntimeArch::Arm64 || host == RuntimeArch::X64,
    }
}

/// Emulation of x64 comes only with emulation of x86.
pub open spec fn emulation_consistent(caps: WoaCapabilities) -> bool {
    caps.x64_emulation_available ==> caps.x86_emulation_available
}

/// The display names are `x86`, `x86_64`, `arm64` and `unknown`, one per
/// architecture.
pub proof fn lemma_arch_labels(a: RuntimeArch, b: RuntimeArch)
    ensures
        arch_label(RuntimeArch::X86) == seq!['x', '8', '6'],
        arch_label(RuntimeArch::X64) == seq!['x', '8', '6', '_', '6', '4'],
        arch_label(RuntimeArch::Arm64) == seq!['a', 'r', 'm', '6', '4'],
        arch_label(RuntimeArch::Unknown) == seq!['u', 'n', 'k', 'n', 'o', 'w', 'n'],
        arch_label(a) == arch_label(b) ==> a == b,
{
    reveal_strlit("x86");
    reveal_strlit("x86_64");
    reveal_strlit("arm64");
    reveal_strlit("unknown");
    assert("x86"@ =~= seq!['x', '8', '6']);
    assert("x86_64"@ =~= seq!['x', '8', '6', '_', '6', '4']);
    assert("arm64"@ =~= seq!['a', 'r', 'm', '6', '4']);
    assert("unknown"@ =~= seq!['u', 'n', 'k', 'n', 'o', 'w', 'n']);
}

} // verus!
