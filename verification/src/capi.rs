//! The C ABI view of the capabilities: architectures as numeric codes.

use vstd::prelude::*;

use crate::arch::{RuntimeArch, WoaCapabilities};

verus! {

/// Capabilities with each architecture given by its numeric code.
#[derive(Debug, Clone, Copy, PartialEq, Eq, Structural)]
pub struct W2nixCapabilities {
    pub host_arch: u32,
    pub process_arch: u32,
    pub x64_emulation_available: bool,
    pub x86_emulation_available: bool,
}

/// The numeric code of an architecture: unknown 0, x86 1, x86_64 2, arm64 3.
pub open spec fn arch_code_of(arch: RuntimeArch) -> u32 {
    match arch {
        RuntimeArch::Unknown => 0,
        RuntimeArch::X86 => 1,
        RuntimeArch::X64 => 2,
        RuntimeArch::Arm64 => 3,
    }
}

/// The numeric code of an architecture.
pub fn arch_code(arch: RuntimeArch) -> (code: u32)
    ensures
        code == arch_code_of(arch),
{
    match arch {
        RuntimeArch::Unknown => 0,
        RuntimeArch::X86 => 1,
        RuntimeArch::X64 => 2,
        RuntimeArch::Arm64 => 3,
    }
}

/// The C ABI form of capabilities.
pub fn to_w2nix_capabilities(caps: WoaCapabilities) -> (c: W2nixCapabilities)
    ensures
        c == (W2nixCapabilities {
            host_arch: arch_code_of(caps.host_arch),
            process_arch: arch_code_of(caps.process_arch),
            x64_emulation_available: caps.x64_emulation_available,
            x86_emulation_available: caps.x86_emulation_available,
        }),
{
    W2nixCapabilities {
        host_arch: arch_code(caps.host_arch),
        process_arch: arch_code(caps.process_arch),
        x64_emulation_available: caps.x64_emulation_available,
        x86_emulation_available: caps.x86_emulation_available,
    }
}

/// Distinct architectures have distinct codes, each below 4; unknown is 0,
/// x86 1, x86_64 2 and arm64 3.
pub proof fn lemma_arch_code_injective(a: RuntimeArch, b: RuntimeArch)
    ensures
        arch_code_of(RuntimeArch::Unknown) == 0 && arch_code_of(RuntimeArch::X86) == 1
            && arch_code_of(RuntimeArch::X64) == 2 && arch_code_of(RuntimeArch::Arm64) == 3,
        arch_code_of(a) < 4,
        arch_code_of(a) == arch_code_of(b) ==> a == b,
{
}

} // verus!
