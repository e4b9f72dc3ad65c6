//! The per-file text-mode table that the Cygwin startup hook registers.

use vstd::prelude::*;

verus! {

/// Open flag: read only.
pub const O_RDONLY: i32 = 0;

/// Open flag: text mode (CR/LF translation).
pub const O_TEXT: i32 = 0x4000;

/// The `cygwin_internal` command that installs a per-file table.
pub const CW_PERFILE: i32 = 44;

/// The flags given to every file by the table: read-only text mode.
pub const TEXT_READ_FLAGS: i32 = O_RDONLY | O_TEXT;

/// The opaque per-process block that Cygwin hands to its startup hook.
pub struct PerProcess {
    _private: [u8; 0],
}

} // verus!
