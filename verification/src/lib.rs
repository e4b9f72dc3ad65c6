//! Runtime support for a Windows/Unix C runtime layer: architecture and
//! emulation detection, clock conversions, and MSYS2 path classification
//! and conversion between POSIX and Windows forms.

pub mod arch;
pub mod capi;
pub mod msys2;
pub mod path_laws;
pub mod text;
pub mod textreadmode;
pub mod unix;
pub mod windows;
