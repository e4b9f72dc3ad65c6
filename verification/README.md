# w2nix_runtime

A verified runtime layer for a Windows/Unix C runtime:

- `arch`, `windows`, `unix`, `capi`: architecture and Windows-on-ARM
  emulation capabilities, and the conversion of performance-counter,
  FILETIME and `timespec` readings to nanoseconds, with the C ABI form of the
  capabilities.
- `msys2`, `text`: classification of MSYS2-style paths and their conversion
  between POSIX and Windows forms, specified over character sequences.
- `textreadmode`: the constants and opaque type of the Cygwin text-mode hook.

`src/` is verified with Verus. `app/` holds the operating-system calls
(Win32, libc, Cygwin), the platform selection and the C ABI exports; it hands
the raw answers to the library.
