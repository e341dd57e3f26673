//! Exit codes of the QEMU debug-exit device used by the kernel test harness.
use vstd::prelude::*;

verus! {

/// Exit codes written to the debug-exit port.
#[derive(Debug, Clone, Copy, PartialEq, Eq, Structural)]
pub enum QemuExitCode {
    /// All tests passed (0x10).
    Success,
    /// A test failed (0x11).
    Failed,
}

impl QemuExitCode {
    /// The value written to the port.
    pub fn code(self) -> (c: u32)
        ensures
            self == QemuExitCode::Success ==> c == 0x10,
            self == QemuExitCode::Failed ==> c == 0x11,
    {
        match self {
            QemuExitCode::Success => 0x10,
            QemuExitCode::Failed => 0x11,
        }
    }
}

/// The process status QEMU exits with once `code` is written: `(code << 1) | 1`.
pub fn exit_status(code: QemuExitCode) -> (s: u32)
    ensures
        code == QemuExitCode::Success ==> s == 33,
        code == QemuExitCode::Failed ==> s == 35,
{
    let v = code.code();
    assert((0x10u32 << 1u32) | 1u32 == 33u32 && (0x11u32 << 1u32) | 1u32 == 35u32) by (bit_vector);
    (v << 1) | 1
}

} // verus!
