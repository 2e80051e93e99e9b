//! Syscall handler that neutralises `exec` in replayed VMs.
//!
//! A replayed script that calls `exec` would replace its own program; the
//! replay does not follow it.  The handler answers `exec` with success and
//! leaves every other syscall to the next handler.
use vstd::prelude::*;

verus! {

/// The CKB syscall number of `exec`.
pub const SYSCALL_EXEC: u64 = 2043;

/// Calls `ckb_vm_fuzzing_utils::SyscallCode::try_from` on `code` and tests
/// for `SyscallCode::Exec`.  The conversion is derived by `int_enum`, which
/// maps each declared discriminant to its variant; `Exec` is declared as 2043.
#[verifier::external_body]
fn is_exec_syscall(code: u64) -> (b: bool)
    ensures
        b == (code == SYSCALL_EXEC),
{
    matches!(ckb_vm_fuzzing_utils::SyscallCode::try_from(code), Ok(ckb_vm_fuzzing_utils::SyscallCode::Exec))
}

/// The handler that intercepts `exec`.
#[derive(Clone, Copy, Debug)]
pub struct ExecOverride;

impl ExecOverride {
    /// Handles a syscall whose number (register A7) is `a7`: for `exec`, the
    /// value to write to register A0 (zero, for success), meaning the call is
    /// handled; otherwise `None`, leaving it to the next handler.
    pub fn ecall(&self, a7: u64) -> (r: Option<u64>)
        ensures
            r == (if a7 == SYSCALL_EXEC { Some(0u64) } else { None }),
    {
        if is_exec_syscall(a7) {
            Some(0)
        } else {
            None
        }
    }
}

} // verus!
