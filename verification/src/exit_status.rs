//! Decoding of the status word that waiting on a child process returns.

use vstd::prelude::*;

verus! {

/// Whether `status` reports a normal exit: its low seven bits, which hold the
/// terminating signal, are all zero.
pub open spec fn exited_normally(status: i32) -> bool {
    (status as int) % 128 == 0
}

/// The exit code held in `status`: its second byte.
pub open spec fn exit_code(status: i32) -> int {
    ((status as int) / 256) % 256
}

/// Whether `status` reports a normal exit with code 0.
pub open spec fn exit_success(status: i32) -> bool {
    exited_normally(status) && exit_code(status) == 0
}

/// Trusted: calls `libc::WIFEXITED`, which tests `(status & 0x7f) == 0`; on a
/// two's-complement word that is the remainder of `status` by 128 being zero.
#[verifier::external_body]
fn wifexited(status: i32) -> (r: bool)
    ensures
        r == exited_normally(status),
{
    libc::WIFEXITED(status)
}

/// Trusted: calls `libc::WEXITSTATUS`, which returns `(status >> 8) & 0xff`:
/// the floor of `status / 256`, reduced modulo 256.
#[verifier::external_body]
fn wexitstatus(status: i32) -> (r: i32)
    ensures
        r == exit_code(status),
{
    libc::WEXITSTATUS(status)
}

/// How a child process ended, as far as the session cares.
#[derive(Clone, Copy, Debug, PartialEq, Eq, Structural)]
pub enum ExitKind {
    /// The child returned from `main` or called `exit`, with this code.
    Exited { code: i32 },
    /// The child was ended by a signal, or the status is of another kind.
    Abnormal,
}

/// Reads a wait status.
pub fn decode_exit(status: i32) -> (r: ExitKind)
    ensures
        exited_normally(status) ==> r == (ExitKind::Exited { code: exit_code(status) as i32 }),
        !exited_normally(status) ==> r == ExitKind::Abnormal,
        0 <= exit_code(status) < 256,
{
    if wifexited(status) {
        ExitKind::Exited { code: wexitstatus(status) }
    } else {
        ExitKind::Abnormal
    }
}

/// Whether a wait status means success: the child exited normally with
/// code 0.
pub fn exit_succeeded(status: i32) -> (r: bool)
    ensures
        r == exit_success(status),
{
    wifexited(status) && wexitstatus(status) == 0
}

} // verus!
