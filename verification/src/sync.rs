//! The check for updates: what the front end decides between the tools it
//! runs.

use crate::text::{contains, text_contains};
use vstd::prelude::*;

verus! {

/// Whether the privileged sync was called off at the password prompt: the
/// helper says on its error stream that it was cancelled or dismissed, or it
/// ends with the code 126 or 127, which it gives when it is not authorized.
pub open spec fn auth_cancelled(stderr: Seq<char>, code: Option<i32>) -> bool {
    contains(stderr, "cancelled"@) || contains(stderr, "dismissed"@) || code == Some(126i32)
        || code == Some(127i32)
}

/// Decides whether a sync that failed was called off by the user, from
/// what the helper wrote on its error stream and the code it ended with,
/// where it ended with one.
pub fn sync_was_cancelled(stderr: &str, code: Option<i32>) -> (r: bool)
    ensures
        r == auth_cancelled(stderr@, code),
{
    if text_contains(stderr, "cancelled") || text_contains(stderr, "dismissed") {
        return true;
    }
    match code {
        Some(c) => c == 126 || c == 127,
        None => false,
    }
}

/// What to do next while waiting, up to a deadline, for a child to end.
#[derive(Clone, Copy, Debug, PartialEq, Eq, Structural)]
pub enum WaitStep {
    /// Stop waiting: the child has ended, or it cannot be asked.
    Done,
    /// The deadline has passed: kill the child, reap it, and stop waiting.
    Kill,
    /// Sleep a while, then ask again.
    Sleep,
}

/// The rule of the bounded wait.  `running` is `None` where asking the child
/// failed and `Some(true)` while it runs.
pub open spec fn wait_rule(running: Option<bool>, past_deadline: bool) -> WaitStep {
    match running {
        Some(true) => if past_deadline {
            WaitStep::Kill
        } else {
            WaitStep::Sleep
        },
        _ => WaitStep::Done,
    }
}

/// Decides the next step of a bounded wait.
pub fn bounded_wait_step(running: Option<bool>, past_deadline: bool) -> (r: WaitStep)
    ensures
        r == wait_rule(running, past_deadline),
{
    match running {
        Some(true) => {
            if past_deadline {
                WaitStep::Kill
            } else {
                WaitStep::Sleep
            }
        },
        _ => WaitStep::Done,
    }
}

} // verus!
