//! Core logic of a DNS record-mutation utility: building a record change
//! request, normalizing provider-issued change identifiers, and the state
//! machine that polls a change's status until it is in sync or a deadline
//! passes. All network traffic stays outside this crate; these functions
//! take and return plain values.

pub mod change;
pub mod poll;

use vstd::prelude::*;
use vstd::string::StringExecFns;

verus! {

/// The provider's terminal status word: a change carrying it has fully
/// propagated.
pub open spec fn terminal_status() -> Seq<char> {
    "INSYNC"@
}

/// Whether `status` is the terminal "fully propagated" marker.
pub open spec fn is_terminal_spec(status: Seq<char>) -> bool {
    status == terminal_status()
}

/// Decides whether a status string reported by the provider is terminal.
pub fn is_terminal_status(status: &str) -> (r: bool)
    ensures
        r == is_terminal_spec(status@),
{
    let marker: String = String::from_str("INSYNC");
    let s: String = String::from_str(status);
    s == marker
}

/// The process exit code a finished run maps to: zero when the operation
/// reached terminal success (or submission succeeded without waiting), one
/// when it timed out waiting.
pub fn exit_code(completed: bool) -> (c: i32)
    ensures
        c == if completed {
            0int
        } else {
            1int
        },
{
    if completed {
        0
    } else {
        1
    }
}

} // verus!
