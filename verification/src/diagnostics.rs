//! Guest diagnostics carried in session errors.
//!
//! When a guest call raises, the host keeps the error text and, when the
//! guest runtime can format one, the stack-trace text appended to it, so
//! that the terminal `Error` event carries everything the guest reported.

use vstd::prelude::*;

verus! {

/// Join a guest error message with its formatted stack trace, when one is
/// available: the diagnostic is the message followed by the trace text, or
/// the message alone.
pub fn join_diagnostic(message: String, traceback: Option<String>) -> (r: String)
    ensures
        traceback matches Some(t) ==> r@ == message@ + t@,
        traceback is None ==> r@ == message@,
{
    match traceback {
        Some(t) => message.concat(t.as_str()),
        None => message,
    }
}

} // verus!
