//! Interpretation of the integer status code a handler returns after each
//! dispatch. Exactly three values are valid; every other integer is a
//! protocol violation that ends the session.

use vstd::prelude::*;
use crate::events::StopReason;

verus! {

/// The handler asks the loop to continue with the next event.
pub const STATUS_CONTINUE: i32 = 0;

/// The handler asks the loop to stop this session.
pub const STATUS_STOP: i32 = 1;

/// The handler asks the whole dataflow to stop.
pub const STATUS_STOP_ALL: i32 = 2;

/// What a status code means for the event loop.
#[derive(Clone, Copy, Debug, PartialEq, Eq, Structural)]
pub enum StatusDecision {
    /// Stay in the loop and receive the next event.
    Continue,
    /// Leave the loop without failure, for the given reason.
    Stop { reason: StopReason },
    /// The integer is none of the valid status codes: a fatal protocol
    /// violation.
    Invalid { value: i32 },
}

/// The meaning of each status integer: 0 continues, 1 stops this session,
/// 2 stops all sessions, and every other value is invalid.
pub open spec fn status_decision(value: i32) -> StatusDecision {
    if value == STATUS_CONTINUE {
        StatusDecision::Continue
    } else if value == STATUS_STOP {
        StatusDecision::Stop { reason: StopReason::ExplicitStop }
    } else if value == STATUS_STOP_ALL {
        StatusDecision::Stop { reason: StopReason::ExplicitStopAll }
    } else {
        StatusDecision::Invalid { value }
    }
}

/// Resolve a handler's returned status integer against the three valid
/// codes.
pub fn interpret_status(value: i32) -> (r: StatusDecision)
    ensures
        r == status_decision(value),
        value == STATUS_CONTINUE ==> r == StatusDecision::Continue,
        value == STATUS_STOP ==> (r == StatusDecision::Stop {
            reason: StopReason::ExplicitStop,
        }),
        value == STATUS_STOP_ALL ==> (r == StatusDecision::Stop {
            reason: StopReason::ExplicitStopAll,
        }),
        value != STATUS_CONTINUE && value != STATUS_STOP && value != STATUS_STOP_ALL ==> (r
            == StatusDecision::Invalid { value }),
{
    if value == STATUS_CONTINUE {
        StatusDecision::Continue
    } else if value == STATUS_STOP {
        StatusDecision::Stop { reason: StopReason::ExplicitStop }
    } else if value == STATUS_STOP_ALL {
        StatusDecision::Stop { reason: StopReason::ExplicitStopAll }
    } else {
        StatusDecision::Invalid { value }
    }
}

} // verus!
