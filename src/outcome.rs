use vstd::prelude::*;

verus! {

/// The classified result of one probe of the target.
#[derive(Debug, Clone, Copy, PartialEq, Eq, Structural)]
pub enum ProbeOutcome {
    /// A response arrived with a status in the success class (200 to 299).
    Success,
    /// A response arrived with any other status.
    BadStatus,
    /// No response arrived: connection, name resolution or timeout error.
    TransportFailure,
}

/// Whether an HTTP status code belongs to the success class.
pub open spec fn is_success_status(code: u16) -> bool {
    200 <= code && code <= 299
}

/// What a probe that ended with `reply` amounts to, where `reply` is the
/// status of the response or `None` when no response arrived.
pub open spec fn outcome_of(reply: Option<u16>) -> ProbeOutcome {
    match reply {
        None => ProbeOutcome::TransportFailure,
        Some(code) => if is_success_status(code) {
            ProbeOutcome::Success
        } else {
            ProbeOutcome::BadStatus
        },
    }
}

/// Classifies the result of a probe: the status of the response that came
/// back, or `None` where the request failed before any status arrived.
pub fn classify(reply: Option<u16>) -> (r: ProbeOutcome)
    ensures
        r == outcome_of(reply),
{
    match reply {
        None => ProbeOutcome::TransportFailure,
        Some(code) => if 200 <= code && code <= 299 {
            ProbeOutcome::Success
        } else {
            ProbeOutcome::BadStatus
        },
    }
}

} // verus!
