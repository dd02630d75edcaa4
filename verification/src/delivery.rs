//! Classification of one HTTP delivery attempt.
//!
//! The transport reports each attempt as a status code or a transport-level
//! failure; classification decides whether the record was delivered or the
//! attempt must be retried.  Statuses from 200 up to but not including 400
//! count as delivered; every other status, and every transport failure, is
//! retryable.  Client errors (400–499) are retried like the rest: the retry
//! budget is spent on them uniformly rather than cutting them short.

use vstd::prelude::*;

verus! {

/// What the transport reports for one delivery attempt: the response's
/// status code, or a failure below HTTP (connection refused, timeout).
#[derive(Clone, Copy, Debug, PartialEq, Eq, Structural)]
pub enum AttemptResult {
    Status(u16),
    TransportError,
}

/// The classified outcome of one attempt.
#[derive(Clone, Copy, Debug, PartialEq, Eq, Structural)]
pub enum DeliveryOutcome {
    Success(u16),
    RetryableFailure(u16),
}

/// A status code that counts as a successful delivery.
pub open spec fn spec_is_success(status: u16) -> bool {
    200 <= status < 400
}

/// How one attempt's report is classified: a success status is final, every
/// other status is retryable, and a transport failure is retryable and
/// recorded as status 500.
pub open spec fn spec_classify(r: AttemptResult) -> DeliveryOutcome {
    match r {
        AttemptResult::Status(s) => if spec_is_success(s) {
            DeliveryOutcome::Success(s)
        } else {
            DeliveryOutcome::RetryableFailure(s)
        },
        AttemptResult::TransportError => DeliveryOutcome::RetryableFailure(500),
    }
}

/// Classifies one attempt's report.
pub fn classify(r: &AttemptResult) -> (o: DeliveryOutcome)
    ensures
        o == spec_classify(*r),
{
    match r {
        AttemptResult::Status(s) => {
            if 200 <= *s && *s < 400 {
                DeliveryOutcome::Success(*s)
            } else {
                DeliveryOutcome::RetryableFailure(*s)
            }
        },
        AttemptResult::TransportError => DeliveryOutcome::RetryableFailure(500),
    }
}

} // verus!
