//! The ingestion handler's decision logic. A call is accounted the moment
//! it arrives; once the store settles the write, the outcome is counted,
//! the latency observed, and the caller answered — an empty reply on
//! success, an opaque internal failure status carrying the store's message
//! on failure. Request-scoped failures never end the process: the metric
//! set stays well-formed and the next call proceeds.
//!
//! The store write itself is a suspension point driven by the surrounding
//! process; it hands the outcome back here as a plain result.

use vstd::prelude::*;
use crate::error::Error;
use crate::metrics::{spec_observe_counts, MetricSet, metrics_wf};

verus! {

/// The empty reply of a successful call.
pub struct Empty {}

/// The failure status returned to the caller: an opaque human-readable
/// message, no structured code beyond "internal".
pub struct FailureStatus {
    message: String,
}

impl FailureStatus {
    /// The spec view: the carried message.
    pub closed spec fn view(&self) -> Seq<char> {
        self.message@
    }

    /// The human-readable message.
    pub fn message(&self) -> (r: &String)
        ensures
            r@ == self@,
    {
        &self.message
    }
}

/// Settles one pushed trade. On a successful write the succeeded counter
/// rises by one, the failed counter stands, and the caller gets the empty
/// reply; on a rejected write the failed counter rises by one, the
/// succeeded counter stands, and the caller gets a failure status carrying
/// the store's message. Either way the attempt already counted stays
/// counted once, and the call's latency is observed.
pub fn finish_push(metrics: &mut MetricSet, outcome: Result<(), Error>, latency_nanos: u64) -> (r:
    Result<Empty, FailureStatus>)
    requires
        metrics_wf(old(metrics)@),
        old(metrics)@.pending > 0,
    ensures
        metrics_wf(final (metrics)@),
        final (metrics)@.attempted == old(metrics)@.attempted,
        final (metrics)@.pending == old(metrics)@.pending - 1,
        outcome is Ok ==> {
            &&& r is Ok
            &&& final (metrics)@.succeeded == old(metrics)@.succeeded + 1
            &&& final (metrics)@.failed == old(metrics)@.failed
        },
        outcome matches Err(e) ==> {
            &&& (r matches Err(status) && status@ == e@)
            &&& final (metrics)@.succeeded == old(metrics)@.succeeded
            &&& final (metrics)@.failed == old(metrics)@.failed + 1
        },
        final (metrics)@.latency.bounds == old(metrics)@.latency.bounds,
        final (metrics)@.latency.count == old(metrics)@.latency.count + 1,
        final (metrics)@.latency.counts == spec_observe_counts(
            old(metrics)@.latency.bounds,
            old(metrics)@.latency.counts,
            latency_nanos,
        ),
    {
        match outcome {
            Ok(()) => {
                metrics.end_request(true, latency_nanos);
                Ok(Empty {  })
            },
            Err(e) => {
                metrics.end_request(false, latency_nanos);
                Err(FailureStatus { message: e.into_message() })
            },
        }
    }

/// The declared but unimplemented market-sync operation: the call is
/// accepted and answered with an empty success without consuming the
/// request stream. An explicit stub, kept so the wire surface stays whole.
pub fn sync_markets() -> (r: Result<Empty, FailureStatus>)
    ensures
        r is Ok,
{
    Ok(Empty {  })
}

} // verus!
