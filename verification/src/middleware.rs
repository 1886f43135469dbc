use vstd::prelude::*;
use crate::configuration::Settings;
use crate::error::ApiError;

verus! {

/// Process-wide admission counter: how many requests are in flight, bounded
/// by the configured maximum. Initialized at process start, incremented on
/// admission, decremented when an admitted request finishes. A request that
/// arrives at capacity is shed immediately, never queued.
pub struct AdmissionGate {
    in_flight: usize,
    max_concurrent: usize,
}

impl AdmissionGate {
    /// Number of requests currently admitted and not yet finished.
    pub closed spec fn spec_in_flight(&self) -> usize {
        self.in_flight
    }

    /// The configured ceiling on in-flight requests.
    pub closed spec fn spec_capacity(&self) -> usize {
        self.max_concurrent
    }

    /// The invariant: in-flight count at most the maximum.
    pub open spec fn wf(&self) -> bool {
        self.spec_in_flight() <= self.spec_capacity()
    }

    pub fn new(max_concurrent: usize) -> (gate: Self)
        ensures
            gate.wf(),
            gate.spec_in_flight() == 0,
            gate.spec_capacity() == max_concurrent,
    {
        AdmissionGate { in_flight: 0, max_concurrent }
    }

    pub fn in_flight(&self) -> (n: usize)
        ensures
            n == self.spec_in_flight(),
    {
        self.in_flight
    }

    pub fn capacity(&self) -> (n: usize)
        ensures
            n == self.spec_capacity(),
    {
        self.max_concurrent
    }

    /// Admit the request when the counter is below the ceiling, shed it
    /// otherwise. A shed request has no effect on the counter.
    pub fn try_admit(&mut self) -> (admitted: bool)
        requires
            old(self).wf(),
        ensures
            final(self).wf(),
            admitted == (old(self).spec_in_flight() < old(self).spec_capacity()),
            final(self).spec_capacity() == old(self).spec_capacity(),
            admitted ==> final(self).spec_in_flight() == old(self).spec_in_flight() + 1,
            !admitted ==> *final(self) == *old(self),
    {
        if self.in_flight < self.max_concurrent {
            self.in_flight = self.in_flight + 1;
            true
        } else {
            false
        }
    }

    /// Called when an admitted request has completed, timed out or failed.
    pub fn release(&mut self)
        requires
            old(self).wf(),
            old(self).spec_in_flight() > 0,
        ensures
            final(self).wf(),
            final(self).spec_in_flight() == old(self).spec_in_flight() - 1,
            final(self).spec_capacity() == old(self).spec_capacity(),
    {
        self.in_flight = self.in_flight - 1;
    }
}

/// The admission control pipeline wrapped around the store's HTTP entry
/// points: the concurrency gate plus the per-request deadline, built once
/// from the configuration snapshot.
pub struct Pipeline {
    gate: AdmissionGate,
    request_timeout_s: u64,
}

impl Pipeline {
    pub closed spec fn spec_gate(&self) -> AdmissionGate {
        self.gate
    }

    /// The configured per-request deadline, in seconds.
    pub closed spec fn spec_timeout_s(&self) -> u64 {
        self.request_timeout_s
    }

    pub open spec fn wf(&self) -> bool {
        self.spec_gate().wf()
    }

    /// Build the pipeline from the process-wide counter and the configured
    /// deadline.
    pub fn new(gate: AdmissionGate, request_timeout_s: u64) -> (pipeline: Self)
        requires
            gate.wf(),
        ensures
            pipeline.wf(),
            pipeline.spec_gate() == gate,
            pipeline.spec_timeout_s() == request_timeout_s,
    {
        Pipeline { gate, request_timeout_s }
    }

    /// Build the pipeline directly from the configuration snapshot, with a
    /// fresh counter.
    pub fn from_settings(settings: &Settings) -> (pipeline: Self)
        ensures
            pipeline.wf(),
            pipeline.spec_gate().spec_in_flight() == 0,
            pipeline.spec_gate().spec_capacity() == settings.application.max_concurrent_requests,
            pipeline.spec_timeout_s() == settings.application.request_timeout_s,
    {
        let gate = AdmissionGate::new(settings.application.max_concurrent_requests);
        Pipeline::new(gate, settings.application.request_timeout_s)
    }

    pub fn in_flight(&self) -> (n: usize)
        ensures
            n == self.spec_gate().spec_in_flight(),
    {
        self.gate.in_flight()
    }

    /// The concurrency gate stage: either the request is admitted, or it is
    /// shed with the overload classification — distinct from a timeout, so
    /// callers know they may retry later.
    pub fn try_admit(&mut self) -> (r: Result<(), ApiError>)
        requires
            old(self).wf(),
        ensures
            final(self).wf(),
            final(self).spec_timeout_s() == old(self).spec_timeout_s(),
            final(self).spec_gate().spec_capacity() == old(self).spec_gate().spec_capacity(),
            (r is Ok) == (old(self).spec_gate().spec_in_flight()
                < old(self).spec_gate().spec_capacity()),
            r is Ok ==> final(self).spec_gate().spec_in_flight()
                == old(self).spec_gate().spec_in_flight() + 1,
            r is Err ==> r == Err::<(), ApiError>(ApiError::Overloaded) && *final(self) == *old(
                self,
            ),
    {
        if self.gate.try_admit() {
            Ok(())
        } else {
            Err(ApiError::Overloaded)
        }
    }

    /// Called when an admitted request has completed, timed out or failed;
    /// the counter decreases.
    pub fn finish(&mut self)
        requires
            old(self).wf(),
            old(self).spec_gate().spec_in_flight() > 0,
        ensures
            final(self).wf(),
            final(self).spec_timeout_s() == old(self).spec_timeout_s(),
            final(self).spec_gate().spec_capacity() == old(self).spec_gate().spec_capacity(),
            final(self).spec_gate().spec_in_flight() == old(self).spec_gate().spec_in_flight()
                - 1,
    {
        self.gate.release();
    }

    /// The timeout stage: a request whose handling has taken longer than the
    /// configured deadline is aborted with the timeout classification,
    /// distinct from an overload rejection.
    pub fn check_deadline(&self, elapsed_ms: u64) -> (r: Result<(), ApiError>)
        ensures
            (r is Ok) == (elapsed_ms as int <= self.spec_timeout_s() as int * 1000),
            r is Err ==> r == Err::<(), ApiError>(ApiError::TimedOut),
    {
        if (elapsed_ms as u128) <= (self.request_timeout_s as u128) * 1000 {
            Ok(())
        } else {
            Err(ApiError::TimedOut)
        }
    }
}

/// What the dispatch of an admitted request reported back to the pipeline
/// boundary when it did not produce a response of its own.
pub enum DispatchFailure {
    /// The deadline elapsed before the handler finished.
    DeadlineElapsed,
    /// The concurrency limit was reached and the request was shed.
    Overloaded,
    /// Any other failure surfaced during dispatch.
    Other,
}

/// Error classification at the pipeline boundary: map a failure reported by
/// the request-shaping stack to the three-way taxonomy, so low-level failures
/// never leak to callers unclassified.
pub fn classify_failure(failure: &DispatchFailure) -> (e: ApiError)
    ensures
        failure is DeadlineElapsed ==> e == ApiError::TimedOut,
        failure is Overloaded ==> e == ApiError::Overloaded,
        failure is Other ==> e == ApiError::Internal,
{
    match failure {
        DispatchFailure::DeadlineElapsed => ApiError::TimedOut,
        DispatchFailure::Overloaded => ApiError::Overloaded,
        DispatchFailure::Other => ApiError::Internal,
    }
}

/// Relies on uuid::Uuid::new_v4 and its Display rendering: a fresh random
/// identifier in the hyphenated form, 36 ASCII characters. Nothing more is
/// assumed of the value, since it is random.
#[verifier::external_body]
fn fresh_trace_id() -> (id: String)
    ensures
        id@.len() == 36,
{
    uuid::Uuid::new_v4().to_string()
}

/// The trace correlation stage: keep the identifier the caller supplied in
/// the trace header, or generate a fresh one when the header was absent or
/// unreadable. The identifier is only ever used for observability.
pub fn resolve_trace_id(header: Option<String>) -> (id: String)
    ensures
        (match header {
            Some(h) => id == h,
            None => id@.len() == 36,
        }),
{
    match header {
        Some(h) => h,
        None => fresh_trace_id(),
    }
}

} // verus!
