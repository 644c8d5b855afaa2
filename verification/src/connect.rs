use vstd::prelude::*;

use crate::options::OptClientConnect;

verus! {

/// What one dial attempt by the external connector produced.
///
/// The connector either fails, or succeeds carrying an optional endpoint.
/// Endpoints are identified here by plain handles chosen by the runtime that
/// performs the dial.
#[derive(Clone, Copy, Debug, PartialEq, Eq, Structural)]
pub enum DialOutcome {
    /// The dial succeeded and returned an endpoint.
    Established(u64),
    /// The dial succeeded but returned no endpoint.
    NoEndpoint,
    /// The dial failed.
    Failed,
}

/// The retry loop of one `connect` call, as a step machine.
///
/// The runtime drives it: while `should_dial` holds it asks the connector for
/// an endpoint and records the outcome with `record_dial`; after a failed
/// attempt it waits `retry_wait_ms` milliseconds before checking again.  A
/// successful dial ends the loop at once; a failed one consumes one unit of a
/// bounded budget.  `retry_max == 0` means the budget is unbounded.
pub struct ConnectTask {
    /// The retry budget this loop was started with; `0` means unbounded.
    pub retry_max: u64,
    /// Dial attempts still allowed; unused (always `0`) when unbounded.
    pub remaining: u64,
    /// Dial attempts made so far.
    pub attempts: u64,
    /// Whether a dial succeeded and ended the loop.
    pub finished: bool,
    /// The endpoint a successful dial returned, if any.
    pub endpoint: Option<u64>,
    /// Fixed wait in milliseconds after a failed attempt.
    pub retry_wait_ms: u64,
}

impl ConnectTask {
    /// The loop still owes the connector a dial attempt.
    pub open spec fn can_dial(self) -> bool {
        !self.finished && (self.retry_max == 0 || self.remaining > 0)
    }

    /// Well-formedness: while a bounded loop runs, its budget splits exactly
    /// into attempts made and attempts remaining; once it finishes, at most
    /// the whole budget was spent; an unbounded loop keeps no remainder; and
    /// only a finished loop can hold an endpoint.
    pub open spec fn wf(self) -> bool {
        &&& self.retry_max != 0 && !self.finished ==> self.attempts + self.remaining
            == self.retry_max
        &&& self.retry_max != 0 && self.finished ==> self.attempts <= self.retry_max
        &&& self.retry_max == 0 ==> self.remaining == 0
        &&& !self.finished ==> self.endpoint is None
    }

    /// Start the retry loop of one `connect` call.
    pub fn new(opt: &OptClientConnect) -> (r: Self)
        ensures
            r.wf(),
            r.retry_max == opt.retry_max,
            r.retry_wait_ms == opt.retry_wait_ms,
            r.attempts == 0,
            r.remaining == opt.retry_max,
            !r.finished,
            r.endpoint is None,
            r.can_dial(),
    {
        ConnectTask {
            retry_max: opt.retry_max,
            remaining: opt.retry_max,
            attempts: 0,
            finished: false,
            endpoint: None,
            retry_wait_ms: opt.retry_wait_ms,
        }
    }

    /// Whether the runtime must make another dial attempt.
    pub fn should_dial(&self) -> (r: bool)
        ensures
            r == self.can_dial(),
    {
        !self.finished && (self.retry_max == 0 || self.remaining > 0)
    }

    /// Record the result of one dial attempt.
    ///
    /// A successful dial (with or without an endpoint) ends the loop at once,
    /// so no further attempt follows it.  A failed dial leaves the loop
    /// running and consumes one unit of a bounded budget; the runtime then
    /// waits `retry_wait_ms` milliseconds before checking `should_dial`.
    pub fn record_dial(&mut self, outcome: DialOutcome)
        requires
            old(self).wf(),
            old(self).can_dial(),
            old(self).retry_max == 0 ==> old(self).attempts < u64::MAX,
        ensures
            final(self).wf(),
            final(self).retry_max == old(self).retry_max,
            final(self).retry_wait_ms == old(self).retry_wait_ms,
            final(self).attempts == old(self).attempts + 1,
            !(outcome is Failed) ==> {
                &&& final(self).finished
                &&& !final(self).can_dial()
                &&& final(self).remaining == old(self).remaining
            },
            outcome matches DialOutcome::Established(e) ==> final(self).endpoint == Some(e),
            outcome is NoEndpoint ==> final(self).endpoint is None,
            outcome is Failed ==> {
                &&& !final(self).finished
                &&& final(self).endpoint is None
                &&& final(self).remaining == if old(self).remaining > 0 {
                    (old(self).remaining - 1) as u64
                } else {
                    0u64
                }
                &&& (final(self).can_dial() <==> (old(self).retry_max == 0
                    || old(self).remaining > 1))
            },
    {
        self.attempts = self.attempts + 1;
        match outcome {
            DialOutcome::Established(e) => {
                self.finished = true;
                self.endpoint = Some(e);
            }
            DialOutcome::NoEndpoint => {
                self.finished = true;
            }
            DialOutcome::Failed => {
                if self.remaining > 0 {
                    self.remaining = self.remaining - 1;
                }
            }
        }
    }
}

/// With a bounded retry budget `retry_max = N > 0`, no run of the loop makes
/// more than `N` dial attempts: every well-formed state that still admits a
/// dial has made fewer than `N`, and no well-formed state exceeds `N`.
pub proof fn lemma_bounded_budget_limits_attempts(t: ConnectTask)
    requires
        t.wf(),
        t.retry_max != 0,
    ensures
        t.attempts <= t.retry_max,
        t.can_dial() ==> t.attempts < t.retry_max,
{
}

/// A bounded loop that has not yet seen a successful dial spends exactly its
/// whole budget: it keeps dialing while fewer than `retry_max` attempts were
/// made, and once it stops, exactly `retry_max` attempts were made.  Against
/// a connector that always fails, `connect(opt)` with `opt.retry_max = N > 0`
/// therefore makes exactly `N` dial attempts.
pub proof fn lemma_failing_loop_spends_exactly_the_budget(t: ConnectTask)
    requires
        t.wf(),
        t.retry_max != 0,
        !t.finished,
    ensures
        t.can_dial() <==> t.attempts < t.retry_max,
        !t.can_dial() ==> t.attempts == t.retry_max,
{
}

/// With an unbounded budget (`retry_max == 0`) a loop that has not yet seen
/// a successful dial always dials again: against a connector that always
/// fails, the loop never finishes on its own.
pub proof fn lemma_unbounded_budget_never_exhausts(t: ConnectTask)
    requires
        t.wf(),
        t.retry_max == 0,
        !t.finished,
    ensures
        t.can_dial(),
{
}

} // verus!
