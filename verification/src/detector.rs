//! Change detection for the polling loop.
//!
//! The detector owns the one piece of memory in the device: the last report
//! whose value was observed. Each polling cycle hands it a freshly sampled
//! report; the detector compares packed bytes with exact equality and
//! reports `Changed` exactly when a difference first appears. There is no
//! debouncing: a single noisy transition counts as a real change.

use vstd::prelude::*;

use crate::report::ButtonBoxHidReport;

verus! {

/// The outcome of one polling cycle.
#[derive(Debug, Clone, Copy, PartialEq, Eq, Structural)]
pub enum ChangeOutcome {
    /// The sample equals the retained report; nothing needs to be sent.
    Unchanged,
    /// The sample differs from the retained report; this report is due on
    /// the wire.
    Changed(ButtonBoxHidReport),
}

/// The report retained after polling with `sample` while `last` was held:
/// `sample` exactly when the packed bytes differ, otherwise `last`.
pub open spec fn spec_retained_after(
    last: ButtonBoxHidReport,
    sample: ButtonBoxHidReport,
) -> ButtonBoxHidReport {
    if sample.buttons == last.buttons {
        last
    } else {
        sample
    }
}

/// The outcome of polling with `sample` while `last` was held.
pub open spec fn spec_poll_outcome(
    last: ButtonBoxHidReport,
    sample: ButtonBoxHidReport,
) -> ChangeOutcome {
    if sample.buttons == last.buttons {
        ChangeOutcome::Unchanged
    } else {
        ChangeOutcome::Changed(sample)
    }
}

/// The report retained after polling `n` times in a row with the same
/// `sample`, starting from `last`.
pub open spec fn spec_retained_after_n(
    last: ButtonBoxHidReport,
    sample: ButtonBoxHidReport,
    n: nat,
) -> ButtonBoxHidReport
    decreases n,
{
    if n == 0 {
        last
    } else {
        spec_retained_after(spec_retained_after_n(last, sample, (n - 1) as nat), sample)
    }
}

/// Holds the last observed report and decides, per polling cycle, whether a
/// freshly sampled report warrants a transmission.
pub struct ChangeDetector {
    last_report: ButtonBoxHidReport,
}

impl ChangeDetector {
    /// The retained report: the most recent sample that differed, or the
    /// both-released report from construction if none ever did.
    pub closed spec fn last(self) -> ButtonBoxHidReport {
        self.last_report
    }

    /// Whether the retained report is well formed.
    pub open spec fn wf(self) -> bool {
        self.last().wf()
    }

    /// Create a detector whose retained report has both buttons released.
    pub fn new() -> (detector: Self)
        ensures
            detector.last().buttons == 0,
            detector.wf(),
    {
        Self { last_report: ButtonBoxHidReport::new() }
    }

    /// Compare a freshly sampled report against the retained one.
    ///
    /// If the packed bytes differ, the retained report is overwritten with
    /// the sample and `Changed(sample)` is returned; if they are identical,
    /// the retained report is left untouched and `Unchanged` is returned.
    pub fn poll(&mut self, sample: ButtonBoxHidReport) -> (outcome: ChangeOutcome)
        ensures
            outcome == spec_poll_outcome(old(self).last(), sample),
            final(self).last() == spec_retained_after(old(self).last(), sample),
            outcome is Unchanged <==> sample.buttons == old(self).last().buttons,
            old(self).wf() && sample.wf() ==> final(self).wf(),
    {
        if sample.buttons != self.last_report.buttons {
            self.last_report = sample;
            ChangeOutcome::Changed(sample)
        } else {
            ChangeOutcome::Unchanged
        }
    }

    /// Get the retained report.
    pub fn get_report(&self) -> (report: ButtonBoxHidReport)
        ensures
            report == self.last(),
    {
        self.last_report
    }
}

/// Idempotence: polling with a sample equal to the retained report returns
/// `Unchanged` and leaves the retained report exactly as it was.
pub proof fn lemma_poll_idempotent(last: ButtonBoxHidReport)
    ensures
        spec_poll_outcome(last, last) == ChangeOutcome::Unchanged,
        spec_retained_after(last, last) == last,
{
}

/// Idempotence, repeated: however many times in a row the retained report
/// itself is polled, the retained report never moves, and every one of
/// those polls returns `Unchanged`.
pub proof fn lemma_poll_idempotent_repeated(last: ButtonBoxHidReport, n: nat)
    ensures
        spec_retained_after_n(last, last, n) == last,
        spec_poll_outcome(spec_retained_after_n(last, last, n), last) == ChangeOutcome::Unchanged,
    decreases n,
{
    if n > 0 {
        lemma_poll_idempotent_repeated(last, (n - 1) as nat);
    }
}

} // verus!
