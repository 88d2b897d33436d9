//! Runs of progress transitions: how the value moves under successive polls, and
//! how often a run raises the completion signal.
use crate::progress::{
    advance_report, after_advance, after_complete, after_set, after_signal, elapsed_share,
    polled_value, raised, set_raises, ticking, Advance, ProgressState, ProgressView, SignalHandle,
};
use vstd::prelude::*;

verus! {

/// A transition that neither starts nor resets the progress.
#[derive(Clone, Copy, Debug, PartialEq, Eq, Structural)]
pub enum ProgressStep {
    /// A poll at the given number of milliseconds since the timer started.
    Poll(u64),
    /// The value is set.
    SetValue(u64),
    /// The progress is completed.
    Complete,
    /// The signal is tried.
    Signal,
}

/// `v` after `step`.
pub open spec fn after_step(v: ProgressView, step: ProgressStep) -> ProgressView {
    match step {
        ProgressStep::Poll(elapsed) => after_advance(v, elapsed),
        ProgressStep::SetValue(value) => after_set(v, value),
        ProgressStep::Complete => after_complete(v),
        ProgressStep::Signal => after_signal(v),
    }
}

/// The listener that `step` has the caller notify in `v`.
pub open spec fn step_raises(v: ProgressView, step: ProgressStep) -> Option<SignalHandle> {
    match step {
        ProgressStep::Poll(elapsed) => advance_report(v, elapsed).fired,
        ProgressStep::SetValue(value) => set_raises(v, value),
        ProgressStep::Complete => raised(v),
        ProgressStep::Signal => raised(v),
    }
}

/// `v` after all of `steps`, first to last.
pub open spec fn after_run(v: ProgressView, steps: Seq<ProgressStep>) -> ProgressView
    decreases steps.len(),
{
    if steps.len() == 0 {
        v
    } else {
        after_step(after_run(v, steps.drop_last()), steps.last())
    }
}

/// Number of steps of the run that have the caller notify a listener.
pub open spec fn raise_count(v: ProgressView, steps: Seq<ProgressStep>) -> nat
    decreases steps.len(),
{
    if steps.len() == 0 {
        0
    } else {
        raise_count(v, steps.drop_last()) + if step_raises(
            after_run(v, steps.drop_last()),
            steps.last(),
        ) is Some {
            1nat
        } else {
            0nat
        }
    }
}

impl ProgressState {
    /// Performs one transition and returns the listener to notify, if any.
    pub fn apply(&mut self, step: ProgressStep) -> (fired: Option<SignalHandle>)
        requires
            old(self).wf(),
        ensures
            final(self).wf(),
            final(self)@ == after_step(old(self)@, step),
            fired == step_raises(old(self)@, step),
            final(self).started() == old(self).started(),
    {
        match step {
            ProgressStep::Poll(elapsed) => self.advance_by(elapsed).fired,
            ProgressStep::SetValue(value) => self.set(value),
            ProgressStep::Complete => self.complete(),
            ProgressStep::Signal => self.signal(),
        }
    }
}

/// A later reading of the clock covers no smaller a share of the duration.
pub proof fn lemma_share_monotone(e1: u64, e2: u64, duration: u64)
    requires
        e1 <= e2,
    ensures
        elapsed_share(e1, duration) <= elapsed_share(e2, duration),
{
    if duration != 0 && e2 < duration {
        let d = duration as int;
        let a = e1 as int * 1_000_000;
        let b = e2 as int * 1_000_000;
        assert(a / d <= b / d) by (nonlinear_arith)
            requires
                0 <= a <= b,
                d > 0,
        ;
        assert(b / d <= 1_000_000) by (nonlinear_arith)
            requires
                0 <= b <= d * 1_000_000,
                d > 0,
        ;
    } else if duration != 0 && e1 < duration {
        let d = duration as int;
        let a = e1 as int * 1_000_000;
        assert(a / d <= 1_000_000) by (nonlinear_arith)
            requires
                0 <= a <= d * 1_000_000,
                d > 0,
        ;
    }
}

/// While a progress is running on a timer, two polls in a row leave the value
/// after the second no lower than after the first, as long as the clock did not
/// run backwards between them.
pub proof fn lemma_advance_monotone(v: ProgressView, e1: u64, e2: u64)
    requires
        ticking(v),
        e1 <= e2,
    ensures
        ticking(after_advance(v, e1)),
        after_advance(v, e1).value <= after_advance(after_advance(v, e1), e2).value,
{
    lemma_share_monotone(e1, e2, v.duration);
    let first = after_advance(v, e1);
    assert(polled_value(v, e1) >= v.max ==> first.value == v.max);
}

/// A progress that is not running, or has no timer, is left as it is by a
/// poll: its value is frozen whatever the clock says.
pub proof fn lemma_poll_leaves_stopped(v: ProgressView, elapsed: u64)
    requires
        !v.running || !v.timed,
    ensures
        after_advance(v, elapsed) == v,
        advance_report(v, elapsed) == (Advance { completed: false, fired: None }),
{
}

/// Once the completion was reported, no step of a run reports it again.
pub proof fn lemma_signaled_run_is_silent(v: ProgressView, steps: Seq<ProgressStep>)
    requires
        v.signaled,
    ensures
        after_run(v, steps).signaled,
        raise_count(v, steps) == 0,
    decreases steps.len(),
{
    if steps.len() > 0 {
        lemma_signaled_run_is_silent(v, steps.drop_last());
    }
}

/// However a run of polls, sets, completions and signal attempts goes, it asks
/// the caller to notify a listener at most once, and only a started or reset
/// progress can ask again. After the one request the completion counts as
/// reported.
pub proof fn lemma_signal_raised_once(v: ProgressView, steps: Seq<ProgressStep>)
    ensures
        raise_count(v, steps) <= 1,
        raise_count(v, steps) == 1 ==> after_run(v, steps).signaled,
    decreases steps.len(),
{
    if steps.len() > 0 {
        let front = steps.drop_last();
        lemma_signal_raised_once(v, front);
        if after_run(v, front).signaled {
            assert(step_raises(after_run(v, front), steps.last()) is None);
        }
    }
}

} // verus!
