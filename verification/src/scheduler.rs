//! The run envelope.
//!
//! A run is: a best-effort purge (cancel everything open on the symbol),
//! the ticking loop, and a second best-effort purge — so nothing orphaned
//! survives the run whatever state the controller ended in. The wall clock
//! and the calls live with the caller; this machine fixes the order of the
//! steps, that a failed purge never blocks the run, and that a fatal tick
//! is remembered for the process's exit signal.

use vstd::prelude::*;

use crate::controller::StepOutcome;

verus! {

/// Where the run stands in its envelope.
#[derive(Clone, Copy, PartialEq, Eq, Structural, Debug)]
pub enum CyclePhase {
    /// Before the first tick: clear anything a previous run left open.
    StartPurge,
    /// The ticking loop.
    Running,
    /// After the loop: clear anything still open, however the loop ended.
    EndPurge,
    /// The envelope is complete.
    Done,
}

/// What the scheduler asks the process to do next.
#[derive(Clone, Copy, PartialEq, Eq, Structural, Debug)]
pub enum SchedulerStep {
    /// Issue a cancel-all for the symbol and report back.
    Purge,
    /// Run one controller tick, then wait out the interval.
    RunTick,
    /// Exit — with a failure signal when a tick was fatal.
    Stop,
}

/// Drives one run from first purge to exit.
pub struct CycleScheduler {
    pub phase: CyclePhase,
    /// Seconds between ticks, for the caller's clock.
    pub interval_secs: u64,
    /// Whether a tick ended fatally; decides the exit signal.
    pub fatal: bool,
}

impl CycleScheduler {
    pub fn new(interval_secs: u64) -> (s: Self)
        ensures
            s.phase == CyclePhase::StartPurge,
            s.interval_secs == interval_secs,
            !s.fatal,
    {
        CycleScheduler { phase: CyclePhase::StartPurge, interval_secs, fatal: false }
    }

    /// The next step of the envelope, a pure read of the phase.
    pub fn next_step(&self) -> (st: SchedulerStep)
        ensures
            self.phase == CyclePhase::StartPurge ==> st == SchedulerStep::Purge,
            self.phase == CyclePhase::EndPurge ==> st == SchedulerStep::Purge,
            self.phase == CyclePhase::Running ==> st == SchedulerStep::RunTick,
            self.phase == CyclePhase::Done ==> st == SchedulerStep::Stop,
    {
        match self.phase {
            CyclePhase::StartPurge => SchedulerStep::Purge,
            CyclePhase::Running => SchedulerStep::RunTick,
            CyclePhase::EndPurge => SchedulerStep::Purge,
            CyclePhase::Done => SchedulerStep::Stop,
        }
    }

    /// A purge came back. The run proceeds whether it succeeded or not:
    /// purges are best-effort cleanup and the exchange stays authoritative,
    /// so a failure is only logged by the caller.
    pub fn purge_finished(&mut self, ok: bool)
        requires
            old(self).phase == CyclePhase::StartPurge || old(self).phase == CyclePhase::EndPurge,
        ensures
            final(self).interval_secs == old(self).interval_secs,
            final(self).fatal == old(self).fatal,
            old(self).phase == CyclePhase::StartPurge ==> final(self).phase == CyclePhase::Running,
            old(self).phase == CyclePhase::EndPurge ==> final(self).phase == CyclePhase::Done,
    {
        let _ = ok;
        match self.phase {
            CyclePhase::StartPurge => {
                self.phase = CyclePhase::Running;
            },
            _ => {
                self.phase = CyclePhase::Done;
            },
        }
    }

    /// The ticking loop is over — the controller reached its terminal
    /// condition, or a tick was fatal. Either way the closing purge comes
    /// next; a fatal outcome is remembered for the exit signal.
    pub fn run_finished(&mut self, outcome: StepOutcome)
        requires
            old(self).phase == CyclePhase::Running,
        ensures
            final(self).phase == CyclePhase::EndPurge,
            final(self).interval_secs == old(self).interval_secs,
            final(self).fatal == (old(self).fatal || outcome == StepOutcome::Fatal),
    {
        if matches!(outcome, StepOutcome::Fatal) {
            self.fatal = true;
        }
        self.phase = CyclePhase::EndPurge;
    }
}

/// The open orders (by id) a purge leaves on the symbol: none — cancel-all
/// clears whatever was open.
pub open spec fn after_purge(open: Set<u64>) -> Set<u64> {
    Set::empty()
}

/// Law: a purge is idempotent, and on a symbol with no open orders it is a
/// no-op — purging an empty book hands the same empty book back.
pub proof fn lemma_purge_idempotent(open: Set<u64>)
    ensures
        after_purge(after_purge(open)) == after_purge(open),
        open == Set::<u64>::empty() ==> after_purge(open) == open,
{
}

} // verus!
