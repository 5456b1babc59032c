//! The simulation driver: the state machine that carries a run from
//! initialization through exactly `total_steps` pipeline steps to the
//! finalized output, telling the unverified numerical kernel what to do at
//! each step and keeping the ledger of which steps were snapshotted.

use crate::config::BoundaryPolicy;
use crate::config::SimConfig;
use crate::schedule::is_snapshot_step;
use crate::schedule::lemma_snapshot_count_next;
use crate::schedule::spec_is_snapshot_step;
use crate::schedule::spec_snapshot_count;
use vstd::prelude::*;

verus! {

/// Where a run stands: sampling initial conditions, marching steps,
/// packaging the output, or finished.  `Done` is terminal; a fresh driver
/// is required per run.
#[derive(Clone, Copy, Debug, PartialEq, Eq, Structural)]
pub enum Phase {
    Initializing,
    Stepping,
    Finalizing,
    Done,
}

/// What the per-step pipeline does at one step, in pipeline order: wrap
/// positions into the box before force evaluation (periodic runs), reflect
/// new positions off the walls after integration and before velocities are
/// derived (reflective runs), rescale velocities toward the target
/// temperature, and record a snapshot of the pre-step positions.
#[derive(Clone, Copy, Debug, PartialEq, Eq, Structural)]
pub struct StepActions {
    pub wrap_before_forces: bool,
    pub reflect_after_integration: bool,
    pub apply_thermostat: bool,
    pub record_snapshot: bool,
}

/// The actions step `step` of a run under `config` consists of: the two
/// boundary passes are exclusive and fixed by the boundary policy, the
/// thermostat runs on every step of a thermostat run, and a snapshot is
/// recorded exactly at multiples of the snapshot interval.
pub open spec fn spec_step_actions(config: SimConfig, step: nat) -> StepActions {
    StepActions {
        wrap_before_forces: config.boundary is Periodic,
        reflect_after_integration: config.boundary is Reflective,
        apply_thermostat: config.thermostat,
        record_snapshot: spec_is_snapshot_step(step, config.snapshot_interval as nat),
    }
}

/// Computes the pipeline actions of step `step` under `config`.
pub fn step_actions(config: &SimConfig, step: usize) -> (r: StepActions)
    requires
        config.wf(),
    ensures
        r == spec_step_actions(*config, step as nat),
{
    StepActions {
        wrap_before_forces: config.boundary == BoundaryPolicy::Periodic,
        reflect_after_integration: config.boundary == BoundaryPolicy::Reflective,
        apply_thermostat: config.thermostat,
        record_snapshot: is_snapshot_step(step, config.snapshot_interval),
    }
}

/// The driver of one run.  It owns no coordinates: the caller holds the
/// float state and performs the actions the driver hands out, while the
/// driver fixes their order, counts the steps, and records the snapshot
/// ledger.
pub struct Driver {
    pub config: SimConfig,
    pub phase: Phase,
    pub step: usize,
    pub recorded_steps: Vec<usize>,
}

impl Driver {
    /// The snapshot ledger is the schedule prefix for the steps marched so
    /// far: one entry per multiple of the snapshot interval below `step`,
    /// in order, entry `m` at step `m * interval`.
    pub open spec fn recorded_ok(self) -> bool {
        &&& self.recorded_steps@.len() == spec_snapshot_count(
            self.step as nat,
            self.config.snapshot_interval as nat,
        )
        &&& forall|m: int|
            0 <= m < self.recorded_steps@.len() ==> #[trigger] self.recorded_steps@[m] == m
                * self.config.snapshot_interval
    }

    /// Well-formedness, established by `new` and preserved by every
    /// method: a valid configuration, a step counter that never passes
    /// `total_steps`, a snapshot ledger that matches the schedule, a run
    /// that has not started while initializing, and a completed step count
    /// once finalizing begins.
    pub open spec fn wf(self) -> bool {
        &&& self.config.wf()
        &&& self.step <= self.config.total_steps
        &&& self.recorded_ok()
        &&& (self.phase is Initializing ==> self.step == 0)
        &&& (self.phase is Finalizing || self.phase is Done ==> self.step
            == self.config.total_steps)
    }

    /// A fresh driver for one run: initializing, at step 0, with an empty
    /// snapshot ledger.
    pub fn new(config: SimConfig) -> (d: Driver)
        requires
            config.wf(),
        ensures
            d.wf(),
            d.config == config,
            d.phase is Initializing,
            d.step == 0,
            d.recorded_steps@.len() == 0,
    {
        proof {
            vstd::arithmetic::div_mod::lemma_basic_div(
                config.snapshot_interval - 1,
                config.snapshot_interval as int,
            );
        }
        Driver { config, phase: Phase::Initializing, step: 0, recorded_steps: Vec::new() }
    }

    /// Ends initialization: the caller has sampled initial positions and
    /// velocities and set `positions_old = positions_current`; the run now
    /// marches steps.
    pub fn begin_stepping(&mut self)
        requires
            old(self).wf(),
            old(self).phase is Initializing,
        ensures
            final(self).wf(),
            final(self).phase is Stepping,
            final(self).config == old(self).config,
            final(self).step == 0,
            final(self).recorded_steps == old(self).recorded_steps,
    {
        self.phase = Phase::Stepping;
    }

    /// Marches the run by one step.  While steps remain it returns the
    /// actions of the current step, enters that step in the snapshot
    /// ledger when the step is a snapshot step, and advances the counter;
    /// after the last step it moves to finalizing and returns nothing.
    /// The caller performs the returned actions on the float state in
    /// pipeline order before calling again.
    pub fn advance(&mut self) -> (r: Option<StepActions>)
        requires
            old(self).wf(),
            old(self).phase is Stepping,
        ensures
            final(self).wf(),
            final(self).config == old(self).config,
            old(self).step < old(self).config.total_steps ==> {
                &&& final(self).phase is Stepping
                &&& final(self).step == old(self).step + 1
                &&& r == Some(spec_step_actions(old(self).config, old(self).step as nat))
                &&& (spec_is_snapshot_step(
                    old(self).step as nat,
                    old(self).config.snapshot_interval as nat,
                ) ==> final(self).recorded_steps@ == old(self).recorded_steps@.push(old(self).step))
                &&& (!spec_is_snapshot_step(
                    old(self).step as nat,
                    old(self).config.snapshot_interval as nat,
                ) ==> final(self).recorded_steps@ == old(self).recorded_steps@)
            },
            old(self).step == old(self).config.total_steps ==> {
                &&& final(self).phase is Finalizing
                &&& final(self).step == old(self).step
                &&& r is None
                &&& final(self).recorded_steps@ == old(self).recorded_steps@
            },
    {
        if self.step < self.config.total_steps {
            let acts = step_actions(&self.config, self.step);
            proof {
                lemma_snapshot_count_next(
                    self.step as nat,
                    self.config.snapshot_interval as nat,
                );
            }
            if acts.record_snapshot {
                self.recorded_steps.push(self.step);
            }
            self.step = self.step + 1;
            Some(acts)
        } else {
            self.phase = Phase::Finalizing;
            None
        }
    }

    /// Ends the run: the caller has packaged the parameters and the
    /// trajectory into the output record; the driver is spent.
    pub fn finish(&mut self)
        requires
            old(self).wf(),
            old(self).phase is Finalizing,
        ensures
            final(self).wf(),
            final(self).phase is Done,
            final(self).config == old(self).config,
            final(self).step == old(self).step,
            final(self).recorded_steps == old(self).recorded_steps,
    {
        self.phase = Phase::Done;
    }
}

/// The driver protocol run to completion on its own, with no numerical
/// kernel attached: initialization, exactly `total_steps` advances, one
/// closing advance into finalizing, and the finish.  Verifying this loop
/// shows the protocol terminates, that stepping ends only when the step
/// counter has marched monotonically from 0 to `total_steps`, and that the
/// driver then stands done with the snapshot ledger filled.
pub fn run_control_loop(config: SimConfig) -> (d: Driver)
    requires
        config.wf(),
    ensures
        d.wf(),
        d.config == config,
        d.phase is Done,
        d.step == config.total_steps,
{
    let mut d = Driver::new(config);
    d.begin_stepping();
    while d.step < d.config.total_steps
        invariant
            d.wf(),
            d.phase is Stepping,
            d.config == config,
        decreases d.config.total_steps - d.step,
    {
        let _ = d.advance();
    }
    let _ = d.advance();
    d.finish();
    d
}

/// Trajectory-length law: once stepping has completed, the snapshot ledger
/// holds exactly `ceil(total_steps / snapshot_interval)` entries, and the
/// `m`-th snapshot was taken at step `m * snapshot_interval` — for a run of
/// 1000 steps sampled every 100, the ten steps 0, 100, ..., 900.
pub proof fn lemma_trajectory_schedule(d: Driver)
    requires
        d.wf(),
        d.phase is Finalizing || d.phase is Done,
    ensures
        d.recorded_steps@.len() == spec_snapshot_count(
            d.config.total_steps as nat,
            d.config.snapshot_interval as nat,
        ),
        forall|m: int|
            0 <= m < d.recorded_steps@.len() ==> #[trigger] d.recorded_steps@[m] == m
                * d.config.snapshot_interval,
{
}

} // verus!
