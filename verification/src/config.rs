//! Run configuration: the parameters the simulation driver is started with,
//! and their validation.
//!
//! The box edge length and the timestep are floating-point quantities owned
//! by the unverified front end; the validator receives the one fact the
//! rules read of them — whether each is strictly positive — as a boolean,
//! together with the integer parameters in full.

use vstd::prelude::*;

verus! {

/// Boundary handling for the run: wrap coordinates back into the box before
/// force evaluation, or reflect them off the walls after integration.
#[derive(Clone, Copy, Debug, PartialEq, Eq, Structural)]
pub enum BoundaryPolicy {
    Periodic,
    Reflective,
}

/// Whether the per-particle stages of a step run on one thread or are
/// partitioned over a worker pool.
#[derive(Clone, Copy, Debug, PartialEq, Eq, Structural)]
pub enum ExecMode {
    Sequential,
    Parallel,
}

/// Why a configuration was rejected before any simulation state existed.
#[derive(Clone, Copy, Debug, PartialEq, Eq, Structural)]
pub enum ConfigError {
    NonPositiveBoxLength,
    TooFewAtoms,
    NonPositiveTimestep,
    ZeroSnapshotInterval,
}

/// A validated run configuration.  The float parameters (box length,
/// timestep, and for thermostat runs the target temperature and coupling
/// constant) stay with the unverified front end; the driver decides with
/// these fields alone.
#[derive(Clone, Copy, Debug, PartialEq, Eq, Structural)]
pub struct SimConfig {
    pub num_atoms: usize,
    pub total_steps: usize,
    pub snapshot_interval: usize,
    pub boundary: BoundaryPolicy,
    pub thermostat: bool,
    pub mode: ExecMode,
}

impl SimConfig {
    /// What validation establishes: at least two particles, and a positive
    /// snapshot cadence.
    pub open spec fn wf(self) -> bool {
        &&& self.num_atoms >= 2
        &&& self.snapshot_interval >= 1
    }
}

/// Checks a proposed configuration before any simulation state is
/// allocated.  The defects are reported in a fixed order — box length,
/// then particle count, then timestep, then snapshot interval — and the
/// function returns the validated configuration
/// exactly when the box length and timestep are positive, at least two
/// particles are asked for, and the snapshot interval is nonzero.
pub fn validate_config(
    box_length_positive: bool,
    timestep_positive: bool,
    num_atoms: usize,
    total_steps: usize,
    snapshot_interval: usize,
    boundary: BoundaryPolicy,
    thermostat: bool,
    mode: ExecMode,
) -> (r: Result<SimConfig, ConfigError>)
    ensures
        !box_length_positive ==> r == Result::<SimConfig, ConfigError>::Err(
            ConfigError::NonPositiveBoxLength,
        ),
        box_length_positive && num_atoms < 2 ==> r == Result::<SimConfig, ConfigError>::Err(
            ConfigError::TooFewAtoms,
        ),
        box_length_positive && num_atoms >= 2 && !timestep_positive ==> r == Result::<
            SimConfig,
            ConfigError,
        >::Err(ConfigError::NonPositiveTimestep),
        box_length_positive && num_atoms >= 2 && timestep_positive && snapshot_interval == 0 ==> r
            == Result::<SimConfig, ConfigError>::Err(ConfigError::ZeroSnapshotInterval),
        box_length_positive && num_atoms >= 2 && timestep_positive && snapshot_interval >= 1 ==> r
            == Result::<SimConfig, ConfigError>::Ok(
            SimConfig {
                num_atoms,
                total_steps,
                snapshot_interval,
                boundary,
                thermostat,
                mode,
            },
        ),
        r matches Ok(c) ==> c.wf(),
{
    if !box_length_positive {
        Err(ConfigError::NonPositiveBoxLength)
    } else if num_atoms < 2 {
        Err(ConfigError::TooFewAtoms)
    } else if !timestep_positive {
        Err(ConfigError::NonPositiveTimestep)
    } else if snapshot_interval == 0 {
        Err(ConfigError::ZeroSnapshotInterval)
    } else {
        Ok(
            SimConfig {
                num_atoms,
                total_steps,
                snapshot_interval,
                boundary,
                thermostat,
                mode,
            },
        )
    }
}

} // verus!
