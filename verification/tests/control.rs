use ljmd::BoundaryPolicy;
use ljmd::ConfigError;
use ljmd::Driver;
use ljmd::ExecMode;
use ljmd::Phase;
use ljmd::interaction_pairs;
use ljmd::is_snapshot_step;
use ljmd::partner_indices;
use ljmd::snapshot_steps;
use ljmd::step_actions;
use ljmd::validate_config;

fn ok_config(
    num_atoms: usize,
    total_steps: usize,
    snapshot_interval: usize,
    boundary: BoundaryPolicy,
    thermostat: bool,
    mode: ExecMode,
) -> ljmd::SimConfig {
    validate_config(
        true,
        true,
        num_atoms,
        total_steps,
        snapshot_interval,
        boundary,
        thermostat,
        mode,
    )
    .expect("configuration should be accepted")
}

#[test]
fn accepts_well_formed_config() {
    let c = ok_config(2, 5, 2, BoundaryPolicy::Periodic, false, ExecMode::Sequential);
    assert_eq!(c.num_atoms, 2);
    assert_eq!(c.total_steps, 5);
    assert_eq!(c.snapshot_interval, 2);
    assert_eq!(c.boundary, BoundaryPolicy::Periodic);
    assert!(!c.thermostat);
    assert_eq!(c.mode, ExecMode::Sequential);
}

#[test]
fn rejects_non_positive_box_length() {
    let r = validate_config(
        false,
        true,
        10,
        100,
        10,
        BoundaryPolicy::Periodic,
        false,
        ExecMode::Sequential,
    );
    assert_eq!(r, Err(ConfigError::NonPositiveBoxLength));
}

#[test]
fn rejects_single_atom() {
    let r = validate_config(
        true,
        true,
        1,
        100,
        10,
        BoundaryPolicy::Periodic,
        false,
        ExecMode::Sequential,
    );
    assert_eq!(r, Err(ConfigError::TooFewAtoms));
}

#[test]
fn rejects_non_positive_timestep() {
    let r = validate_config(
        true,
        false,
        10,
        100,
        10,
        BoundaryPolicy::Reflective,
        true,
        ExecMode::Parallel,
    );
    assert_eq!(r, Err(ConfigError::NonPositiveTimestep));
}

#[test]
fn rejects_zero_snapshot_interval() {
    let r = validate_config(
        true,
        true,
        10,
        100,
        0,
        BoundaryPolicy::Periodic,
        false,
        ExecMode::Sequential,
    );
    assert_eq!(r, Err(ConfigError::ZeroSnapshotInterval));
}

#[test]
fn config_error_precedence() {
    // Several defects at once: the box length is reported first, then
    // the particle count, then the timestep.
    let r = validate_config(
        false,
        false,
        1,
        100,
        0,
        BoundaryPolicy::Periodic,
        false,
        ExecMode::Sequential,
    );
    assert_eq!(r, Err(ConfigError::NonPositiveBoxLength));
    let r = validate_config(
        true,
        false,
        1,
        100,
        0,
        BoundaryPolicy::Periodic,
        false,
        ExecMode::Sequential,
    );
    assert_eq!(r, Err(ConfigError::TooFewAtoms));
    let r = validate_config(
        true,
        false,
        2,
        100,
        0,
        BoundaryPolicy::Periodic,
        false,
        ExecMode::Sequential,
    );
    assert_eq!(r, Err(ConfigError::NonPositiveTimestep));
}

#[test]
fn snapshot_step_test() {
    assert!(is_snapshot_step(0, 100));
    assert!(is_snapshot_step(300, 100));
    assert!(!is_snapshot_step(301, 100));
    assert!(is_snapshot_step(7, 1));
}

#[test]
fn snapshot_schedule_thousand_steps() {
    // A 1000-step run sampled every 100 steps snapshots exactly the ten
    // steps 0, 100, ..., 900.
    let v = snapshot_steps(1000, 100);
    let expected: Vec<usize> = (0..10).map(|m| m * 100).collect();
    assert_eq!(v, expected);
}

#[test]
fn snapshot_schedule_edges() {
    assert_eq!(snapshot_steps(0, 5), Vec::<usize>::new());
    assert_eq!(snapshot_steps(4, 1), vec![0, 1, 2, 3]);
    assert_eq!(snapshot_steps(5, 10), vec![0]);
    assert_eq!(snapshot_steps(10, 3), vec![0, 3, 6, 9]);
    assert_eq!(snapshot_steps(9, 3), vec![0, 3, 6]);
}

#[test]
fn pair_listing_small() {
    assert_eq!(interaction_pairs(0), Vec::<(usize, usize)>::new());
    assert_eq!(interaction_pairs(1), Vec::<(usize, usize)>::new());
    assert_eq!(interaction_pairs(2), vec![(0, 1)]);
    assert_eq!(
        interaction_pairs(4),
        vec![(0, 1), (0, 2), (0, 3), (1, 2), (1, 3), (2, 3)]
    );
}

#[test]
fn pair_listing_count_and_uniqueness() {
    let n = 9;
    let pairs = interaction_pairs(n);
    assert_eq!(pairs.len(), n * (n - 1) / 2);
    for a in 0..pairs.len() {
        for b in (a + 1)..pairs.len() {
            assert_ne!(pairs[a], pairs[b]);
        }
    }
    for &(i, j) in &pairs {
        assert!(i < j && j < n);
    }
}

#[test]
fn partner_listing_small() {
    assert_eq!(partner_indices(2, 5), vec![0, 1, 3, 4]);
    assert_eq!(partner_indices(0, 3), vec![1, 2]);
    assert_eq!(partner_indices(4, 5), vec![0, 1, 2, 3]);
    assert_eq!(partner_indices(0, 1), Vec::<usize>::new());
}

#[test]
fn strategies_cover_same_interactions() {
    // Every interaction the per-particle strategy computes corresponds to
    // exactly one listed unordered pair, and the other way round.
    let n = 6;
    let pairs = interaction_pairs(n);
    for p in 0..n {
        let partners = partner_indices(p, n);
        assert_eq!(partners.len(), n - 1);
        for &q in &partners {
            let key = if p < q { (p, q) } else { (q, p) };
            assert_eq!(pairs.iter().filter(|&&e| e == key).count(), 1);
        }
    }
    for &(i, j) in &pairs {
        assert!(partner_indices(i, n).contains(&j));
        assert!(partner_indices(j, n).contains(&i));
    }
}

#[test]
fn step_actions_periodic() {
    let c = ok_config(3, 10, 2, BoundaryPolicy::Periodic, false, ExecMode::Sequential);
    let a = step_actions(&c, 3);
    assert!(a.wrap_before_forces);
    assert!(!a.reflect_after_integration);
    assert!(!a.apply_thermostat);
    assert!(!a.record_snapshot);
    let a0 = step_actions(&c, 4);
    assert!(a0.record_snapshot);
}

#[test]
fn step_actions_reflective_thermostat() {
    let c = ok_config(3, 10, 2, BoundaryPolicy::Reflective, true, ExecMode::Parallel);
    let a = step_actions(&c, 0);
    assert!(!a.wrap_before_forces);
    assert!(a.reflect_after_integration);
    assert!(a.apply_thermostat);
    assert!(a.record_snapshot);
}

#[test]
fn driver_marches_exactly_total_steps() {
    let c = ok_config(2, 10, 3, BoundaryPolicy::Periodic, false, ExecMode::Sequential);
    let mut d = Driver::new(c);
    assert_eq!(d.phase, Phase::Initializing);
    assert_eq!(d.step, 0);
    d.begin_stepping();
    assert_eq!(d.phase, Phase::Stepping);
    let mut steps_run = 0;
    while let Some(actions) = d.advance() {
        assert!(actions.wrap_before_forces);
        assert_eq!(actions.record_snapshot, steps_run % 3 == 0);
        steps_run += 1;
        assert!(steps_run <= 10);
    }
    assert_eq!(steps_run, 10);
    assert_eq!(d.phase, Phase::Finalizing);
    assert_eq!(d.step, 10);
    assert_eq!(d.recorded_steps, vec![0, 3, 6, 9]);
    d.finish();
    assert_eq!(d.phase, Phase::Done);
}

#[test]
fn driver_zero_step_run() {
    let c = ok_config(2, 0, 7, BoundaryPolicy::Reflective, true, ExecMode::Sequential);
    let mut d = Driver::new(c);
    d.begin_stepping();
    assert!(d.advance().is_none());
    assert_eq!(d.phase, Phase::Finalizing);
    assert!(d.recorded_steps.is_empty());
    d.finish();
    assert_eq!(d.phase, Phase::Done);
}

#[test]
fn driver_ledger_matches_schedule() {
    // The driver's snapshot ledger, built step by step, equals the
    // schedule computed up front.
    for (total, interval) in [(1000, 100), (17, 5), (1, 1), (6, 7)] {
        let c = ok_config(2, total, interval, BoundaryPolicy::Periodic, false, ExecMode::Parallel);
        let mut d = Driver::new(c);
        d.begin_stepping();
        while d.advance().is_some() {}
        assert_eq!(d.recorded_steps, snapshot_steps(total, interval));
    }
}

#[test]
fn control_loop_runs_to_done() {
    let c = ok_config(2, 25, 4, BoundaryPolicy::Periodic, false, ExecMode::Sequential);
    let d = ljmd::run_control_loop(c);
    assert_eq!(d.phase, Phase::Done);
    assert_eq!(d.step, 25);
    assert_eq!(d.recorded_steps, snapshot_steps(25, 4));
}
