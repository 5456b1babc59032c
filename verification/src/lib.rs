//! Control core of a Lennard-Jones molecular-dynamics engine.
//!
//! The numerical kernel of the simulation works on `f64` coordinates and is
//! driven by an unverified front end; this crate owns everything the engine
//! decides with integers and enumerations, and proves it: configuration
//! validation, the snapshot schedule, the enumeration of interacting particle
//! pairs for both the pairwise and the per-particle summation strategies, and
//! the step-by-step driver state machine.

mod config;
mod driver;
mod pairs;
mod schedule;
mod state;

pub use config::BoundaryPolicy;
pub use config::ConfigError;
pub use config::ExecMode;
pub use config::SimConfig;
pub use config::validate_config;
pub use driver::Driver;
pub use driver::Phase;
pub use driver::StepActions;
pub use driver::lemma_trajectory_schedule;
pub use driver::run_control_loop;
pub use driver::spec_step_actions;
pub use driver::step_actions;
pub use pairs::interaction_pairs;
pub use pairs::is_pair_listing;
pub use pairs::is_partner_listing;
pub use pairs::lemma_pair_listing_unique;
pub use pairs::lemma_partner_listing_members;
pub use pairs::lemma_strategies_cover_same_interactions;
pub use pairs::lex_lt;
pub use pairs::partner_indices;
pub use schedule::is_snapshot_step;
pub use schedule::snapshot_steps;
pub use schedule::spec_is_snapshot_step;
pub use schedule::spec_snapshot_count;
pub use state::Trajectory;
pub use state::rotate_buffers;
