//! Control core for a two-axis stepper-motor apparatus.
//!
//! The crate provides overflow-safe unit types (steps, microns,
//! millidegrees, microseconds), a tokenizer and command parser for a
//! line-oriented motion protocol, a layered stepper-control stack with a
//! deterministic homing procedure, unit/step converters with circular
//! angle arithmetic, and a synchronized two-axis move executor.
//!
//! Driving physical pins, the microcontroller delay, and the serial
//! transport are outside the core: they enter through the `Stepper`,
//! `LimitSwitch` and `Delay` capability traits.

pub mod command;
pub mod commands;
pub mod gcode;
mod kinematics;
pub mod machine;
mod microns;
mod microseconds;
mod millidegrees;

pub use microns::Microns;
pub use microns::spec_microns;
pub use microns::lemma_spec_microns_view;
pub use microseconds::MicroSeconds;
pub use millidegrees::MilliDegrees;
pub use millidegrees::spec_millidegrees;
pub use millidegrees::lemma_spec_millidegrees_view;
pub use millidegrees::MILLIDEGREES_PER_REVOLUTION;
pub use millidegrees::spec_normalize_mdg;
pub use millidegrees::spec_shortest_angle;
pub use millidegrees::lemma_shortest_angle_congruent;
pub use millidegrees::lemma_shortest_angle_range;
pub use millidegrees::lemma_shortest_angle_range_nonneg;

pub use kinematics::CheckedStepper;
pub use kinematics::SIM_AXIS_BOUND;
pub use kinematics::SimulatedAxis;
pub use kinematics::Delay;
pub use kinematics::Direction;
pub use kinematics::LimitSwitch;
pub use kinematics::LimitSwitchState;
pub use kinematics::LimitSwitches;
pub use kinematics::LinearConverter;
pub use kinematics::LimitedStepper;
pub use kinematics::PositionedStepper;
pub use kinematics::RotaryConverter;
pub use kinematics::StepRange;
pub use kinematics::Stepper;
pub use kinematics::Steps;
pub use kinematics::spec_fits_i32;
pub use kinematics::spec_trunc_div;
pub use kinematics::lemma_unit_round_trip;
pub use kinematics::spec_step_target;
pub use kinematics::spec_steps_dec;
pub use kinematics::spec_steps_inc;
pub use kinematics::lemma_steps_inc_dec;
