//! Kinematics: step counting, axis direction, the stepper-control stack,
//! homing, and unit/step converters.

mod axis_sim;
mod convert;
mod delay;
mod direction;
mod limit_switch;
mod linear_converter;
mod limited_stepper;
mod positioned_stepper;
mod rotary_converter;
mod stepper;
mod steps;

pub use axis_sim::SIM_AXIS_BOUND;
pub use axis_sim::SimulatedAxis;
pub use convert::lemma_trunc_div_bound;
pub use convert::lemma_trunc_div_cancel;
pub use convert::lemma_trunc_div_scale_range;
pub use convert::spec_fits_i32;
pub use convert::spec_trunc_div;
pub use convert::lemma_unit_round_trip;
pub use delay::Delay;
pub use direction::Direction;
pub use limit_switch::LimitSwitch;
pub use limit_switch::LimitSwitchState;
pub use linear_converter::LinearConverter;
pub use limited_stepper::LimitSwitches;
pub use limited_stepper::LimitedStepper;
pub use limited_stepper::StepRange;
pub use positioned_stepper::PositionedStepper;
pub use rotary_converter::RotaryConverter;
pub use positioned_stepper::spec_step_target;
pub use stepper::CheckedStepper;
pub use stepper::Stepper;
pub use steps::Steps;
pub use steps::spec_steps_dec;
pub use steps::spec_steps_inc;
pub use steps::lemma_steps_inc_dec;
