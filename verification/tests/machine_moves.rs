//! The machine orchestrator: converters, homing gating, and the
//! synchronized two-axis move executor.

use std::sync::Arc;
use std::sync::Mutex;

use multistepper::commands::command::Move;
use multistepper::machine::Error;
use multistepper::machine::Machine;
use multistepper::machine::MoveMode;
use multistepper::Delay;
use multistepper::Direction;
use multistepper::LimitSwitch;
use multistepper::LimitSwitchState;
use multistepper::LimitedStepper;
use multistepper::LinearConverter;
use multistepper::MicroSeconds;
use multistepper::Microns;
use multistepper::MilliDegrees;
use multistepper::PositionedStepper;
use multistepper::RotaryConverter;
use multistepper::Steps;
use multistepper::Stepper;

pub struct NoDelay;

impl Delay for NoDelay {
    fn delay_us(_: MicroSeconds) {}
}

/// A stepper that appends its tag to a shared pulse log.
#[derive(Clone)]
pub struct LogStepper {
    tag: char,
    log: Arc<Mutex<Vec<char>>>,
}

impl Stepper for LogStepper {
    fn step(&mut self, _direction: Direction) {
        self.log.lock().unwrap().push(self.tag);
    }
}

/// A switch that is never engaged.
pub struct FreeSwitch;

impl LimitSwitch for FreeSwitch {
    fn read_limitswitch_state(&self) -> LimitSwitchState {
        LimitSwitchState::NotAtLimit
    }
}

fn logging_machine(
    log: &Arc<Mutex<Vec<char>>>,
) -> Machine<LogStepper, FreeSwitch, LogStepper> {
    let x_stepper = LogStepper {
        tag: 'X',
        log: log.clone(),
    };
    let a_stepper = LogStepper {
        tag: 'A',
        log: log.clone(),
    };
    Machine::new(
        LimitedStepper::new(PositionedStepper::new(x_stepper), FreeSwitch, FreeSwitch),
        PositionedStepper::new(a_stepper),
        LinearConverter::new(6400, 5000),
        RotaryConverter::new(6400),
    )
}

#[test]
fn test_sync_move_proportional_interleave() {
    // A ten-by-three move takes exactly max(10, 3) = 10 ticks, with the
    // rotary steps falling at proportionally spaced ticks and both axes
    // on target at the end: no drift.
    let log = Arc::new(Mutex::new(Vec::new()));
    let mut machine = logging_machine(&log);
    let result =
        machine.sync_move_to::<NoDelay>(Steps::new(10), Steps::new(3), MicroSeconds::new(50));
    assert_eq!(Ok(()), result);
    assert_eq!(10, machine.x_position().get_value());
    assert_eq!(3, machine.a_position().get_value());
    let pulses: String = log.lock().unwrap().iter().collect();
    assert_eq!("XXXXAXXXAXXXA", &pulses);
}

#[test]
fn test_sync_move_negative_and_zero_deltas() {
    let log = Arc::new(Mutex::new(Vec::new()));
    let mut machine = logging_machine(&log);
    assert_eq!(
        Ok(()),
        machine.sync_move_to::<NoDelay>(Steps::new(-4), Steps::new(2), MicroSeconds::new(1))
    );
    assert_eq!(-4, machine.x_position().get_value());
    assert_eq!(2, machine.a_position().get_value());
    // A move to the current position issues no pulses.
    let before = log.lock().unwrap().len();
    assert_eq!(
        Ok(()),
        machine.sync_move_to::<NoDelay>(Steps::new(-4), Steps::new(2), MicroSeconds::new(1))
    );
    assert_eq!(before, log.lock().unwrap().len());
}

#[test]
fn test_sync_move_rotary_only() {
    // A move that leaves the linear axis where it is must succeed: no
    // switch is ever consulted and the rotary axis cannot refuse.
    let log = Arc::new(Mutex::new(Vec::new()));
    let mut machine = logging_machine(&log);
    assert_eq!(
        Ok(()),
        machine.sync_move_to::<NoDelay>(Steps::new(0), Steps::new(5), MicroSeconds::new(1))
    );
    assert_eq!(0, machine.x_position().get_value());
    assert_eq!(5, machine.a_position().get_value());
    let pulses: String = log.lock().unwrap().iter().collect();
    assert_eq!("AAAAA", &pulses);
}

#[test]
fn test_run_move_requires_homing() {
    let log = Arc::new(Mutex::new(Vec::new()));
    let mut machine = logging_machine(&log);
    let mv = Move {
        x_amount: Microns::new(1000),
        a_amount: MilliDegrees::new(0),
    };
    assert_eq!(
        Err(Error::NotZeroed),
        machine.run_move::<NoDelay>(&mv, MicroSeconds::new(1))
    );
    assert!(log.lock().unwrap().is_empty());
}

#[test]
fn test_set_move_mode() {
    let log = Arc::new(Mutex::new(Vec::new()));
    let mut machine = logging_machine(&log);
    assert_eq!(Ok(()), machine.set_move_mode(MoveMode::Relative));
    assert_eq!(Ok(()), machine.set_move_mode(MoveMode::Absolute));
}

#[test]
fn test_linear_converter_round_trip() {
    let lc = LinearConverter::new(6400, 5000);
    let microns = Microns::new(123456);
    let steps = lc.to_steps(microns).unwrap();
    assert_eq!(158023, steps.get_value());
    let back = lc.to_microns(steps).unwrap();
    // Rounding error of at most one micron, the coarser unit.
    assert!((microns.get_value() - back.get_value()).abs() <= 1);
}

#[test]
fn test_linear_converter_exact_values() {
    let lc = LinearConverter::new(6400, 5000);
    assert_eq!(Some(Steps::new(1280)), lc.to_steps(Microns::new(1000)));
    assert_eq!(Some(Microns::new(1000)), lc.to_microns(Steps::new(1280)));
    assert_eq!(Some(Steps::new(-1280)), lc.to_steps(Microns::new(-1000)));
    // steps_to computes the signed step delta toward a target.
    assert_eq!(
        Some(Steps::new(1280)),
        lc.steps_to(Steps::new(1280), Microns::new(2000))
    );
    // A zero ratio cannot convert.
    let degenerate = LinearConverter::new(0, 5000);
    assert_eq!(None, degenerate.to_microns(Steps::new(1)));
}

#[test]
fn test_rotary_converter_values() {
    let rc = RotaryConverter::new(6400);
    assert_eq!(Some(Steps::new(800)), rc.to_steps(MilliDegrees::new(45000)));
    assert_eq!(Some(MilliDegrees::new(45000)), rc.to_millidegrees(Steps::new(800)));
    let mdg = MilliDegrees::new(123456);
    let steps = rc.to_steps(mdg).unwrap();
    let back = rc.to_millidegrees(steps).unwrap();
    // Error within one step's worth of millidegrees (56.25).
    assert!((mdg.get_value() - back.get_value()).abs() <= 56);
}

#[test]
fn test_rotary_converter_abs_takes_shortest_path() {
    let rc = RotaryConverter::new(6400);
    // At orientation zero, an absolute target of 350 degrees turns -10
    // degrees, never +350.
    let delta = rc.steps_to_abs(Steps::new(0), MilliDegrees::new(350000)).unwrap();
    assert_eq!(-177, delta.get_value());
    // A relative offset is a straight, non-circular delta.
    let rel = rc.steps_to_rel(Steps::new(100), MilliDegrees::new(350000)).unwrap();
    assert_eq!(100 + 6222, rel.get_value());
}

#[test]
fn test_run_move_overflow_is_reported() {
    // Home a machine whose limit switches are coupled to the linear
    // axis, then ask for a move its converter cannot express.
    let position = Arc::new(Mutex::new(0i64));
    let x_stepper = SharedStepper {
        position: position.clone(),
    };
    let a_log = Arc::new(Mutex::new(Vec::new()));
    let a_stepper = LogStepper {
        tag: 'A',
        log: a_log,
    };
    let pos_switch = CoupledSwitch {
        positive_end: true,
        limit: 100,
        position: position.clone(),
    };
    let neg_switch = CoupledSwitch {
        positive_end: false,
        limit: 0,
        position: position.clone(),
    };
    // A converter with a zero unit ratio cannot convert any amount.
    let mut machine = Machine::new(
        LimitedStepper::new(PositionedStepper::new(x_stepper), pos_switch, neg_switch),
        PositionedStepper::new(a_stepper),
        LinearConverter::new(6400, 0),
        RotaryConverter::new(6400),
    );
    assert_eq!(
        Ok(()),
        machine.run_home::<NoDelay>(1, Steps::new(10))
    );
    let mv = Move {
        x_amount: Microns::new(1000),
        a_amount: MilliDegrees::new(0),
    };
    assert_eq!(
        Err(Error::Overflow),
        machine.run_move::<NoDelay>(&mv, MicroSeconds::new(1))
    );
}

/// A stepper moving a shared position counter, for coupled switches.
#[derive(Clone)]
pub struct SharedStepper {
    position: Arc<Mutex<i64>>,
}

impl Stepper for SharedStepper {
    fn step(&mut self, direction: Direction) {
        let mut pos = self.position.lock().unwrap();
        *pos = match direction {
            Direction::Positive => *pos + 1,
            Direction::Negative => *pos - 1,
        };
    }
}

/// A limit switch coupled to a shared position counter.
pub struct CoupledSwitch {
    positive_end: bool,
    limit: i64,
    position: Arc<Mutex<i64>>,
}

impl LimitSwitch for CoupledSwitch {
    fn read_limitswitch_state(&self) -> LimitSwitchState {
        let pos = *self.position.lock().unwrap();
        let engaged = if self.positive_end {
            pos > self.limit
        } else {
            pos < self.limit
        };
        if engaged {
            LimitSwitchState::AtLimit
        } else {
            LimitSwitchState::NotAtLimit
        }
    }
}
