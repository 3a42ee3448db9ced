//! The motor ramps: what speed each motor runs at, and what its driver's two inputs get for it.
use vstd::prelude::*;

use crate::bytes::to_wrapped;
use crate::control::{clamp_speed, MotorAction};

verus! {

/// The duty cycles, in percent, of the two inputs of a BTS7960 driver.
#[derive(Debug, Clone, Copy, PartialEq, Eq, Structural)]
pub struct PwmDuty {
    pub rpwm: u8,
    pub lpwm: u8,
}

/// The duty cycles that make a motor run at `speed`: the sign picks the input, and the other one
/// is off.
pub open spec fn duty_of(speed: i8) -> PwmDuty {
    if speed >= 0 {
        PwmDuty { rpwm: speed as u8, lpwm: 0 }
    } else {
        PwmDuty { rpwm: 0, lpwm: (-speed) as u8 }
    }
}

/// What is known of a motor. `output` holds duty cycles that its driver has yet to be given.
pub struct MotorState {
    pub current_speed: i8,
    pub target_speed: i8,
    pub ramp_step: i8,
    pub output: Option<PwmDuty>,
}

impl MotorState {
    /// The motor runs within its limits and its ramp leads towards the target.
    pub open spec fn well_formed(self) -> bool {
        &&& -100 <= self.current_speed <= 100
        &&& -100 <= self.target_speed <= 100
        &&& self.ramp_step >= 0
        &&& self.output matches Some(duty) ==> duty.rpwm <= 100 && duty.lpwm <= 100 && (duty.rpwm
            == 0 || duty.lpwm == 0)
    }

    /// The motor stands still, is to stand still, and nothing else is about to be written.
    pub open spec fn at_rest(self) -> bool {
        &&& self.current_speed == 0
        &&& self.target_speed == 0
        &&& self.output matches Some(duty) ==> duty == (PwmDuty { rpwm: 0, lpwm: 0 })
    }

    pub open spec fn with_target(self, speed: i8) -> MotorState {
        MotorState { target_speed: crate::control::clamped(speed), ..self }
    }

    pub open spec fn at_once(self, speed: i8) -> MotorState {
        MotorState {
            target_speed: crate::control::clamped(speed),
            current_speed: crate::control::clamped(speed),
            output: Some(duty_of(crate::control::clamped(speed))),
            ..self
        }
    }

    /// The speed after one step: at most `ramp_step` closer to the target, in eight bits.
    pub open spec fn next_speed(self) -> i8 {
        let diff = self.target_speed - self.current_speed;
        let ramp = self.ramp_step as int;
        let step = if diff > 0 {
            if diff < ramp {
                diff
            } else {
                ramp
            }
        } else {
            if diff > -ramp {
                diff
            } else {
                -ramp
            }
        };
        crate::bytes::wrapped(self.current_speed + step)
    }

    /// Whether the speed after one step has a magnitude in eight bits.
    pub open spec fn can_step(self) -> bool {
        self.current_speed != self.target_speed ==> self.next_speed() != i8::MIN
    }

    pub open spec fn after_step(self) -> MotorState {
        if self.current_speed == self.target_speed {
            self
        } else {
            MotorState {
                current_speed: self.next_speed(),
                output: Some(duty_of(self.next_speed())),
                ..self
            }
        }
    }
}

/// A single BTS7960 motor driver with an RPWM and an LPWM input.
///
/// Duty cycles that the driver is to be given wait in the motor until `take_output` fetches them.
pub struct Bts7960Motor {
    current_speed: i8,
    target_speed: i8,
    ramp_step: i8,
    output: Option<PwmDuty>,
}

impl View for Bts7960Motor {
    type V = MotorState;

    closed spec fn view(&self) -> MotorState {
        MotorState {
            current_speed: self.current_speed,
            target_speed: self.target_speed,
            ramp_step: self.ramp_step,
            output: self.output,
        }
    }
}

impl Bts7960Motor {
    pub fn new(ramp_step: i8) -> (motor: Self)
        ensures
            motor@ == (MotorState { current_speed: 0, target_speed: 0, ramp_step, output: None }),
            motor@.at_rest(),
            ramp_step >= 0 ==> motor@.well_formed(),
    {
        Bts7960Motor { current_speed: 0, target_speed: 0, ramp_step, output: None }
    }

    /// Sets the target speed and lets the `step` function ramp up/down to it.
    pub fn set_target(&mut self, speed: i8)
        ensures
            final(self)@ == old(self)@.with_target(speed),
            old(self)@.well_formed() ==> final(self)@.well_formed(),
    {
        self.target_speed = clamp_speed(speed);
    }

    /// Bypasses the ramp and applies the speed immediately.
    pub fn set_immediate(&mut self, speed: i8)
        ensures
            final(self)@ == old(self)@.at_once(speed),
            old(self)@.well_formed() ==> final(self)@.well_formed(),
    {
        self.target_speed = clamp_speed(speed);
        self.current_speed = self.target_speed;
        self.apply_speed();
    }

    /// Steps the current speed towards the target speed by the `ramp_step`.
    pub fn step(&mut self)
        requires
            old(self)@.can_step(),
        ensures
            final(self)@ == old(self)@.after_step(),
            old(self)@.well_formed() ==> final(self)@.well_formed(),
    {
        let diff: i16 = self.target_speed as i16 - self.current_speed as i16;
        if diff == 0 {
            return;
        }
        let ramp: i16 = self.ramp_step as i16;
        let step: i16 = if diff > 0 {
            if diff < ramp {
                diff
            } else {
                ramp
            }
        } else {
            if diff > -ramp {
                diff
            } else {
                -ramp
            }
        };
        self.current_speed = to_wrapped(self.current_speed as i16 + step);
        self.apply_speed();
    }

    /// Makes the duty cycles of the current speed the next ones to be written.
    fn apply_speed(&mut self)
        requires
            old(self)@.current_speed != i8::MIN,
        ensures
            final(self)@ == (MotorState {
                output: Some(duty_of(old(self)@.current_speed)),
                ..old(self)@
            }),
    {
        if self.current_speed >= 0 {
            let duty_pct: u8 = self.current_speed as u8;
            self.output = Some(PwmDuty { rpwm: duty_pct, lpwm: 0 });
        } else {
            let duty_pct: u8 = (-self.current_speed) as u8;
            self.output = Some(PwmDuty { rpwm: 0, lpwm: duty_pct });
        }
    }

    /// Fetches the duty cycles that the driver has yet to be given, if there are any.
    pub fn take_output(&mut self) -> (output: Option<PwmDuty>)
        ensures
            output == old(self)@.output,
            final(self)@ == (MotorState { output: None, ..old(self)@ }),
            old(self)@.well_formed() ==> final(self)@.well_formed(),
    {
        let output = self.output;
        self.output = None;
        output
    }
}

/// Trait defining how the motors should be controlled.
pub trait MotorController {
    /// Whether every motor can take its next step.
    spec fn ready(&self) -> bool;

    fn apply_action(&mut self, action: MotorAction);

    fn step_all(&mut self)
        requires
            old(self).ready(),
    ;
}

/// A container for the robot's motors.
pub struct Motors {
    pub left: Bts7960Motor,
    pub right: Bts7960Motor,
    pub lift: Bts7960Motor,
}

/// What is known of the motors together.
pub struct MotorsState {
    pub left: MotorState,
    pub right: MotorState,
    pub lift: MotorState,
}

impl MotorsState {
    pub open spec fn well_formed(self) -> bool {
        self.left.well_formed() && self.right.well_formed() && self.lift.well_formed()
    }

    pub open spec fn at_rest(self) -> bool {
        self.left.at_rest() && self.right.at_rest() && self.lift.at_rest()
    }

    /// Whether a drive motor is to run.
    pub open spec fn told_to_drive(self) -> bool {
        self.left.target_speed != 0 || self.right.target_speed != 0
    }

    /// Whether the lift is to run.
    pub open spec fn told_to_lift(self) -> bool {
        self.lift.target_speed != 0
    }

    pub open spec fn halted(self) -> MotorsState {
        MotorsState {
            left: self.left.at_once(0),
            right: self.right.at_once(0),
            lift: self.lift.at_once(0),
        }
    }

    /// An emergency stop overrides everything else; a stop comes before new targets.
    pub open spec fn after_action(self, action: MotorAction) -> MotorsState {
        if action.emergency_stop {
            self.halted()
        } else {
            let base = if action.stop_all {
                self.halted()
            } else {
                self
            };
            MotorsState {
                left: match action.drive {
                    Some(speeds) => base.left.with_target(speeds.0),
                    None => base.left,
                },
                right: match action.drive {
                    Some(speeds) => base.right.with_target(speeds.1),
                    None => base.right,
                },
                lift: match action.lift {
                    Some(power) => base.lift.with_target(power),
                    None => base.lift,
                },
            }
        }
    }

    /// The motors once their drivers were given what was waiting for them.
    pub open spec fn after_output(self) -> MotorsState {
        MotorsState {
            left: MotorState { output: None, ..self.left },
            right: MotorState { output: None, ..self.right },
            lift: MotorState { output: None, ..self.lift },
        }
    }

    pub open spec fn can_step(self) -> bool {
        self.left.can_step() && self.right.can_step() && self.lift.can_step()
    }

    pub open spec fn after_step(self) -> MotorsState {
        MotorsState {
            left: self.left.after_step(),
            right: self.right.after_step(),
            lift: self.lift.after_step(),
        }
    }
}

impl View for Motors {
    type V = MotorsState;

    open spec fn view(&self) -> MotorsState {
        MotorsState { left: self.left@, right: self.right@, lift: self.lift@ }
    }
}

impl Motors {
    /// Fetches what the drivers of the left motor, the right motor and the lift have yet to be
    /// given.
    pub fn take_outputs(&mut self) -> (outputs: (Option<PwmDuty>, Option<PwmDuty>, Option<PwmDuty>))
        ensures
            outputs.0 == old(self)@.left.output,
            outputs.1 == old(self)@.right.output,
            outputs.2 == old(self)@.lift.output,
            final(self)@ == old(self)@.after_output(),
            old(self)@.well_formed() ==> final(self)@.well_formed(),
    {
        let left = self.left.take_output();
        let right = self.right.take_output();
        let lift = self.lift.take_output();
        (left, right, lift)
    }
}

impl MotorController for Motors {
    open spec fn ready(&self) -> bool {
        self@.can_step()
    }

    /// Evaluates a `MotorAction` and delegates to the individual motors.
    fn apply_action(&mut self, action: MotorAction)
        ensures
            final(self)@ == old(self)@.after_action(action),
            old(self)@.well_formed() ==> final(self)@.well_formed(),
    {
        if action.emergency_stop {
            self.left.set_immediate(0);
            self.right.set_immediate(0);
            self.lift.set_immediate(0);
            return;
        }
        if action.stop_all {
            self.left.set_immediate(0);
            self.right.set_immediate(0);
            self.lift.set_immediate(0);
        }
        if let Some((l, r)) = action.drive {
            self.left.set_target(l);
            self.right.set_target(r);
        }
        if let Some(p) = action.lift {
            self.lift.set_target(p);
        }
    }

    /// Should be called periodically (e.g., every 10ms-20ms) to update the PWM ramps. This robot
    /// calls it once per round of its control loop, every 50ms
    /// (`config::CONTROL_TASK_INTERVAL_MS`).
    fn step_all(&mut self)
        ensures
            final(self)@ == old(self)@.after_step(),
            final(self).left@ == old(self).left@.after_step(),
            final(self).right@ == old(self).right@.after_step(),
            final(self).lift@ == old(self).lift@.after_step(),
            old(self)@.well_formed() ==> final(self)@.well_formed(),
    {
        self.left.step();
        self.right.step();
        self.lift.step();
    }
}

} // verus!
