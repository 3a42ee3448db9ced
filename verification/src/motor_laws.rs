//! What the motor ramps promise.
use vstd::prelude::*;

use crate::control::MotorAction;
use crate::motors::{MotorState, Motors, MotorsState, PwmDuty};

verus! {

/// How far a motor is from its target speed.
pub open spec fn distance(motor: MotorState) -> int {
    if motor.target_speed >= motor.current_speed {
        motor.target_speed - motor.current_speed
    } else {
        motor.current_speed - motor.target_speed
    }
}

pub open spec fn after_steps(motor: MotorState, n: nat) -> MotorState
    decreases n,
{
    if n == 0 {
        motor
    } else {
        after_steps(motor, (n - 1) as nat).after_step()
    }
}

/// A motor within its limits can always take a step, and stays within them.
pub proof fn law_well_formed_motor_steps(motor: MotorState)
    requires
        motor.well_formed(),
    ensures
        motor.can_step(),
        motor.after_step().well_formed(),
{
}

/// A step closes the distance to the target by the ramp step, or all of it where less is left. It
/// never overshoots and leaves the target as it is.
pub proof fn law_step_approaches_target(motor: MotorState)
    requires
        motor.well_formed(),
    ensures
        motor.after_step().target_speed == motor.target_speed,
        motor.after_step().ramp_step == motor.ramp_step,
        distance(motor.after_step()) == if distance(motor) > motor.ramp_step {
            distance(motor) - motor.ramp_step
        } else {
            0
        },
        motor.current_speed <= motor.target_speed ==> motor.current_speed
            <= motor.after_step().current_speed <= motor.target_speed,
        motor.current_speed >= motor.target_speed ==> motor.current_speed
            >= motor.after_step().current_speed >= motor.target_speed,
{
}

/// After `n` steps the distance has shrunk by `n` ramp steps, or to nothing.
pub proof fn law_steps_approach_target(motor: MotorState, n: nat)
    requires
        motor.well_formed(),
    ensures
        after_steps(motor, n).well_formed(),
        after_steps(motor, n).target_speed == motor.target_speed,
        after_steps(motor, n).ramp_step == motor.ramp_step,
        distance(after_steps(motor, n)) == if distance(motor) > n * motor.ramp_step {
            distance(motor) - n * motor.ramp_step
        } else {
            0
        },
    decreases n,
{
    let r = motor.ramp_step as int;
    if n > 0 {
        let m = (n - 1) as nat;
        law_steps_approach_target(motor, m);
        law_well_formed_motor_steps(after_steps(motor, m));
        law_step_approaches_target(after_steps(motor, m));
        assert(n * r == m * r + r) by (nonlinear_arith)
            requires
                n == m + 1,
        ;
    }
}

/// With a ramp step of at least one, any target is reached within two hundred steps.
pub proof fn law_ramp_reaches_target(motor: MotorState)
    requires
        motor.well_formed(),
        motor.ramp_step >= 1,
    ensures
        after_steps(motor, 200).current_speed == motor.target_speed,
{
    law_steps_approach_target(motor, 200);
}

/// Every step that moves a motor also hands its driver the duty cycles of the new speed; a motor
/// at its target hands over nothing new.
pub proof fn law_step_writes_the_new_speed(motor: MotorState)
    requires
        motor.well_formed(),
    ensures
        motor.after_step().current_speed != motor.current_speed ==> motor.after_step().output
            == Some(crate::motors::duty_of(motor.after_step().current_speed)),
        motor.current_speed == motor.target_speed ==> motor.after_step() == motor,
{
}

/// At most one input of a driver is on, and its duty cycle is the magnitude of the speed.
pub proof fn law_duty_is_one_sided(speed: i8)
    requires
        speed != i8::MIN,
    ensures
        ({
            let duty = crate::motors::duty_of(speed);
            &&& duty.rpwm == 0 || duty.lpwm == 0
            &&& duty.rpwm - duty.lpwm == speed
        }),
{
}

/// An emergency stop brings all motors to rest at once, whatever else the action holds.
pub proof fn law_emergency_stop_halts(motors: MotorsState, action: MotorAction)
    requires
        action.emergency_stop,
    ensures
        motors.after_action(action).at_rest(),
        motors.after_action(action).left.output == Some(PwmDuty { rpwm: 0, lpwm: 0 }),
        motors.after_action(action).right.output == Some(PwmDuty { rpwm: 0, lpwm: 0 }),
        motors.after_action(action).lift.output == Some(PwmDuty { rpwm: 0, lpwm: 0 }),
{
}

/// A stop without new targets brings all motors to rest at once.
pub proof fn law_stop_halts(motors: MotorsState, action: MotorAction)
    requires
        action.stop_all,
        action.drive is None,
        action.lift is None,
    ensures
        motors.after_action(action).at_rest(),
{
}

/// Motors at rest stay at rest, step after step.
pub proof fn law_rest_lasts(motors: MotorsState)
    requires
        motors.at_rest(),
    ensures
        motors.can_step(),
        motors.after_step() == motors,
{
}

/// A new target is the speed that was asked for, or the limit that it exceeds. It leaves alone how
/// the motor runs; a speed that is set at once does not, and goes to the driver.
pub proof fn law_speed_is_taken_over(motor: MotorState, speed: i8)
    ensures
        ({
            let next = motor.with_target(speed);
            &&& -100 <= speed <= 100 ==> next.target_speed == speed
            &&& speed > 100 ==> next.target_speed == 100
            &&& speed < -100 ==> next.target_speed == -100
            &&& next == (MotorState { target_speed: next.target_speed, ..motor })
        }),
        ({
            let next = motor.at_once(speed);
            &&& next.target_speed == motor.with_target(speed).target_speed
            &&& next.current_speed == next.target_speed
            &&& next.ramp_step == motor.ramp_step
            &&& next.output matches Some(duty) && duty.rpwm - duty.lpwm == next.current_speed && (
            duty.rpwm == 0 || duty.lpwm == 0)
        }),
{
    law_duty_is_one_sided(motor.with_target(speed).target_speed);
}

/// What a step does, in numbers. A motor at its target is left alone, whatever the target is. Any
/// other motor moves by its ramp step, or by what is left of the way where that is less, up where
/// the target lies above and down where it lies below; the speed is kept in eight bits, and its
/// duty cycle goes to the driver.
pub proof fn law_step_in_numbers(motor: MotorState)
    ensures
        ({
            let next = motor.after_step();
            let up = motor.target_speed - motor.current_speed;
            let ramp = motor.ramp_step as int;
            &&& up == 0 ==> next == motor
            &&& up > 0 && up < ramp ==> next.current_speed == motor.target_speed
            &&& up > 0 && up >= ramp ==> (next.current_speed - motor.current_speed - ramp) % 0x100
                == 0
            &&& up < 0 && -up < ramp ==> next.current_speed == motor.target_speed
            &&& up < 0 && -up >= ramp ==> (next.current_speed - motor.current_speed + ramp) % 0x100
                == 0
            &&& next.target_speed == motor.target_speed
            &&& next.ramp_step == motor.ramp_step
            &&& up != 0 && next.current_speed != -128 ==> {
                next.output matches Some(duty) && duty.rpwm - duty.lpwm == next.current_speed && (
                duty.rpwm == 0 || duty.lpwm == 0)
            }
            &&& motor.can_step() <==> up == 0 || next.current_speed != -128
        }),
{
    let up = motor.target_speed - motor.current_speed;
    let ramp = motor.ramp_step as int;
    crate::bytes::law_readings_agree_with_their_bytes(0, 0, 0, 0, motor.target_speed as int);
    crate::bytes::law_readings_agree_with_their_bytes(0, 0, 0, 0, motor.current_speed + ramp);
    crate::bytes::law_readings_agree_with_their_bytes(0, 0, 0, 0, motor.current_speed - ramp);
    if motor.next_speed() != i8::MIN {
        law_duty_is_one_sided(motor.next_speed());
    }
}

/// A motor within the limits closes the distance to its target, a target of zero included, by the
/// ramp step, or by all of it where less is left.
pub proof fn law_step_closes_the_distance(motor: MotorState)
    requires
        -100 <= motor.current_speed <= 100,
        -100 <= motor.target_speed <= 100,
        motor.ramp_step >= 0,
    ensures
        ({
            let next = motor.after_step().current_speed;
            let up = motor.target_speed - motor.current_speed;
            &&& -motor.ramp_step <= up <= motor.ramp_step ==> next == motor.target_speed
            &&& up > motor.ramp_step ==> next == motor.current_speed + motor.ramp_step
            &&& up < -motor.ramp_step ==> next == motor.current_speed - motor.ramp_step
        }),
{
    law_step_in_numbers(motor);
}

/// A step of the motors is a step of each one by itself, whatever the others and their targets are.
pub proof fn law_every_motor_steps(motors: MotorsState)
    ensures
        motors.after_step().left == motors.left.after_step(),
        motors.after_step().right == motors.right.after_step(),
        motors.after_step().lift == motors.lift.after_step(),
        motors.can_step() <==> motors.left.can_step() && motors.right.can_step()
            && motors.lift.can_step(),
{
}

/// What an action does to the motors. An emergency stop has all three stand still at once, and so
/// does a stop, which new targets may follow; without either, no motor changes how it runs. The
/// first drive speed goes to the left motor, the second to the right one and the power to the lift,
/// each unchanged or cut to the limit that it exceeds, and a motor without a new target keeps its
/// own.
pub proof fn law_action_reaches_its_motors(motors: MotorsState, action: MotorAction)
    ensures
        ({
            let next = motors.after_action(action);
            let off = Some(PwmDuty { rpwm: 0, lpwm: 0 });
            let go = !action.emergency_stop;
            &&& next.left.ramp_step == motors.left.ramp_step
            &&& next.right.ramp_step == motors.right.ramp_step
            &&& next.lift.ramp_step == motors.lift.ramp_step
            &&& !go || action.stop_all ==> {
                &&& next.left.current_speed == 0 && next.left.output == off
                &&& next.right.current_speed == 0 && next.right.output == off
                &&& next.lift.current_speed == 0 && next.lift.output == off
            }
            &&& go && !action.stop_all ==> {
                &&& next.left.current_speed == motors.left.current_speed
                &&& next.left.output == motors.left.output
                &&& next.right.current_speed == motors.right.current_speed
                &&& next.right.output == motors.right.output
                &&& next.lift.current_speed == motors.lift.current_speed
                &&& next.lift.output == motors.lift.output
            }
            &&& !go || action.stop_all && action.drive is None ==> next.left.target_speed == 0
                && next.right.target_speed == 0
            &&& !go || action.stop_all && action.lift is None ==> next.lift.target_speed == 0
            &&& go && !action.stop_all && action.drive is None ==> next.left == motors.left
                && next.right == motors.right
            &&& go && !action.stop_all && action.lift is None ==> next.lift == motors.lift
            &&& go && action.drive is Some ==> {
                let speeds = action.drive->0;
                &&& -100 <= speeds.0 <= 100 ==> next.left.target_speed == speeds.0
                &&& speeds.0 > 100 ==> next.left.target_speed == 100
                &&& speeds.0 < -100 ==> next.left.target_speed == -100
                &&& -100 <= speeds.1 <= 100 ==> next.right.target_speed == speeds.1
                &&& speeds.1 > 100 ==> next.right.target_speed == 100
                &&& speeds.1 < -100 ==> next.right.target_speed == -100
            }
            &&& go && action.lift is Some ==> {
                let power = action.lift->0;
                &&& -100 <= power <= 100 ==> next.lift.target_speed == power
                &&& power > 100 ==> next.lift.target_speed == 100
                &&& power < -100 ==> next.lift.target_speed == -100
            }
        }),
{
}

/// To fetch what the drivers are to be given takes it away and changes nothing else.
pub proof fn law_outputs_are_fetched_once(motors: MotorsState)
    ensures
        motors.after_output().left == (MotorState { output: None, ..motors.left }),
        motors.after_output().right == (MotorState { output: None, ..motors.right }),
        motors.after_output().lift == (MotorState { output: None, ..motors.lift }),
{
}

/// What is known of the motors together is what is known of each in its own place, and they are
/// ready for a step just when each of them is.
pub proof fn law_motors_are_known_in_place(motors: Motors)
    ensures
        motors@.left == motors.left@,
        motors@.right == motors.right@,
        motors@.lift == motors.lift@,
        crate::motors::MotorController::ready(&motors) <==> motors.left@.can_step()
            && motors.right@.can_step() && motors.lift@.can_step(),
{
}

} // verus!
