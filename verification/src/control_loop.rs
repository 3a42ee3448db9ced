//! The control loop: the controller and the motors together.
use vstd::prelude::*;

use crate::control::{
    Controller, ControllerState, FusionStep, MotorAction, Outcome, SensorSnapshot, Settings,
};
use crate::motors::{MotorController, MotorState, Motors, MotorsState, PwmDuty};
use crate::protocol::{Command, Response};
use crate::time::Instant;

verus! {

/// What is known of the robot.
pub struct RobotState {
    pub controller: ControllerState,
    pub motors: MotorsState,
}

impl RobotState {
    /// The motors do no more than the controller has on record: they are told to drive or to lift
    /// only where the record says so, and they rest while a stop or an emergency stop holds.
    pub open spec fn in_order(self) -> bool {
        &&& self.controller.consistent()
        &&& self.motors.told_to_drive() ==> self.controller.drive_active
        &&& self.motors.told_to_lift() ==> self.controller.lift_active
        &&& self.controller.stop_active || self.controller.estop_active ==> self.motors.at_rest()
    }

    /// The record says no more than the motors were told.
    pub open spec fn record_is_backed(self) -> bool {
        &&& self.controller.drive_active ==> self.motors.told_to_drive()
        &&& self.controller.lift_active ==> self.motors.told_to_lift()
    }

    pub open spec fn after_command(
        self,
        now: Instant,
        command: Command,
        sensor: SensorSnapshot,
    ) -> RobotState {
        RobotState {
            controller: self.controller.after_command(now, command),
            motors: match self.controller.outcome(command, sensor) {
                Outcome::Act(action) => self.motors.after_action(action),
                Outcome::Reply(response) => self.motors,
            },
        }
    }

    /// The end of a round: the heading is taken over, the failsafe gets its say, and the motors
    /// take a step.
    pub open spec fn after_round(self, now: Instant, heading_deg: u32) -> RobotState {
        let controller = ControllerState { fused_heading: heading_deg, ..self.controller };
        RobotState {
            controller: controller.after_failsafe(now),
            motors: self.motors.after_action(controller.failsafe_action(now)).after_step(),
        }
    }
}

/// The controller and the motors that it commands.
pub struct ControlLoop {
    pub controller: Controller,
    pub motors: Motors,
}

impl View for ControlLoop {
    type V = RobotState;

    open spec fn view(&self) -> RobotState {
        RobotState { controller: self.controller@, motors: self.motors@ }
    }
}

impl ControlLoop {
    /// Carries out a command. A sensor poll gives a response that is to be sent; every other
    /// command goes to the motors.
    pub fn on_command(
        &mut self,
        now: Instant,
        command: Command,
        sensor: &SensorSnapshot,
    ) -> (response: Option<Response>)
        ensures
            final(self)@ == old(self)@.after_command(now, command, *sensor),
            response == (match old(self)@.controller.outcome(command, *sensor) {
                Outcome::Act(action) => None,
                Outcome::Reply(response) => Some(response),
            }),
            old(self)@.in_order() ==> final(self)@.in_order(),
    {
        match self.controller.handle_command(now, command, sensor) {
            Outcome::Act(action) => {
                self.motors.apply_action(action);
                None
            },
            Outcome::Reply(response) => Some(response),
        }
    }

    /// Begins the end of a round: says how the heading follows from the sensors.
    pub fn begin_round(&mut self, now: Instant, sensor: &SensorSnapshot) -> (step: FusionStep)
        requires
            old(self)@.controller.last_fusion_time matches Some(last) ==> last.ticks <= now.ticks,
        ensures
            final(self)@ == (RobotState {
                controller: old(self)@.controller.after_fusion(now),
                ..old(self)@
            }),
            step == old(self)@.controller.fusion_step(now, *sensor),
            old(self)@.in_order() ==> final(self)@.in_order(),
    {
        self.controller.update_fusion(now, sensor)
    }

    /// Ends a round with the heading that was worked out.
    pub fn finish_round(&mut self, now: Instant, heading_deg: u32)
        requires
            old(self)@.controller.watches_timeout() ==> old(self)@.controller.last_cmd_at.ticks
                <= now.ticks,
            old(self)@.motors.after_action(
                old(self)@.controller.failsafe_action(now),
            ).can_step(),
        ensures
            final(self)@ == old(self)@.after_round(now, heading_deg),
            old(self)@.in_order() ==> final(self)@.in_order(),
    {
        self.controller.set_heading(heading_deg);
        let action = self.controller.poll_failsafe(now);
        self.motors.apply_action(action);
        self.motors.step_all();
    }
}

/// Anything that happens to the robot.
pub enum RobotEvent {
    Command { now: Instant, command: Command, sensor: SensorSnapshot },
    Fusion { now: Instant },
    Round { now: Instant, heading_deg: u32 },
    /// The drivers were given what was waiting for them.
    Written,
}

pub open spec fn after_event(state: RobotState, event: RobotEvent) -> RobotState {
    match event {
        RobotEvent::Command { now, command, sensor } => state.after_command(now, command, sensor),
        RobotEvent::Fusion { now } => RobotState {
            controller: state.controller.after_fusion(now),
            ..state
        },
        RobotEvent::Round { now, heading_deg } => state.after_round(now, heading_deg),
        RobotEvent::Written => RobotState { motors: state.motors.after_output(), ..state },
    }
}

pub open spec fn after_events(state: RobotState, events: Seq<RobotEvent>) -> RobotState
    decreases events.len(),
{
    if events.len() == 0 {
        state
    } else {
        after_event(after_events(state, events.drop_last()), events.last())
    }
}

proof fn lemma_action_keeps_limits(motors: MotorsState, action: MotorAction)
    requires
        motors.well_formed(),
    ensures
        motors.after_action(action).well_formed(),
{
}

proof fn lemma_step_keeps_limits(motors: MotorsState)
    requires
        motors.well_formed(),
    ensures
        motors.can_step(),
        motors.after_step().well_formed(),
{
    crate::motor_laws::law_well_formed_motor_steps(motors.left);
    crate::motor_laws::law_well_formed_motor_steps(motors.right);
    crate::motor_laws::law_well_formed_motor_steps(motors.lift);
}

proof fn lemma_event_keeps_limits(state: RobotState, event: RobotEvent)
    requires
        state.motors.well_formed(),
    ensures
        after_event(state, event).motors.well_formed(),
{
    match event {
        RobotEvent::Command { now, command, sensor } => {
            if let Outcome::Act(action) = state.controller.outcome(command, sensor) {
                lemma_action_keeps_limits(state.motors, action);
            }
        },
        RobotEvent::Fusion { now } => {},
        RobotEvent::Written => {},
        RobotEvent::Round { now, heading_deg } => {
            let controller = ControllerState { fused_heading: heading_deg, ..state.controller };
            let action = controller.failsafe_action(now);
            lemma_action_keeps_limits(state.motors, action);
            lemma_step_keeps_limits(state.motors.after_action(action));
        },
    }
}

/// Motors within their limits stay within them, whatever happens to the robot, and at the end of
/// every round they can take their step.
pub proof fn law_motors_stay_within_limits(state: RobotState, events: Seq<RobotEvent>, now: Instant)
    requires
        state.motors.well_formed(),
    ensures
        after_events(state, events).motors.well_formed(),
        after_events(state, events).motors.after_action(
            after_events(state, events).controller.failsafe_action(now),
        ).can_step(),
    decreases events.len(),
{
    let end = after_events(state, events);
    if events.len() > 0 {
        law_motors_stay_within_limits(state, events.drop_last(), now);
        lemma_event_keeps_limits(after_events(state, events.drop_last()), events.last());
    }
    let action = end.controller.failsafe_action(now);
    lemma_action_keeps_limits(end.motors, action);
    lemma_step_keeps_limits(end.motors.after_action(action));
}

/// A new controller and motors at rest make a robot in order, with nothing on record.
pub proof fn law_new_robot_is_in_order(settings: Settings, now: Instant, motors: MotorsState)
    requires
        motors.at_rest(),
    ensures
        (RobotState { controller: ControllerState::fresh(settings, now), motors }).in_order(),
        (RobotState {
            controller: ControllerState::fresh(settings, now),
            motors,
        }).record_is_backed(),
        ControllerState::fresh(settings, now).interlocked(),
{
}

/// Whatever happens to a robot in order, its motors are told to drive or to lift only where the
/// controller has that on record, and they rest while a stop or an emergency stop holds.
pub proof fn law_motors_follow_the_record(state: RobotState, events: Seq<RobotEvent>)
    requires
        state.in_order(),
    ensures
        after_events(state, events).in_order(),
    decreases events.len(),
{
    if events.len() > 0 {
        law_motors_follow_the_record(state, events.drop_last());
    }
}

/// A record that says driving exactly when a drive motor is to run, and lifting exactly when the
/// lift is, goes on saying so whatever happens to the robot.
pub proof fn law_record_is_exact(state: RobotState, events: Seq<RobotEvent>)
    requires
        state.in_order(),
        state.record_is_backed(),
    ensures
        after_events(state, events).controller.drive_active <==> after_events(
            state,
            events,
        ).motors.told_to_drive(),
        after_events(state, events).controller.lift_active <==> after_events(
            state,
            events,
        ).motors.told_to_lift(),
    decreases events.len(),
{
    if events.len() > 0 {
        law_record_is_exact(state, events.drop_last());
        law_motors_follow_the_record(state, events.drop_last());
    }
}

/// With both interlocks on, no run of events has the motors told to drive and to lift at once: the
/// targets of both drive motors are zero, or that of the lift is. A motor with a zero target may
/// still be on its ramp down.
pub proof fn law_interlock_reaches_the_motors(state: RobotState, events: Seq<RobotEvent>)
    requires
        state.in_order(),
        state.controller.interlocked(),
        state.controller.settings.block_drive_when_lifting,
        state.controller.settings.block_lift_when_driving,
    ensures
        after_events(state, events).controller.interlocked(),
        ({
            let motors = after_events(state, events).motors;
            ||| motors.left.target_speed == 0 && motors.right.target_speed == 0
            ||| motors.lift.target_speed == 0
        }),
{
    law_motors_follow_the_record(state, events);
    lemma_interlock_is_kept(state, events);
}

proof fn lemma_interlock_is_kept(state: RobotState, events: Seq<RobotEvent>)
    requires
        state.controller.interlocked(),
        state.controller.settings.block_drive_when_lifting,
        state.controller.settings.block_lift_when_driving,
    ensures
        after_events(state, events).controller.interlocked(),
        after_events(state, events).controller.settings == state.controller.settings,
    decreases events.len(),
{
    if events.len() > 0 {
        lemma_interlock_is_kept(state, events.drop_last());
    }
}

/// From an emergency stop on, with the latch set, every motor is at rest and stays so, whatever
/// commands follow and however long the loop runs.
pub proof fn law_emergency_stop_rests_the_robot(
    state: RobotState,
    now: Instant,
    sensor: SensorSnapshot,
    events: Seq<RobotEvent>,
)
    requires
        state.controller.settings.estop_latch,
    ensures
        after_events(
            state.after_command(now, Command::EmergencyStop, sensor),
            events,
        ).motors.at_rest(),
        after_events(
            state.after_command(now, Command::EmergencyStop, sensor),
            events,
        ).controller.estop_active,
        after_events(
            state.after_command(now, Command::EmergencyStop, sensor),
            events,
        ).controller.settings.estop_latch,
    decreases events.len(),
{
    if events.len() > 0 {
        law_emergency_stop_rests_the_robot(state, now, sensor, events.drop_last());
    }
}

/// A stop command brings every motor to rest at once.
pub proof fn law_stop_rests_the_robot(state: RobotState, now: Instant, sensor: SensorSnapshot)
    ensures
        state.after_command(now, Command::Stop, sensor).motors.at_rest(),
{
}

/// A round in which the failsafe is due leaves every motor at rest.
pub proof fn law_failsafe_rests_the_robot(state: RobotState, now: Instant, heading_deg: u32)
    requires
        state.controller.failsafe_due(now),
    ensures
        state.after_round(now, heading_deg).motors.at_rest(),
        state.after_round(now, heading_deg).controller.stop_active,
{
}

/// Motors at rest stay at rest until a command asks for movement.
pub proof fn law_only_commands_move_the_robot(state: RobotState, events: Seq<RobotEvent>)
    requires
        state.motors.at_rest(),
        forall|i: int|
            0 <= i < events.len() ==> !(#[trigger] events[i] matches RobotEvent::Command {
                now,
                command,
                sensor,
            } && crate::control_laws::asks_for_movement(command)),
    ensures
        after_events(state, events).motors.at_rest(),
    decreases events.len(),
{
    if events.len() > 0 {
        assert forall|i: int| 0 <= i < events.drop_last().len() implies !(
        #[trigger] events.drop_last()[i] matches RobotEvent::Command { now, command, sensor }
            && crate::control_laws::asks_for_movement(command)) by {
            assert(events.drop_last()[i] == events[i]);
        }
        law_only_commands_move_the_robot(state, events.drop_last());
        let last = events[events.len() - 1];
        assert(!(last matches RobotEvent::Command { now, command, sensor }
            && crate::control_laws::asks_for_movement(command)));
    }
}

/// Whether a round comes later than the command timeout allows.
pub open spec fn is_overdue(controller: ControllerState, event: RobotEvent) -> bool {
    event matches RobotEvent::Round { now, heading_deg } && now.ticks
        - controller.last_cmd_at.ticks > controller.settings.command_timeout.ticks
}

/// A robot that hears nothing comes to rest: once a round comes later than the timeout after the
/// last command, every motor is at rest, and stays so for as long as no command comes in.
pub proof fn law_silence_rests_the_robot(state: RobotState, events: Seq<RobotEvent>, late: int)
    requires
        !state.controller.estop_active,
        !state.controller.failsafe_active,
        forall|i: int| 0 <= i < events.len() ==> !(#[trigger] events[i] is Command),
        0 <= late < events.len(),
        is_overdue(state.controller, events[late]),
    ensures
        after_events(state, events).motors.at_rest(),
{
    lemma_silence(state, events);
}

proof fn lemma_silence(state: RobotState, events: Seq<RobotEvent>)
    requires
        !state.controller.estop_active,
        !state.controller.failsafe_active,
        forall|i: int| 0 <= i < events.len() ==> !(#[trigger] events[i] is Command),
    ensures
        after_events(state, events).controller.settings == state.controller.settings,
        after_events(state, events).controller.last_cmd_at == state.controller.last_cmd_at,
        !after_events(state, events).controller.estop_active,
        after_events(state, events).controller.failsafe_active ==> after_events(
            state,
            events,
        ).motors.at_rest(),
        !after_events(state, events).controller.failsafe_active ==> (forall|i: int|
            0 <= i < events.len() ==> !is_overdue(state.controller, #[trigger] events[i])),
    decreases events.len(),
{
    if events.len() > 0 {
        let before = events.drop_last();
        assert forall|i: int| 0 <= i < before.len() implies !(#[trigger] before[i] is Command) by {
            assert(before[i] == events[i]);
        }
        lemma_silence(state, before);
        assert(!(events[events.len() - 1] is Command));
        if !after_events(state, events).controller.failsafe_active {
            assert forall|i: int| 0 <= i < events.len() implies !is_overdue(
                state.controller,
                #[trigger] events[i],
            ) by {
                if i < before.len() {
                    assert(!is_overdue(state.controller, before[i]));
                }
            }
        }
    }
}

/// What is known of the robot is what is known of its controller and of its motors.
pub proof fn law_robot_is_known_by_its_parts(robot: ControlLoop)
    ensures
        robot@.controller == robot.controller@,
        robot@.motors == robot.motors@,
{
}

/// A drive command that nothing stands in the way of sets the target of the left motor to the left
/// speed and that of the right motor to the right speed, each unchanged or cut to the limit that it
/// exceeds. How the motors run is left to their ramps, and the lift is left alone.
pub proof fn law_drive_sets_the_targets(
    state: RobotState,
    now: Instant,
    left: i8,
    right: i8,
    sensor: SensorSnapshot,
)
    requires
        !state.controller.estop_active,
        !(state.controller.settings.block_drive_when_lifting && state.controller.lift_active),
        left != 0 || right != 0,
    ensures
        ({
            let motors = state.after_command(now, Command::Drive { left, right }, sensor).motors;
            &&& -100 <= left <= 100 ==> motors.left.target_speed == left
            &&& left > 100 ==> motors.left.target_speed == 100
            &&& left < -100 ==> motors.left.target_speed == -100
            &&& -100 <= right <= 100 ==> motors.right.target_speed == right
            &&& right > 100 ==> motors.right.target_speed == 100
            &&& right < -100 ==> motors.right.target_speed == -100
            &&& motors == (MotorsState {
                left: MotorState {
                    target_speed: motors.left.target_speed,
                    ..state.motors.left
                },
                right: MotorState {
                    target_speed: motors.right.target_speed,
                    ..state.motors.right
                },
                lift: state.motors.lift,
            })
        }),
{
    crate::control_laws::law_drive_is_carried_out(state.controller, now, left, right);
}

/// Any other drive command sets the targets of both drive motors to zero, down to which they run
/// on their ramps, and leaves the lift alone.
pub proof fn law_other_drive_clears_the_targets(
    state: RobotState,
    now: Instant,
    left: i8,
    right: i8,
    sensor: SensorSnapshot,
)
    requires
        state.controller.estop_active || state.controller.settings.block_drive_when_lifting
            && state.controller.lift_active || left == 0 && right == 0,
    ensures
        state.after_command(now, Command::Drive { left, right }, sensor).motors == (MotorsState {
            left: MotorState { target_speed: 0, ..state.motors.left },
            right: MotorState { target_speed: 0, ..state.motors.right },
            lift: state.motors.lift,
        }),
{
}

/// A lift command that nothing stands in the way of sets the target of the lift to the power,
/// unchanged or cut to the limit that it exceeds, whatever the lift is doing already; any other
/// lift command sets it to zero. How the lift runs is left to its ramp, and the drive motors are
/// left alone.
pub proof fn law_lift_sets_the_target(
    state: RobotState,
    now: Instant,
    power: i8,
    sensor: SensorSnapshot,
)
    ensures
        ({
            let motors = state.after_command(now, Command::Lift { power }, sensor).motors;
            let blocked = state.controller.estop_active
                || state.controller.settings.block_lift_when_driving
                && state.controller.drive_active;
            &&& !blocked && -100 <= power <= 100 ==> motors.lift.target_speed == power
            &&& !blocked && power > 100 ==> motors.lift.target_speed == 100
            &&& !blocked && power < -100 ==> motors.lift.target_speed == -100
            &&& blocked ==> motors.lift.target_speed == 0
            &&& motors == (MotorsState {
                lift: MotorState {
                    target_speed: motors.lift.target_speed,
                    ..state.motors.lift
                },
                ..state.motors
            })
        }),
{
}

/// A stop and an emergency stop take speed and target of every motor to zero at once and have both
/// inputs of every driver switched off. A sensor poll leaves the motors alone.
pub proof fn law_stops_switch_the_motors_off(
    state: RobotState,
    now: Instant,
    command: Command,
    sensor: SensorSnapshot,
)
    ensures
        ({
            let motors = state.after_command(now, command, sensor).motors;
            let off = Some(PwmDuty { rpwm: 0, lpwm: 0 });
            &&& command is Stop || command is EmergencyStop ==> motors == (MotorsState {
                left: MotorState {
                    current_speed: 0,
                    target_speed: 0,
                    output: off,
                    ..state.motors.left
                },
                right: MotorState {
                    current_speed: 0,
                    target_speed: 0,
                    output: off,
                    ..state.motors.right
                },
                lift: MotorState {
                    current_speed: 0,
                    target_speed: 0,
                    output: off,
                    ..state.motors.lift
                },
            })
            &&& command is SensorPoll ==> motors == state.motors
        }),
        state.after_command(now, command, sensor).controller == state.controller.after_command(
            now,
            command,
        ),
{
}

/// The end of a round takes over the heading. Where more than the timeout has passed since the last
/// command, no emergency stop holds and the failsafe has not fired since, every motor is switched
/// off and the stop is put in force; otherwise every motor takes its own step, and nothing else
/// changes.
pub proof fn law_round_in_full(state: RobotState, now: Instant, heading_deg: u32)
    ensures
        ({
            let next = state.after_round(now, heading_deg);
            let off = Some(PwmDuty { rpwm: 0, lpwm: 0 });
            let silent = !state.controller.estop_active && !state.controller.failsafe_active
                && now.ticks > state.controller.last_cmd_at.ticks
                + state.controller.settings.command_timeout.ticks;
            &&& !silent ==> {
                &&& next.motors.left == state.motors.left.after_step()
                &&& next.motors.right == state.motors.right.after_step()
                &&& next.motors.lift == state.motors.lift.after_step()
                &&& next.controller == (ControllerState {
                    fused_heading: heading_deg,
                    ..state.controller
                })
            }
            &&& silent ==> {
                &&& next.motors.left == (MotorState {
                    current_speed: 0,
                    target_speed: 0,
                    output: off,
                    ..state.motors.left
                })
                &&& next.motors.right == (MotorState {
                    current_speed: 0,
                    target_speed: 0,
                    output: off,
                    ..state.motors.right
                })
                &&& next.motors.lift == (MotorState {
                    current_speed: 0,
                    target_speed: 0,
                    output: off,
                    ..state.motors.lift
                })
                &&& next.controller == (ControllerState {
                    fused_heading: heading_deg,
                    stop_active: true,
                    drive_active: false,
                    lift_active: false,
                    failsafe_active: true,
                    ..state.controller
                })
            }
        }),
{
}

/// How many rounds came to an end in a run of events.
pub open spec fn rounds_in(events: Seq<RobotEvent>) -> nat
    decreases events.len(),
{
    if events.len() == 0 {
        0
    } else if events.last() is Round {
        rounds_in(events.drop_last()) + 1
    } else {
        rounds_in(events.drop_last())
    }
}

/// Whether a motor that `start` was is on its way: at most `left` away from its target, which is
/// the one it had or, after a stop, zero.
spec fn is_closing_in(start: MotorState, motor: MotorState, left: int) -> bool {
    &&& -100 <= motor.current_speed <= 100
    &&& -100 <= motor.target_speed <= 100
    &&& motor.ramp_step >= 1
    &&& motor.target_speed - motor.current_speed <= left
    &&& motor.current_speed - motor.target_speed <= left
    &&& motor.target_speed == start.target_speed || motor.target_speed == 0
}

proof fn lemma_step_closes_in(start: MotorState, motor: MotorState, left: int)
    requires
        is_closing_in(start, motor, left),
        left >= 0,
    ensures
        is_closing_in(
            start,
            motor.after_step(),
            if left > 0 {
                left - 1
            } else {
                0
            },
        ),
{
    crate::motor_laws::law_step_in_numbers(motor);
}

proof fn lemma_rounds_close_in(state: RobotState, events: Seq<RobotEvent>)
    requires
        forall|i: int| 0 <= i < events.len() ==> !(#[trigger] events[i] is Command),
        is_closing_in(state.motors.left, state.motors.left, 200),
        is_closing_in(state.motors.right, state.motors.right, 200),
        is_closing_in(state.motors.lift, state.motors.lift, 200),
    ensures
        ({
            let end = after_events(state, events).motors;
            let rest = if rounds_in(events) < 200 {
                200 - rounds_in(events)
            } else {
                0
            };
            &&& is_closing_in(state.motors.left, end.left, rest)
            &&& is_closing_in(state.motors.right, end.right, rest)
            &&& is_closing_in(state.motors.lift, end.lift, rest)
        }),
    decreases events.len(),
{
    if events.len() > 0 {
        let before = events.drop_last();
        assert forall|i: int| 0 <= i < before.len() implies !(#[trigger] before[i] is Command) by {
            assert(before[i] == events[i]);
        }
        lemma_rounds_close_in(state, before);
        let last = events[events.len() - 1];
        assert(!(last is Command));
        let rest = if rounds_in(before) < 200 {
            200 - rounds_in(before)
        } else {
            0
        };
        if let RobotEvent::Round { now, heading_deg } = last {
            let held = after_events(state, before);
            law_round_in_full(held, now, heading_deg);
            lemma_step_closes_in(state.motors.left, held.motors.left, rest);
            lemma_step_closes_in(state.motors.right, held.motors.right, rest);
            lemma_step_closes_in(state.motors.lift, held.motors.lift, rest);
        }
    }
}

/// Without further commands, any two hundred rounds take every motor to its target, a target of
/// zero included: to the one that it had, or to a standstill where the failsafe stepped in.
pub proof fn law_rounds_reach_the_targets(state: RobotState, events: Seq<RobotEvent>)
    requires
        forall|i: int| 0 <= i < events.len() ==> !(#[trigger] events[i] is Command),
        rounds_in(events) >= 200,
        -100 <= state.motors.left.current_speed <= 100,
        -100 <= state.motors.left.target_speed <= 100,
        state.motors.left.ramp_step >= 1,
        -100 <= state.motors.right.current_speed <= 100,
        -100 <= state.motors.right.target_speed <= 100,
        state.motors.right.ramp_step >= 1,
        -100 <= state.motors.lift.current_speed <= 100,
        -100 <= state.motors.lift.target_speed <= 100,
        state.motors.lift.ramp_step >= 1,
    ensures
        ({
            let end = after_events(state, events).motors;
            &&& end.left.current_speed == end.left.target_speed
            &&& end.right.current_speed == end.right.target_speed
            &&& end.lift.current_speed == end.lift.target_speed
            &&& end.left.target_speed == state.motors.left.target_speed || end.left.target_speed
                == 0
            &&& end.right.target_speed == state.motors.right.target_speed || end.right.target_speed
                == 0
            &&& end.lift.target_speed == state.motors.lift.target_speed || end.lift.target_speed
                == 0
        }),
{
    lemma_rounds_close_in(state, events);
}

} // verus!
