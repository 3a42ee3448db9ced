//! What the safety controller promises over whole runs of events.
use vstd::prelude::*;

use crate::control::{ControllerState, FusionStep, MotorAction, Outcome, SensorSnapshot, Settings};
use crate::protocol::{Command, Response};
use crate::time::Instant;

verus! {

/// Anything that can change what the controller knows.
pub enum ControlEvent {
    Command { now: Instant, command: Command },
    FailsafePoll { now: Instant },
    Fusion { now: Instant },
    Heading { heading_deg: u32 },
    Reset { now: Instant },
}

pub open spec fn after_event(state: ControllerState, event: ControlEvent) -> ControllerState {
    match event {
        ControlEvent::Command { now, command } => state.after_command(now, command),
        ControlEvent::FailsafePoll { now } => state.after_failsafe(now),
        ControlEvent::Fusion { now } => state.after_fusion(now),
        ControlEvent::Heading { heading_deg } => ControllerState {
            fused_heading: heading_deg,
            ..state
        },
        ControlEvent::Reset { now } => state.after_reset(now),
    }
}

pub open spec fn after_events(state: ControllerState, events: Seq<ControlEvent>) -> ControllerState
    decreases events.len(),
{
    if events.len() == 0 {
        state
    } else {
        after_event(after_events(state, events.drop_last()), events.last())
    }
}

/// An action that sets no motor in motion.
pub open spec fn is_motionless(action: MotorAction) -> bool {
    &&& action.drive matches Some(speeds) ==> speeds == (0i8, 0i8)
    &&& action.lift matches Some(power) ==> power == 0
}

/// An action whose speeds lie within the motors' limits.
pub open spec fn is_limited(action: MotorAction) -> bool {
    &&& action.drive matches Some(speeds) ==> -100 <= speeds.0 <= 100 && -100 <= speeds.1 <= 100
    &&& action.lift matches Some(power) ==> -100 <= power <= 100
}

/// The settings never change.
pub proof fn law_settings_are_kept(state: ControllerState, events: Seq<ControlEvent>)
    ensures
        after_events(state, events).settings == state.settings,
    decreases events.len(),
{
    if events.len() > 0 {
        law_settings_are_kept(state, events.drop_last());
    }
}

/// In every state that a new controller can reach, a stop or an emergency stop means that neither
/// driving nor lifting is on record, and the failsafe holds only together with a stop.
pub proof fn law_consistency_is_kept(settings: Settings, now: Instant, events: Seq<ControlEvent>)
    ensures
        after_events(ControllerState::fresh(settings, now), events).consistent(),
    decreases events.len(),
{
    if events.len() > 0 {
        law_consistency_is_kept(settings, now, events.drop_last());
    }
}

/// With both interlocks on, no run of events leaves the robot driving and lifting at once.
pub proof fn law_interlock_holds(settings: Settings, now: Instant, events: Seq<ControlEvent>)
    requires
        settings.block_drive_when_lifting,
        settings.block_lift_when_driving,
    ensures
        after_events(ControllerState::fresh(settings, now), events).interlocked(),
    decreases events.len(),
{
    if events.len() > 0 {
        law_interlock_holds(settings, now, events.drop_last());
        law_settings_are_kept(ControllerState::fresh(settings, now), events.drop_last());
    }
}

/// While one of the two movements is on record, its interlock turns every command for the other
/// one into a command to stand still.
pub proof fn law_interlock_refuses(state: ControllerState, left: i8, right: i8, power: i8)
    ensures
        state.settings.block_drive_when_lifting && state.lift_active ==> is_motionless(
            state.drive_action(left, right),
        ),
        state.settings.block_lift_when_driving && state.drive_active ==> is_motionless(
            state.lift_action(power),
        ),
{
}

/// A latched emergency stop outlasts every event but a reset, and while it lasts no command gets a
/// motor moving.
pub proof fn law_latched_estop_holds(
    state: ControllerState,
    events: Seq<ControlEvent>,
    command: Command,
    sensor: SensorSnapshot,
)
    requires
        state.estop_active,
        state.settings.estop_latch,
        forall|i: int| 0 <= i < events.len() ==> !(#[trigger] events[i] is Reset),
    ensures
        after_events(state, events).estop_active,
        after_events(state, events).outcome(command, sensor) matches Outcome::Act(action)
            ==> is_motionless(action),
    decreases events.len(),
{
    if events.len() > 0 {
        law_settings_are_kept(state, events.drop_last());
        assert forall|i: int| 0 <= i < events.drop_last().len() implies !(
        #[trigger] events.drop_last()[i] is Reset) by {
            assert(events.drop_last()[i] == events[i]);
        }
        law_latched_estop_holds(state, events.drop_last(), command, sensor);
        assert(!(events[events.len() - 1] is Reset));
    }
}

/// An emergency stop that is not latched ends with a stop command, and short of a reset with
/// nothing else.
pub proof fn law_unlatched_estop_ends_with_stop(state: ControllerState, event: ControlEvent)
    requires
        state.estop_active,
        !state.settings.estop_latch,
        !(event is Reset),
    ensures
        after_event(state, event).estop_active <==> !(event matches ControlEvent::Command {
            now,
            command,
        } && command is Stop),
{
}

/// No command can ask the motors for more than their limits.
pub proof fn law_speeds_are_limited(
    state: ControllerState,
    command: Command,
    sensor: SensorSnapshot,
)
    ensures
        state.outcome(command, sensor) matches Outcome::Act(action) ==> is_limited(action),
{
}

/// Whether a command asks for movement.
pub open spec fn asks_for_movement(command: Command) -> bool {
    match command {
        Command::Drive { left, right } => left != 0 || right != 0,
        Command::Lift { power } => power != 0,
        _ => false,
    }
}

/// A stop holds until a command asks for movement.
pub proof fn law_stop_holds_until_movement(state: ControllerState, event: ControlEvent)
    requires
        state.stop_active,
        !(event is Reset),
    ensures
        after_event(state, event).stop_active <==> !(event matches ControlEvent::Command {
            now,
            command,
        } && asks_for_movement(command)),
{
}

/// Whether an event polls the failsafe later than the timeout after `at`.
pub open spec fn is_late_poll(settings: Settings, at: Instant, event: ControlEvent) -> bool {
    event matches ControlEvent::FailsafePoll { now } && now.ticks - at.ticks
        > settings.command_timeout.ticks
}

/// Every command restarts the failsafe's clock. After it, over any run of polls and heading
/// updates, the failsafe is due exactly when more than the timeout has passed since that command,
/// unless the emergency stop is active or an earlier poll was late enough to fire already.
pub proof fn law_command_restarts_the_clock(
    state: ControllerState,
    at: Instant,
    command: Command,
    events: Seq<ControlEvent>,
    now: Instant,
)
    requires
        forall|i: int|
            0 <= i < events.len() ==> !(#[trigger] events[i] is Command) && !(events[i] is Reset),
    ensures
        after_events(state.after_command(at, command), events).failsafe_due(now) <==> {
            &&& !state.after_command(at, command).estop_active
            &&& now.ticks - at.ticks > state.settings.command_timeout.ticks
            &&& forall|i: int|
                0 <= i < events.len() ==> !is_late_poll(state.settings, at, #[trigger] events[i])
        },
        after_events(state.after_command(at, command), events).failsafe_action(now).stop_all
            ==> now.ticks - at.ticks > state.settings.command_timeout.ticks,
{
    lemma_clock_runs_on(state.after_command(at, command), events);
}

/// Between commands the time of the last one stands, and the failsafe is active exactly when a
/// poll was late.
proof fn lemma_clock_runs_on(state: ControllerState, events: Seq<ControlEvent>)
    requires
        !state.failsafe_active,
        forall|i: int|
            0 <= i < events.len() ==> !(#[trigger] events[i] is Command) && !(events[i] is Reset),
    ensures
        after_events(state, events).settings == state.settings,
        after_events(state, events).last_cmd_at == state.last_cmd_at,
        after_events(state, events).estop_active == state.estop_active,
        after_events(state, events).failsafe_active <==> !state.estop_active && exists|i: int|
            0 <= i < events.len() && is_late_poll(
                state.settings,
                state.last_cmd_at,
                #[trigger] events[i],
            ),
    decreases events.len(),
{
    if events.len() > 0 {
        let before = events.drop_last();
        assert forall|i: int| 0 <= i < before.len() implies !(#[trigger] before[i] is Command) && !(
        before[i] is Reset) by {
            assert(before[i] == events[i]);
        }
        lemma_clock_runs_on(state, before);
        let last = events[events.len() - 1];
        assert(!(last is Command) && !(last is Reset));
        if exists|i: int|
            0 <= i < before.len() && is_late_poll(
                state.settings,
                state.last_cmd_at,
                #[trigger] before[i],
            ) {
            let i = choose|i: int|
                0 <= i < before.len() && is_late_poll(
                    state.settings,
                    state.last_cmd_at,
                    #[trigger] before[i],
                );
            assert(is_late_poll(state.settings, state.last_cmd_at, events[i]));
        } else {
            assert forall|i: int| 0 <= i < events.len() - 1 implies !is_late_poll(
                state.settings,
                state.last_cmd_at,
                #[trigger] events[i],
            ) by {
                assert(!is_late_poll(state.settings, state.last_cmd_at, before[i]));
            }
        }
    }
}

/// A failsafe that is due stops the robot, and a second poll right after it, at whatever time,
/// asks for nothing and changes nothing.
pub proof fn law_failsafe_fires_once(state: ControllerState, first: Instant, again: Instant)
    requires
        state.failsafe_due(first),
    ensures
        state.failsafe_action(first) == (MotorAction { stop_all: true, ..MotorAction::none() }),
        state.after_failsafe(first).failsafe_action(again) == MotorAction::none(),
        state.after_failsafe(first).after_failsafe(again) == state.after_failsafe(first),
{
}

/// Once it has fired, the failsafe asks for nothing and changes nothing over any run of polls and
/// heading updates, until the next command or reset. The stop that it brought about holds as long.
pub proof fn law_failsafe_stays_quiet(
    state: ControllerState,
    first: Instant,
    events: Seq<ControlEvent>,
    again: Instant,
)
    requires
        state.failsafe_due(first),
        forall|i: int|
            0 <= i < events.len() ==> !(#[trigger] events[i] is Command) && !(events[i] is Reset),
    ensures
        after_events(state.after_failsafe(first), events).failsafe_action(again)
            == MotorAction::none(),
        after_events(state.after_failsafe(first), events).after_failsafe(again) == after_events(
            state.after_failsafe(first),
            events,
        ),
        after_events(state.after_failsafe(first), events).failsafe_active,
        after_events(state.after_failsafe(first), events).stop_active,
    decreases events.len(),
{
    if events.len() > 0 {
        let before = events.drop_last();
        assert forall|i: int| 0 <= i < before.len() implies !(#[trigger] before[i] is Command) && !(
        before[i] is Reset) by {
            assert(before[i] == events[i]);
        }
        law_failsafe_stays_quiet(state, first, before, again);
        assert(!(events[events.len() - 1] is Command) && !(events[events.len() - 1] is Reset));
    }
}

/// A reset brings back the controller as it was when new, but for the heading.
pub proof fn law_reset_starts_over(state: ControllerState, now: Instant)
    ensures
        state.after_reset(now) == (ControllerState {
            fused_heading: state.fused_heading,
            last_fusion_time: state.last_fusion_time,
            ..ControllerState::fresh(state.settings, now)
        }),
{
}

/// The first heading update takes over the magnetometer's heading, and so does one at the time of
/// the last update; any later one blends over the time in between.
pub proof fn law_fusion_adopts_then_blends(
    settings: Settings,
    start: Instant,
    state: ControllerState,
    last: Instant,
    now: Instant,
    sensor: SensorSnapshot,
)
    requires
        last.ticks <= now.ticks,
    ensures
        ControllerState::fresh(settings, start).fusion_step(now, sensor) is Adopt,
        state.after_fusion(last).fusion_step(now, sensor) is Adopt <==> now == last,
        state.after_fusion(last).fusion_step(now, sensor) matches FusionStep::Blend {
            elapsed_micros,
            heading_deg,
            ..
        } ==> elapsed_micros == now.ticks - last.ticks && heading_deg == state.fused_heading,
{
}

/// The nearest speed within the limits: none from -100 to 100 lies closer to the one asked for.
pub proof fn law_clamped_speed_is_the_nearest(value: i8, other: int)
    requires
        -100 <= other <= 100,
    ensures
        -100 <= crate::control::clamped(value) <= 100,
        value <= other ==> crate::control::clamped(value) <= other,
        value >= other ==> crate::control::clamped(value) >= other,
{
}

/// A drive command that asks for movement is carried out unless an emergency stop or the interlock
/// is in the way: the left speed goes to the left side and the right speed to the right side, each
/// unchanged or cut to the limit that it exceeds. It ends a stop, and it is put on record.
pub proof fn law_drive_is_carried_out(state: ControllerState, now: Instant, left: i8, right: i8)
    requires
        !state.estop_active,
        !(state.settings.block_drive_when_lifting && state.lift_active),
        left != 0 || right != 0,
    ensures
        ({
            let action = state.drive_action(left, right);
            let next = state.after_drive(now, left, right);
            let speeds = action.drive->0;
            &&& action.drive is Some
            &&& -100 <= left <= 100 ==> speeds.0 == left
            &&& left > 100 ==> speeds.0 == 100
            &&& left < -100 ==> speeds.0 == -100
            &&& -100 <= right <= 100 ==> speeds.1 == right
            &&& right > 100 ==> speeds.1 == 100
            &&& right < -100 ==> speeds.1 == -100
            &&& next.drive_active
            &&& !next.stop_active
        }),
{
}

/// Any other drive command has the drive motors stand still and takes driving off the record: one
/// with both speeds zero, one under an emergency stop, and one that the interlock blocks. A stop
/// ends if and only if the command asks for movement.
pub proof fn law_other_drive_stands_still(
    state: ControllerState,
    now: Instant,
    left: i8,
    right: i8,
)
    requires
        state.estop_active || state.settings.block_drive_when_lifting && state.lift_active || left
            == 0 && right == 0,
    ensures
        state.drive_action(left, right).drive == Some((0i8, 0i8)),
        !state.after_drive(now, left, right).drive_active,
        state.after_drive(now, left, right).stop_active <==> state.stop_active && left == 0 && right
            == 0,
{
}

/// A drive command asks for nothing but the drive speeds. Of what is known it touches the time of
/// the last command, the failsafe, the stop and the record of driving.
pub proof fn law_drive_touches_nothing_else(
    state: ControllerState,
    now: Instant,
    left: i8,
    right: i8,
)
    ensures
        ({
            let action = state.drive_action(left, right);
            let next = state.after_drive(now, left, right);
            &&& action.lift is None && !action.stop_all && !action.emergency_stop
            &&& next == (ControllerState {
                last_cmd_at: now,
                failsafe_active: false,
                stop_active: next.stop_active,
                drive_active: next.drive_active,
                ..state
            })
        }),
{
}

/// A lift command that asks for movement is carried out unless an emergency stop or the interlock
/// is in the way, whatever the lift is doing already: with the power unchanged or cut to the limit
/// that it exceeds. It ends a stop, and it is put on record.
pub proof fn law_lift_is_carried_out(state: ControllerState, now: Instant, power: i8)
    requires
        !state.estop_active,
        !(state.settings.block_lift_when_driving && state.drive_active),
        power != 0,
    ensures
        ({
            let action = state.lift_action(power);
            let next = state.after_lift(now, power);
            &&& action.lift is Some
            &&& -100 <= power <= 100 ==> action.lift->0 == power
            &&& power > 100 ==> action.lift->0 == 100
            &&& power < -100 ==> action.lift->0 == -100
            &&& next.lift_active
            &&& !next.stop_active
        }),
{
}

/// Any other lift command has the lift stand still and takes lifting off the record: one without
/// power, one under an emergency stop, and one that the interlock blocks. A stop ends if and only
/// if the command asks for movement.
pub proof fn law_other_lift_stands_still(state: ControllerState, now: Instant, power: i8)
    requires
        state.estop_active || state.settings.block_lift_when_driving && state.drive_active || power
            == 0,
    ensures
        state.lift_action(power).lift == Some(0i8),
        !state.after_lift(now, power).lift_active,
        state.after_lift(now, power).stop_active <==> state.stop_active && power == 0,
{
}

/// A lift command asks for nothing but the power of the lift. Of what is known it touches the time
/// of the last command, the failsafe, the stop and the record of lifting.
pub proof fn law_lift_touches_nothing_else(state: ControllerState, now: Instant, power: i8)
    ensures
        ({
            let action = state.lift_action(power);
            let next = state.after_lift(now, power);
            &&& action.drive is None && !action.stop_all && !action.emergency_stop
            &&& next == (ControllerState {
                last_cmd_at: now,
                failsafe_active: false,
                stop_active: next.stop_active,
                lift_active: next.lift_active,
                ..state
            })
        }),
{
}

/// A stop and an emergency stop leave no movement on record, and a stop in force. The emergency
/// stop begins with an emergency stop alone, and a plain stop ends it just where it is not latched.
/// Neither touches the settings or the heading.
pub proof fn law_stops_clear_the_record(state: ControllerState, now: Instant)
    ensures
        state.after_stop(now) == (ControllerState {
            last_cmd_at: now,
            failsafe_active: false,
            stop_active: true,
            drive_active: false,
            lift_active: false,
            estop_active: if state.settings.estop_latch {
                state.estop_active
            } else {
                false
            },
            ..state
        }),
        state.after_estop(now) == (ControllerState {
            estop_active: true,
            ..state.after_stop(now)
        }),
{
}

/// A sensor poll counts as a sign of life and changes nothing else.
pub proof fn law_poll_only_marks_the_time(state: ControllerState, now: Instant)
    ensures
        state.after_poll(now) == (ControllerState {
            last_cmd_at: now,
            failsafe_active: false,
            ..state
        }),
{
}

/// Each command has its own effect: a stop asks for a stop alone, an emergency stop for an
/// emergency stop alone, a poll is answered with the flags and the heading and asks the motors for
/// nothing, and the two movements go their own ways.
pub proof fn law_commands_have_their_own_effect(
    state: ControllerState,
    now: Instant,
    sensor: SensorSnapshot,
    left: i8,
    right: i8,
    power: i8,
)
    ensures
        ({
            let outcome = state.outcome(Command::Stop, sensor);
            &&& outcome is Act
            &&& outcome->Act_0.stop_all && !outcome->Act_0.emergency_stop
            &&& outcome->Act_0.drive is None && outcome->Act_0.lift is None
        }),
        ({
            let outcome = state.outcome(Command::EmergencyStop, sensor);
            &&& outcome is Act
            &&& outcome->Act_0.emergency_stop && !outcome->Act_0.stop_all
            &&& outcome->Act_0.drive is None && outcome->Act_0.lift is None
        }),
        state.outcome(Command::SensorPoll, sensor) == Outcome::Reply(
            Response::SensorStatus {
                flags: crate::control::flags_of(sensor),
                heading_deg: state.fused_heading,
            },
        ),
        state.outcome(Command::Drive { left, right }, sensor) == Outcome::Act(
            state.drive_action(left, right),
        ),
        state.outcome(Command::Lift { power }, sensor) == Outcome::Act(state.lift_action(power)),
        state.after_command(now, Command::Stop) == state.after_stop(now),
        state.after_command(now, Command::EmergencyStop) == state.after_estop(now),
        state.after_command(now, Command::SensorPoll) == state.after_poll(now),
        state.after_command(now, Command::Drive { left, right }) == state.after_drive(
            now,
            left,
            right,
        ),
        state.after_command(now, Command::Lift { power }) == state.after_lift(now, power),
{
}

/// Each bumper and switch has its own bit in the flags, and the three highest bits are clear.
pub proof fn law_each_flag_has_its_bit(sensor: SensorSnapshot)
    ensures
        ({
            let flags = crate::control::flags_of(sensor);
            &&& flags < 0x20
            &&& sensor.collision_fl <==> flags % 2 == 1
            &&& sensor.collision_fc <==> flags / 2 % 2 == 1
            &&& sensor.collision_fr <==> flags / 4 % 2 == 1
            &&& sensor.top_switch_activated <==> flags / 8 % 2 == 1
            &&& sensor.bottom_switch_activated <==> flags / 16 % 2 == 1
        }),
{
}

/// The failsafe asks for a stop, and for nothing else, exactly when more than the timeout has
/// passed since the last command, no emergency stop holds and it has not fired since. It then ends
/// every movement on record and puts the stop in force; otherwise it changes nothing.
pub proof fn law_failsafe_stops_on_silence(state: ControllerState, now: Instant)
    ensures
        ({
            let action = state.failsafe_action(now);
            let next = state.after_failsafe(now);
            let silent = !state.estop_active && !state.failsafe_active && now.ticks
                > state.last_cmd_at.ticks + state.settings.command_timeout.ticks;
            &&& action.stop_all <==> silent
            &&& action.drive is None && action.lift is None && !action.emergency_stop
            &&& silent ==> next == (ControllerState {
                stop_active: true,
                drive_active: false,
                lift_active: false,
                failsafe_active: true,
                ..state
            })
            &&& !silent ==> next == state
            &&& state.failsafe_due(now) <==> silent
            &&& state.watches_timeout() <==> !state.estop_active && !state.failsafe_active
        }),
{
}

/// A new controller knows of no command but its own start, of no stop, no movement and no heading.
pub proof fn law_new_controller_knows_nothing(settings: Settings, now: Instant)
    ensures
        ({
            let state = ControllerState::fresh(settings, now);
            &&& state.settings == settings
            &&& state.last_cmd_at == now
            &&& !state.estop_active && !state.stop_active && !state.failsafe_active
            &&& !state.drive_active && !state.lift_active
            &&& state.fused_heading == 0
            &&& state.last_fusion_time is None
        }),
        MotorAction::none().drive is None,
        MotorAction::none().lift is None,
        !MotorAction::none().stop_all,
        !MotorAction::none().emergency_stop,
{
}

/// A heading update hands on what it was given as it was given: both magnetometer axes in any case,
/// and where time has passed since the last update also the turn rate about the third axis, in all
/// of its bits, the heading so far, and just that time. It notes its own time and nothing else.
pub proof fn law_fusion_hands_on_its_data(
    state: ControllerState,
    now: Instant,
    sensor: SensorSnapshot,
)
    ensures
        state.after_fusion(now).last_fusion_time == Some(now),
        state.after_fusion(now) == (ControllerState { last_fusion_time: Some(now), ..state }),
        ({
            let step = state.fusion_step(now, sensor);
            &&& step is Blend <==> state.last_fusion_time is Some
                && state.last_fusion_time->0.ticks < now.ticks
            &&& step matches FusionStep::Adopt { magnetometer_x, magnetometer_y } ==> {
                &&& magnetometer_x == sensor.magnetometer_x
                &&& magnetometer_y == sensor.magnetometer_y
            }
            &&& step matches FusionStep::Blend {
                magnetometer_x,
                magnetometer_y,
                gyro_z,
                heading_deg,
                elapsed_micros,
            } ==> {
                &&& magnetometer_x == sensor.magnetometer_x
                &&& magnetometer_y == sensor.magnetometer_y
                &&& gyro_z == sensor.gyro@[2]
                &&& heading_deg == state.fused_heading
                &&& state.last_fusion_time->0.ticks + elapsed_micros == now.ticks
            }
        }),
{
}

} // verus!
