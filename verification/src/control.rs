//! The safety controller: it decides what the motors may do.
use vstd::prelude::*;

use crate::config;
use crate::protocol::{Command, Response};
use crate::time::{Duration, Instant};

verus! {

pub const SPEED_MAX: i8 = 100;

pub const SPEED_MIN: i8 = -100;

pub const SENSOR_FL: u8 = 0x01;

pub const SENSOR_FC: u8 = 0x02;

pub const SENSOR_FR: u8 = 0x04;

pub const SENSOR_LIFT_TOP: u8 = 0x08;

pub const SENSOR_LIFT_BOT: u8 = 0x10;

/// The rules that the controller enforces.
#[derive(Debug, Clone, Copy, PartialEq, Eq, Structural)]
pub struct Settings {
    pub block_drive_when_lifting: bool,
    pub block_lift_when_driving: bool,
    pub estop_latch: bool,
    pub command_timeout: Duration,
}

impl Default for Settings {
    fn default() -> (settings: Self)
        ensures
            settings.block_drive_when_lifting == config::INTERLOCK_BLOCK_DRIVE_WHEN_LIFTING,
            settings.block_lift_when_driving == config::INTERLOCK_BLOCK_LIFT_WHEN_DRIVING,
            settings.estop_latch == config::ESTOP_LATCH,
            settings.command_timeout.ticks == config::CONTROL_CMD_TIMEOUT_MS
                * crate::time::TICKS_PER_MILLI,
            settings.block_drive_when_lifting && settings.block_lift_when_driving,
            settings.estop_latch,
            settings.command_timeout.ticks == 300_000,
    {
        Settings {
            block_drive_when_lifting: config::INTERLOCK_BLOCK_DRIVE_WHEN_LIFTING,
            block_lift_when_driving: config::INTERLOCK_BLOCK_LIFT_WHEN_DRIVING,
            estop_latch: config::ESTOP_LATCH,
            command_timeout: Duration::from_millis(config::CONTROL_CMD_TIMEOUT_MS),
        }
    }
}

/// One reading of all the sensors.
///
/// The accelerations in g and the turn rates in degrees per second are bit patterns of IEEE 754
/// singles.
#[derive(Debug, Clone, Copy)]
pub struct SensorSnapshot {
    pub top_switch_activated: bool,
    pub bottom_switch_activated: bool,
    pub collision_fl: bool,
    pub collision_fc: bool,
    pub collision_fr: bool,
    pub magnetometer_x: i16,
    pub magnetometer_y: i16,
    pub accel: [u32; 3],
    pub gyro: [u32; 3],
}

impl Default for SensorSnapshot {
    fn default() -> (snapshot: Self)
        ensures
            !snapshot.top_switch_activated,
            !snapshot.bottom_switch_activated,
            !snapshot.collision_fl,
            !snapshot.collision_fc,
            !snapshot.collision_fr,
            snapshot.magnetometer_x == 0,
            snapshot.magnetometer_y == 0,
            snapshot.accel@ == seq![0u32, 0u32, 0u32],
            snapshot.gyro@ == seq![0u32, 0u32, 0u32],
    {
        SensorSnapshot {
            top_switch_activated: false,
            bottom_switch_activated: false,
            collision_fl: false,
            collision_fc: false,
            collision_fr: false,
            magnetometer_x: 0,
            magnetometer_y: 0,
            accel: [0, 0, 0],
            gyro: [0, 0, 0],
        }
    }
}

/// Represents an action the motors need to take.
#[derive(Debug, Clone, Copy, PartialEq, Eq)]
pub struct MotorAction {
    pub drive: Option<(i8, i8)>,
    pub lift: Option<i8>,
    pub stop_all: bool,
    pub emergency_stop: bool,
}

impl MotorAction {
    /// The action that asks for nothing.
    pub open spec fn none() -> MotorAction {
        MotorAction { drive: None, lift: None, stop_all: false, emergency_stop: false }
    }
}

impl Default for MotorAction {
    fn default() -> (action: Self)
        ensures
            action == MotorAction::none(),
    {
        MotorAction { drive: None, lift: None, stop_all: false, emergency_stop: false }
    }
}

/// The answer to a sensor poll. The heading in degrees is the bit pattern of an IEEE 754 single.
#[derive(Debug, Clone, Copy)]
pub struct SensorStatus {
    pub flags: u8,
    pub heading_deg: u32,
}

impl Default for SensorStatus {
    fn default() -> (status: Self)
        ensures
            status.flags == 0,
            status.heading_deg == 0,
    {
        SensorStatus { flags: 0, heading_deg: 0 }
    }
}

/// How the heading is to be brought up to date.
#[derive(Debug, Clone, Copy, PartialEq, Eq, Structural)]
pub enum FusionStep {
    /// No time has passed since the last update, or there was none: the heading that the
    /// magnetometer gives is taken over.
    Adopt { magnetometer_x: i16, magnetometer_y: i16 },
    /// The last heading is turned by the gyroscope's rate over the elapsed time and drawn towards
    /// the magnetometer's heading. `gyro_z` and `heading_deg` are bit patterns of IEEE 754 singles.
    Blend {
        magnetometer_x: i16,
        magnetometer_y: i16,
        gyro_z: u32,
        heading_deg: u32,
        elapsed_micros: u64,
    },
}

/// What comes of a command.
#[derive(Debug, Clone, Copy, PartialEq)]
pub enum Outcome {
    Act(MotorAction),
    Reply(Response),
}

/// What the controller knows.
pub struct ControllerState {
    pub settings: Settings,
    pub last_cmd_at: Instant,
    pub estop_active: bool,
    pub stop_active: bool,
    pub drive_active: bool,
    pub lift_active: bool,
    pub failsafe_active: bool,
    pub fused_heading: u32,
    pub last_fusion_time: Option<Instant>,
}

/// The nearest speed that the motors accept.
pub open spec fn clamped(value: i8) -> i8 {
    if value < SPEED_MIN {
        SPEED_MIN
    } else if value > SPEED_MAX {
        SPEED_MAX
    } else {
        value
    }
}

/// The switches and bumpers of a snapshot, one bit each.
pub open spec fn flags_of(sensor: SensorSnapshot) -> u8 {
    let bit = |set: bool, mask: u8| if set { mask as int } else { 0 };
    (bit(sensor.collision_fl, SENSOR_FL) + bit(sensor.collision_fc, SENSOR_FC) + bit(
        sensor.collision_fr,
        SENSOR_FR,
    ) + bit(sensor.top_switch_activated, SENSOR_LIFT_TOP) + bit(
        sensor.bottom_switch_activated,
        SENSOR_LIFT_BOT,
    )) as u8
}

impl ControllerState {
    pub open spec fn fresh(settings: Settings, now: Instant) -> ControllerState {
        ControllerState {
            settings,
            last_cmd_at: now,
            estop_active: false,
            stop_active: false,
            drive_active: false,
            lift_active: false,
            failsafe_active: false,
            fused_heading: 0,
            last_fusion_time: None,
        }
    }

    /// Whatever stops the robot also ends the movements on record, and the failsafe never holds
    /// without a stop.
    pub open spec fn consistent(self) -> bool {
        &&& self.estop_active || self.stop_active ==> !self.drive_active && !self.lift_active
        &&& self.failsafe_active ==> self.stop_active
    }

    /// Driving and lifting exclude each other.
    pub open spec fn interlocked(self) -> bool {
        !(self.drive_active && self.lift_active)
    }

    pub open spec fn after_reset(self, now: Instant) -> ControllerState {
        ControllerState {
            last_cmd_at: now,
            estop_active: false,
            stop_active: false,
            drive_active: false,
            lift_active: false,
            failsafe_active: false,
            ..self
        }
    }

    /// A stop gives way to a command that asks for movement; an emergency stop and the interlock
    /// do not.
    pub open spec fn drive_refused(self, left: i8, right: i8) -> bool {
        ||| self.estop_active
        ||| self.stop_active && left == 0 && right == 0
        ||| self.settings.block_drive_when_lifting && self.lift_active
    }

    pub open spec fn after_drive(self, now: Instant, left: i8, right: i8) -> ControllerState {
        let moving = left != 0 || right != 0;
        ControllerState {
            last_cmd_at: now,
            failsafe_active: false,
            stop_active: self.stop_active && !moving,
            drive_active: moving && !self.drive_refused(left, right),
            ..self
        }
    }

    pub open spec fn drive_action(self, left: i8, right: i8) -> MotorAction {
        let speeds = if self.drive_refused(left, right) {
            (0i8, 0i8)
        } else {
            (clamped(left), clamped(right))
        };
        MotorAction { drive: Some(speeds), ..MotorAction::none() }
    }

    pub open spec fn lift_refused(self, power: i8) -> bool {
        ||| self.estop_active
        ||| self.stop_active && power == 0
        ||| self.settings.block_lift_when_driving && self.drive_active
    }

    pub open spec fn after_lift(self, now: Instant, power: i8) -> ControllerState {
        ControllerState {
            last_cmd_at: now,
            failsafe_active: false,
            stop_active: self.stop_active && power == 0,
            lift_active: power != 0 && !self.lift_refused(power),
            ..self
        }
    }

    pub open spec fn lift_action(self, power: i8) -> MotorAction {
        let allowed = if self.lift_refused(power) {
            0i8
        } else {
            clamped(power)
        };
        MotorAction { lift: Some(allowed), ..MotorAction::none() }
    }

    pub open spec fn after_stop(self, now: Instant) -> ControllerState {
        ControllerState {
            last_cmd_at: now,
            failsafe_active: false,
            stop_active: true,
            drive_active: false,
            lift_active: false,
            estop_active: self.estop_active && self.settings.estop_latch,
            ..self
        }
    }

    pub open spec fn after_estop(self, now: Instant) -> ControllerState {
        ControllerState {
            last_cmd_at: now,
            failsafe_active: false,
            stop_active: true,
            drive_active: false,
            lift_active: false,
            estop_active: true,
            ..self
        }
    }

    pub open spec fn after_poll(self, now: Instant) -> ControllerState {
        ControllerState { last_cmd_at: now, failsafe_active: false, ..self }
    }

    pub open spec fn after_command(self, now: Instant, command: Command) -> ControllerState {
        match command {
            Command::Drive { left, right } => self.after_drive(now, left, right),
            Command::Lift { power } => self.after_lift(now, power),
            Command::Stop => self.after_stop(now),
            Command::EmergencyStop => self.after_estop(now),
            Command::SensorPoll => self.after_poll(now),
        }
    }

    pub open spec fn outcome(self, command: Command, sensor: SensorSnapshot) -> Outcome {
        match command {
            Command::Drive { left, right } => Outcome::Act(self.drive_action(left, right)),
            Command::Lift { power } => Outcome::Act(self.lift_action(power)),
            Command::Stop => Outcome::Act(MotorAction { stop_all: true, ..MotorAction::none() }),
            Command::EmergencyStop => Outcome::Act(
                MotorAction { emergency_stop: true, ..MotorAction::none() },
            ),
            Command::SensorPoll => Outcome::Reply(
                Response::SensorStatus {
                    flags: flags_of(sensor),
                    heading_deg: self.fused_heading,
                },
            ),
        }
    }

    /// Whether the time since the last command is looked at at all.
    pub open spec fn watches_timeout(self) -> bool {
        !self.estop_active && !self.failsafe_active
    }

    /// Whether the robot has gone without a command for too long and has not been stopped for it.
    pub open spec fn failsafe_due(self, now: Instant) -> bool {
        self.watches_timeout() && now.ticks - self.last_cmd_at.ticks
            > self.settings.command_timeout.ticks
    }

    pub open spec fn after_failsafe(self, now: Instant) -> ControllerState {
        if self.failsafe_due(now) {
            ControllerState {
                stop_active: true,
                drive_active: false,
                lift_active: false,
                failsafe_active: true,
                ..self
            }
        } else {
            self
        }
    }

    pub open spec fn failsafe_action(self, now: Instant) -> MotorAction {
        MotorAction { stop_all: self.failsafe_due(now), ..MotorAction::none() }
    }

    pub open spec fn after_fusion(self, now: Instant) -> ControllerState {
        ControllerState { last_fusion_time: Some(now), ..self }
    }

    pub open spec fn fusion_step(self, now: Instant, sensor: SensorSnapshot) -> FusionStep {
        match self.last_fusion_time {
            Some(last) if last.ticks < now.ticks => FusionStep::Blend {
                magnetometer_x: sensor.magnetometer_x,
                magnetometer_y: sensor.magnetometer_y,
                gyro_z: sensor.gyro[2],
                heading_deg: self.fused_heading,
                elapsed_micros: (now.ticks - last.ticks) as u64,
            },
            _ => FusionStep::Adopt {
                magnetometer_x: sensor.magnetometer_x,
                magnetometer_y: sensor.magnetometer_y,
            },
        }
    }
}

/// Turns commands into motor actions, under the rules of its `Settings`.
pub struct Controller {
    settings: Settings,
    last_cmd_at: Instant,
    estop_active: bool,
    stop_active: bool,
    drive_active: bool,
    lift_active: bool,
    failsafe_active: bool,
    fused_heading: u32,
    last_fusion_time: Option<Instant>,
}

impl View for Controller {
    type V = ControllerState;

    closed spec fn view(&self) -> ControllerState {
        ControllerState {
            settings: self.settings,
            last_cmd_at: self.last_cmd_at,
            estop_active: self.estop_active,
            stop_active: self.stop_active,
            drive_active: self.drive_active,
            lift_active: self.lift_active,
            failsafe_active: self.failsafe_active,
            fused_heading: self.fused_heading,
            last_fusion_time: self.last_fusion_time,
        }
    }
}

impl Controller {
    pub fn new(settings: Settings, now: Instant) -> (controller: Self)
        ensures
            controller@ == ControllerState::fresh(settings, now),
            controller@.consistent(),
    {
        Controller {
            settings,
            last_cmd_at: now,
            estop_active: false,
            stop_active: false,
            drive_active: false,
            lift_active: false,
            failsafe_active: false,
            fused_heading: 0,
            last_fusion_time: None,
        }
    }

    pub fn reset(&mut self, now: Instant)
        ensures
            final(self)@ == old(self)@.after_reset(now),
            final(self)@.consistent(),
    {
        self.last_cmd_at = now;
        self.estop_active = false;
        self.stop_active = false;
        self.drive_active = false;
        self.lift_active = false;
        self.failsafe_active = false;
    }

    fn mark_command(&mut self, now: Instant)
        ensures
            final(self)@ == old(self)@.after_poll(now),
    {
        self.last_cmd_at = now;
        self.failsafe_active = false;
    }

    pub fn handle_drive(&mut self, now: Instant, left: i8, right: i8) -> (action: MotorAction)
        ensures
            final(self)@ == old(self)@.after_drive(now, left, right),
            action == old(self)@.drive_action(left, right),
            old(self)@.consistent() ==> final(self)@.consistent(),
    {
        self.mark_command(now);
        let l = clamp_speed(left);
        let r = clamp_speed(right);
        let nonzero = (l != 0) || (r != 0);
        if self.stop_active && nonzero {
            self.stop_active = false;
        }
        let mut action = MotorAction::default();
        if self.estop_active || self.stop_active || (self.settings.block_drive_when_lifting
            && self.lift_active) {
            self.drive_active = false;
            action.drive = Some((0, 0));
            return action;
        }
        self.drive_active = nonzero;
        action.drive = Some((l, r));
        action
    }

    pub fn handle_stop(&mut self, now: Instant) -> (action: MotorAction)
        ensures
            final(self)@ == old(self)@.after_stop(now),
            action == (MotorAction { stop_all: true, ..MotorAction::none() }),
            final(self)@.consistent(),
    {
        self.mark_command(now);
        self.stop_active = true;
        self.drive_active = false;
        self.lift_active = false;
        if !self.settings.estop_latch {
            self.estop_active = false;
        }
        let mut action = MotorAction::default();
        action.stop_all = true;
        action
    }

    pub fn handle_estop(&mut self, now: Instant) -> (action: MotorAction)
        ensures
            final(self)@ == old(self)@.after_estop(now),
            action == (MotorAction { emergency_stop: true, ..MotorAction::none() }),
            final(self)@.consistent(),
    {
        self.mark_command(now);
        self.estop_active = true;
        self.stop_active = true;
        self.drive_active = false;
        self.lift_active = false;
        let mut action = MotorAction::default();
        action.emergency_stop = true;
        action
    }

    /// Notes the time of a heading update and says how the heading follows from the sensors. The
    /// new heading is handed back through `set_heading`.
    pub fn update_fusion(&mut self, now: Instant, sensor: &SensorSnapshot) -> (step: FusionStep)
        requires
            old(self)@.last_fusion_time matches Some(last) ==> last.ticks <= now.ticks,
        ensures
            final(self)@ == old(self)@.after_fusion(now),
            step == old(self)@.fusion_step(now, *sensor),
            old(self)@.consistent() ==> final(self)@.consistent(),
    {
        let elapsed_micros: u64 = match self.last_fusion_time {
            Some(last) => now.duration_since(last).as_micros(),
            None => 0,
        };
        self.last_fusion_time = Some(now);
        if elapsed_micros == 0 {
            return FusionStep::Adopt {
                magnetometer_x: sensor.magnetometer_x,
                magnetometer_y: sensor.magnetometer_y,
            };
        }
        FusionStep::Blend {
            magnetometer_x: sensor.magnetometer_x,
            magnetometer_y: sensor.magnetometer_y,
            gyro_z: sensor.gyro[2],
            heading_deg: self.fused_heading,
            elapsed_micros,
        }
    }

    /// Takes over the heading that an update came to.
    pub fn set_heading(&mut self, heading_deg: u32)
        ensures
            final(self)@ == (ControllerState { fused_heading: heading_deg, ..old(self)@ }),
            old(self)@.consistent() ==> final(self)@.consistent(),
    {
        self.fused_heading = heading_deg;
    }

    pub fn handle_sensor_poll(&mut self, now: Instant, sensor: &SensorSnapshot) -> (status:
        SensorStatus)
        ensures
            final(self)@ == old(self)@.after_poll(now),
            status.flags == flags_of(*sensor),
            status.heading_deg == old(self)@.fused_heading,
            old(self)@.consistent() ==> final(self)@.consistent(),
    {
        self.mark_command(now);
        SensorStatus { flags: sensor_flags(sensor), heading_deg: self.fused_heading }
    }

    pub fn handle_lift(&mut self, now: Instant, power: i8, _sensor: &SensorSnapshot) -> (action:
        MotorAction)
        ensures
            final(self)@ == old(self)@.after_lift(now, power),
            action == old(self)@.lift_action(power),
            old(self)@.consistent() ==> final(self)@.consistent(),
    {
        self.mark_command(now);
        let pwr = clamp_speed(power);
        let nonzero = pwr != 0;
        if self.stop_active && nonzero {
            self.stop_active = false;
        }
        let mut action = MotorAction::default();
        if self.estop_active || self.stop_active || (self.settings.block_lift_when_driving
            && self.drive_active) {
            self.lift_active = false;
            action.lift = Some(0);
            return action;
        }
        self.lift_active = nonzero;
        action.lift = Some(pwr);
        action
    }

    pub fn poll_failsafe(&mut self, now: Instant) -> (action: MotorAction)
        requires
            old(self)@.watches_timeout() ==> old(self)@.last_cmd_at.ticks <= now.ticks,
        ensures
            final(self)@ == old(self)@.after_failsafe(now),
            action == old(self)@.failsafe_action(now),
            old(self)@.consistent() ==> final(self)@.consistent(),
    {
        let mut action = MotorAction::default();
        if self.estop_active {
            return action;
        }
        if !self.failsafe_active && now.duration_since(self.last_cmd_at).ticks
            > self.settings.command_timeout.ticks {
            self.stop_active = true;
            self.drive_active = false;
            self.lift_active = false;
            self.failsafe_active = true;
            action.stop_all = true;
        }
        action
    }

    /// Carries out a command, with the latest reading of the sensors.
    pub fn handle_command(
        &mut self,
        now: Instant,
        command: Command,
        sensor: &SensorSnapshot,
    ) -> (outcome: Outcome)
        ensures
            final(self)@ == old(self)@.after_command(now, command),
            outcome == old(self)@.outcome(command, *sensor),
            old(self)@.consistent() ==> final(self)@.consistent(),
    {
        match command {
            Command::Drive { left, right } => Outcome::Act(self.handle_drive(now, left, right)),
            Command::Lift { power } => Outcome::Act(self.handle_lift(now, power, sensor)),
            Command::Stop => Outcome::Act(self.handle_stop(now)),
            Command::EmergencyStop => Outcome::Act(self.handle_estop(now)),
            Command::SensorPoll => {
                let status = self.handle_sensor_poll(now, sensor);
                Outcome::Reply(
                    Response::SensorStatus { flags: status.flags, heading_deg: status.heading_deg },
                )
            },
        }
    }
}

/// Limits a speed to what the motors accept.
pub fn clamp_speed(value: i8) -> (speed: i8)
    ensures
        speed == clamped(value),
{
    if value < SPEED_MIN {
        SPEED_MIN
    } else if value > SPEED_MAX {
        SPEED_MAX
    } else {
        value
    }
}

fn sensor_flags(sensor: &SensorSnapshot) -> (flags: u8)
    ensures
        flags == flags_of(*sensor),
{
    let mut flags: u8 = 0;
    assert(0u8 | 0x01 == 0x01) by (bit_vector);
    if sensor.collision_fl {
        flags |= SENSOR_FL;
    }
    assert(flags < 0x02 ==> flags | 0x02 == flags + 0x02) by (bit_vector);
    if sensor.collision_fc {
        flags |= SENSOR_FC;
    }
    assert(flags < 0x04 ==> flags | 0x04 == flags + 0x04) by (bit_vector);
    if sensor.collision_fr {
        flags |= SENSOR_FR;
    }
    assert(flags < 0x08 ==> flags | 0x08 == flags + 0x08) by (bit_vector);
    if sensor.top_switch_activated {
        flags |= SENSOR_LIFT_TOP;
    }
    assert(flags < 0x10 ==> flags | 0x10 == flags + 0x10) by (bit_vector);
    if sensor.bottom_switch_activated {
        flags |= SENSOR_LIFT_BOT;
    }
    flags
}

} // verus!
