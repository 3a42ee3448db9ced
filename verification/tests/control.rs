use atlas_controller::config;
use atlas_controller::control::{
    clamp_speed, Controller, FusionStep, MotorAction, Outcome, SensorSnapshot, SensorStatus, Settings,
};
use atlas_controller::protocol::{Command, Response};
use atlas_controller::time::{Duration, Instant};

fn at(millis: u64) -> Instant {
    Instant { ticks: millis * 1000 }
}

fn controller() -> Controller {
    Controller::new(Settings::default(), at(0))
}

fn drive(left: i8, right: i8) -> MotorAction {
    MotorAction { drive: Some((left, right)), ..MotorAction::default() }
}

fn lift(power: i8) -> MotorAction {
    MotorAction { lift: Some(power), ..MotorAction::default() }
}

fn stop() -> MotorAction {
    MotorAction { stop_all: true, ..MotorAction::default() }
}

#[test]
fn time_is_counted_by_the_system_clock() {
    assert_eq!(embassy_time::TICK_HZ, 1_000_000);
    assert_eq!(Duration::from_millis(300).ticks, 300_000);
    assert_eq!(
        Duration::from_millis(7).ticks,
        embassy_time::Duration::from_millis(7).as_ticks()
    );
    assert_eq!(Duration { ticks: 1234 }.as_micros(), 1234);
    assert_eq!(at(25).duration_since(at(5)), Duration { ticks: 20_000 });
    assert_eq!(at(5).duration_since(at(5)), Duration { ticks: 0 });
}

#[test]
fn default_settings_follow_the_configuration() {
    let settings = Settings::default();
    assert!(settings.block_drive_when_lifting);
    assert!(settings.block_lift_when_driving);
    assert!(settings.estop_latch);
    assert_eq!(settings.command_timeout, Duration { ticks: 300_000 });
    assert_eq!(config::CONTROL_TASK_INTERVAL_MS, 50);
    assert_eq!(config::UDP_PORT, 5005);
    assert_eq!(config::WIFI_IP, [192, 168, 4, 1]);
}

#[test]
fn speeds_are_limited() {
    assert_eq!(clamp_speed(127), 100);
    assert_eq!(clamp_speed(-128), -100);
    assert_eq!(clamp_speed(101), 100);
    assert_eq!(clamp_speed(-100), -100);
    assert_eq!(clamp_speed(42), 42);
    assert_eq!(controller().handle_drive(at(1), 127, -128), drive(100, -100));
}

#[test]
fn driving_blocks_lifting() {
    let mut c = controller();
    let sensors = SensorSnapshot::default();
    assert_eq!(c.handle_drive(at(1), 10, 0), drive(10, 0));
    assert_eq!(c.handle_lift(at(2), 50, &sensors), lift(0));
    assert_eq!(c.handle_drive(at(3), 0, 0), drive(0, 0));
    assert_eq!(c.handle_lift(at(4), 50, &sensors), lift(50));
}

#[test]
fn lifting_blocks_driving() {
    let mut c = controller();
    let sensors = SensorSnapshot::default();
    assert_eq!(c.handle_lift(at(1), -120, &sensors), lift(-100));
    assert_eq!(c.handle_drive(at(2), 10, 10), drive(0, 0));
    assert_eq!(c.handle_lift(at(3), 0, &sensors), lift(0));
    assert_eq!(c.handle_drive(at(4), 10, 10), drive(10, 10));
}

#[test]
fn without_interlocks_both_movements_are_allowed() {
    let settings = Settings {
        block_drive_when_lifting: false,
        block_lift_when_driving: false,
        ..Settings::default()
    };
    let mut c = Controller::new(settings, at(0));
    assert_eq!(c.handle_drive(at(1), 10, 10), drive(10, 10));
    assert_eq!(c.handle_lift(at(2), 20, &SensorSnapshot::default()), lift(20));
    assert_eq!(c.handle_drive(at(3), 30, 30), drive(30, 30));
}

#[test]
fn a_stop_gives_way_to_movement() {
    let mut c = controller();
    assert_eq!(c.handle_drive(at(1), 10, 10), drive(10, 10));
    assert_eq!(c.handle_stop(at(2)), stop());
    assert_eq!(c.handle_drive(at(3), 0, 0), drive(0, 0));
    assert_eq!(c.handle_drive(at(4), 0, -7), drive(0, -7));
}

#[test]
fn a_stop_ends_the_movements_on_record() {
    let mut c = controller();
    c.handle_drive(at(1), 10, 10);
    c.handle_stop(at(2));
    assert_eq!(c.handle_lift(at(3), 5, &SensorSnapshot::default()), lift(5));
}

#[test]
fn a_latched_emergency_stop_outlasts_everything_but_a_reset() {
    let mut c = controller();
    let sensors = SensorSnapshot::default();
    let estop = MotorAction { emergency_stop: true, ..MotorAction::default() };
    assert_eq!(c.handle_estop(at(1)), estop);
    assert_eq!(c.handle_drive(at(2), 50, 50), drive(0, 0));
    assert_eq!(c.handle_lift(at(3), 50, &sensors), lift(0));
    assert_eq!(c.handle_stop(at(4)), stop());
    assert_eq!(c.handle_drive(at(5), 50, 50), drive(0, 0));
    assert_eq!(c.poll_failsafe(at(10_000)), MotorAction::default());
    c.reset(at(10_001));
    assert_eq!(c.handle_drive(at(10_002), 50, 50), drive(50, 50));
}

#[test]
fn an_unlatched_emergency_stop_ends_with_a_stop() {
    let settings = Settings { estop_latch: false, ..Settings::default() };
    let mut c = Controller::new(settings, at(0));
    c.handle_estop(at(1));
    assert_eq!(c.handle_drive(at(2), 50, 50), drive(0, 0));
    c.handle_stop(at(3));
    assert_eq!(c.handle_drive(at(4), 50, 50), drive(50, 50));
}

#[test]
fn the_failsafe_fires_once_after_the_timeout() {
    let mut c = controller();
    c.handle_drive(at(100), 50, 50);
    assert_eq!(c.poll_failsafe(at(400)), MotorAction::default());
    assert_eq!(c.poll_failsafe(Instant { ticks: 400_001 }), stop());
    assert_eq!(c.poll_failsafe(at(500)), MotorAction::default());
    assert_eq!(c.poll_failsafe(at(5_000)), MotorAction::default());
    assert_eq!(c.handle_drive(at(5_001), 0, 0), drive(0, 0));
    assert_eq!(c.handle_drive(at(5_002), 9, 9), drive(9, 9));
    assert_eq!(c.poll_failsafe(at(5_303)), stop());
}

#[test]
fn a_sensor_poll_counts_as_a_command() {
    let mut c = controller();
    let sensors = SensorSnapshot::default();
    c.handle_sensor_poll(at(250), &sensors);
    assert_eq!(c.poll_failsafe(at(550)), MotorAction::default());
    assert_eq!(c.poll_failsafe(at(551)), stop());
}

#[test]
fn every_switch_has_its_bit() {
    let mut c = controller();
    let none = SensorSnapshot::default();
    assert_eq!(c.handle_sensor_poll(at(1), &none).flags, 0);
    let cases = [
        (SensorSnapshot { collision_fl: true, ..none }, 0x01),
        (SensorSnapshot { collision_fc: true, ..none }, 0x02),
        (SensorSnapshot { collision_fr: true, ..none }, 0x04),
        (SensorSnapshot { top_switch_activated: true, ..none }, 0x08),
        (SensorSnapshot { bottom_switch_activated: true, ..none }, 0x10),
        (SensorSnapshot { collision_fl: true, bottom_switch_activated: true, ..none }, 0x11),
    ];
    for (sensors, flags) in cases {
        assert_eq!(c.handle_sensor_poll(at(2), &sensors).flags, flags);
    }
}

#[test]
fn the_heading_is_adopted_first_and_blended_later() {
    let mut c = controller();
    let sensors = SensorSnapshot {
        magnetometer_x: 3,
        magnetometer_y: -4,
        gyro: [1, 2, 1.5f32.to_bits()],
        ..SensorSnapshot::default()
    };
    let adopt = FusionStep::Adopt { magnetometer_x: 3, magnetometer_y: -4 };
    assert_eq!(c.update_fusion(at(10), &sensors), adopt);
    c.set_heading(90.0f32.to_bits());
    assert_eq!(c.update_fusion(at(10), &sensors), adopt);
    assert_eq!(
        c.update_fusion(at(60), &sensors),
        FusionStep::Blend {
            magnetometer_x: 3,
            magnetometer_y: -4,
            gyro_z: 1.5f32.to_bits(),
            heading_deg: 90.0f32.to_bits(),
            elapsed_micros: 50_000,
        }
    );
    assert_eq!(c.handle_sensor_poll(at(61), &sensors).heading_deg, 90.0f32.to_bits());
}

#[test]
fn a_reset_keeps_the_heading() {
    let mut c = controller();
    let sensors = SensorSnapshot::default();
    c.set_heading(12.5f32.to_bits());
    c.handle_drive(at(1), 10, 10);
    c.reset(at(2));
    assert_eq!(c.handle_sensor_poll(at(3), &sensors).heading_deg, 12.5f32.to_bits());
    assert_eq!(c.handle_lift(at(4), 5, &sensors), lift(5));
}

#[test]
fn commands_are_dispatched() {
    let mut c = controller();
    let sensors = SensorSnapshot { collision_fr: true, ..SensorSnapshot::default() };
    assert_eq!(
        c.handle_command(at(1), Command::Drive { left: 1, right: 2 }, &sensors),
        Outcome::Act(drive(1, 2))
    );
    assert_eq!(c.handle_command(at(2), Command::Stop, &sensors), Outcome::Act(stop()));
    assert_eq!(
        c.handle_command(at(3), Command::Lift { power: 8 }, &sensors),
        Outcome::Act(lift(8))
    );
    assert_eq!(
        c.handle_command(at(4), Command::SensorPoll, &sensors),
        Outcome::Reply(Response::SensorStatus { flags: 0x04, heading_deg: 0 })
    );
    assert_eq!(
        c.handle_command(at(5), Command::EmergencyStop, &sensors),
        Outcome::Act(MotorAction { emergency_stop: true, ..MotorAction::default() })
    );
}

#[test]
fn defaults_are_blank() {
    let status = SensorStatus::default();
    assert_eq!((status.flags, status.heading_deg), (0, 0.0f32.to_bits()));
    let sensors = SensorSnapshot::default();
    assert_eq!(sensors.gyro, [0.0f32.to_bits(); 3]);
    assert_eq!(MotorAction::default().drive, None);
}

#[test]
fn the_failsafe_stays_quiet_until_the_next_command() {
    let mut c = controller();
    let sensors = SensorSnapshot::default();
    c.handle_drive(at(0), 50, 50);
    assert_eq!(c.poll_failsafe(at(301)), stop());
    for round in 7..50 {
        c.update_fusion(at(round * 50), &sensors);
        c.set_heading(1.0f32.to_bits());
        assert_eq!(c.poll_failsafe(at(round * 50)), MotorAction::default());
    }
    c.handle_drive(at(2_500), 50, 50);
    for round in 51..57 {
        c.update_fusion(at(round * 50), &sensors);
        assert_eq!(c.poll_failsafe(at(round * 50)), MotorAction::default());
    }
    assert_eq!(c.poll_failsafe(at(2_801)), stop());
}
