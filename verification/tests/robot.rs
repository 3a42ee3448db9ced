use atlas_controller::control::{Controller, FusionStep, MotorAction, SensorSnapshot, Settings};
use atlas_controller::control_loop::ControlLoop;
use atlas_controller::motors::{Bts7960Motor, MotorController, Motors, PwmDuty};
use atlas_controller::protocol::{Command, Response};
use atlas_controller::sensors::{
    assemble_snapshot, AsyncMpu6050, EchoAction, EchoEvent, Hmc5883l, Ultrasonic,
};
use atlas_controller::time::Instant;
use atlas_controller::udp::{
    decode_packet, next_listener_action, ListenerAction, ListenerEvent, UdpPacket,
};

fn at(millis: u64) -> Instant {
    Instant { ticks: millis * 1000 }
}

fn duty(rpwm: u8, lpwm: u8) -> Option<PwmDuty> {
    Some(PwmDuty { rpwm, lpwm })
}

fn motors(ramp_step: i8) -> Motors {
    Motors {
        left: Bts7960Motor::new(ramp_step),
        right: Bts7960Motor::new(ramp_step),
        lift: Bts7960Motor::new(ramp_step),
    }
}

fn robot() -> ControlLoop {
    ControlLoop { controller: Controller::new(Settings::default(), at(0)), motors: motors(1) }
}

#[test]
fn a_motor_ramps_up_and_down() {
    let mut m = Bts7960Motor::new(4);
    m.set_target(10);
    let mut seen = Vec::new();
    for _ in 0..4 {
        m.step();
        seen.push(m.take_output());
    }
    assert_eq!(seen, vec![duty(4, 0), duty(8, 0), duty(10, 0), None]);
    m.set_target(-5);
    seen.clear();
    for _ in 0..5 {
        m.step();
        seen.push(m.take_output());
    }
    assert_eq!(seen, vec![duty(6, 0), duty(2, 0), duty(0, 2), duty(0, 5), None]);
}

#[test]
fn any_target_is_reached_within_two_hundred_steps() {
    let mut m = Bts7960Motor::new(1);
    m.set_immediate(-100);
    m.set_target(127);
    for _ in 0..200 {
        m.step();
    }
    assert_eq!(m.take_output(), duty(100, 0));
    m.step();
    assert_eq!(m.take_output(), None);
}

#[test]
fn an_immediate_speed_bypasses_the_ramp() {
    let mut m = Bts7960Motor::new(1);
    m.set_immediate(-128);
    assert_eq!(m.take_output(), duty(0, 100));
    m.step();
    assert_eq!(m.take_output(), None);
}

#[test]
fn a_ramp_step_below_zero_leads_away_from_the_target() {
    let mut m = Bts7960Motor::new(-20);
    m.set_immediate(-90);
    m.set_target(0);
    m.step();
    assert_eq!(m.take_output(), duty(0, 110));
    m.step();
    assert_eq!(m.take_output(), duty(126, 0));
}

#[test]
fn actions_reach_their_motors() {
    let mut m = motors(50);
    m.apply_action(MotorAction {
        drive: Some((10, -20)),
        lift: Some(30),
        ..MotorAction::default()
    });
    assert_eq!(m.take_outputs(), (None, None, None));
    m.step_all();
    assert_eq!(m.take_outputs(), (duty(10, 0), duty(0, 20), duty(30, 0)));
    m.apply_action(MotorAction {
        stop_all: true,
        drive: Some((5, 6)),
        ..MotorAction::default()
    });
    assert_eq!(m.take_outputs(), (duty(0, 0), duty(0, 0), duty(0, 0)));
    m.step_all();
    assert_eq!(m.take_outputs(), (duty(5, 0), duty(6, 0), None));
}

#[test]
fn an_emergency_stop_overrides_the_rest_of_an_action() {
    let mut m = motors(50);
    m.left.set_immediate(80);
    m.apply_action(MotorAction {
        emergency_stop: true,
        drive: Some((70, 70)),
        lift: Some(70),
        stop_all: false,
    });
    assert_eq!(m.take_outputs(), (duty(0, 0), duty(0, 0), duty(0, 0)));
    m.step_all();
    assert_eq!(m.take_outputs(), (None, None, None));
}

#[test]
fn the_loop_answers_polls_and_moves_motors() {
    let mut r = robot();
    let sensors = SensorSnapshot { collision_fc: true, ..SensorSnapshot::default() };
    assert_eq!(r.on_command(at(1), Command::Drive { left: 2, right: -2 }, &sensors), None);
    assert_eq!(
        r.begin_round(at(1), &sensors),
        FusionStep::Adopt { magnetometer_x: 0, magnetometer_y: 0 }
    );
    r.finish_round(at(1), 45.0f32.to_bits());
    assert_eq!(r.motors.take_outputs(), (duty(1, 0), duty(0, 1), None));
    assert_eq!(
        r.on_command(at(2), Command::SensorPoll, &sensors),
        Some(Response::SensorStatus { flags: 0x02, heading_deg: 45.0f32.to_bits() })
    );
    assert_eq!(r.motors.take_outputs(), (None, None, None));
}

#[test]
fn silence_brings_the_robot_to_rest() {
    let mut r = robot();
    let sensors = SensorSnapshot::default();
    r.on_command(at(0), Command::Drive { left: 100, right: 100 }, &sensors);
    for round in 0..6 {
        r.finish_round(at(round * 50), 0);
    }
    assert_eq!(r.motors.take_outputs(), (duty(6, 0), duty(6, 0), None));
    r.finish_round(at(350), 0);
    assert_eq!(r.motors.take_outputs(), (duty(0, 0), duty(0, 0), duty(0, 0)));
    r.finish_round(at(400), 0);
    assert_eq!(r.motors.take_outputs(), (None, None, None));
}

#[test]
fn an_emergency_stop_keeps_the_robot_at_rest() {
    let mut r = robot();
    let sensors = SensorSnapshot::default();
    r.on_command(at(0), Command::Drive { left: 100, right: 100 }, &sensors);
    r.finish_round(at(0), 0);
    r.on_command(at(1), Command::EmergencyStop, &sensors);
    assert_eq!(r.motors.take_outputs(), (duty(0, 0), duty(0, 0), duty(0, 0)));
    r.on_command(at(2), Command::Drive { left: 100, right: 100 }, &sensors);
    r.on_command(at(3), Command::Lift { power: 100 }, &sensors);
    for round in 1..20 {
        r.finish_round(at(round * 50), 0);
        assert_eq!(r.motors.take_outputs(), (None, None, None));
    }
}

#[test]
fn the_motors_never_drive_and_lift_at_once() {
    let mut r = robot();
    let sensors = SensorSnapshot::default();
    r.on_command(at(0), Command::Drive { left: 1, right: -1 }, &sensors);
    r.on_command(at(0), Command::Lift { power: 1 }, &sensors);
    r.finish_round(at(0), 0);
    assert_eq!(r.motors.take_outputs(), (duty(1, 0), duty(0, 1), None));
    r.on_command(at(50), Command::Drive { left: 0, right: 0 }, &sensors);
    r.on_command(at(50), Command::Lift { power: 1 }, &sensors);
    r.finish_round(at(50), 0);
    assert_eq!(r.motors.take_outputs(), (duty(0, 0), duty(0, 0), duty(1, 0)));
    r.on_command(at(100), Command::Drive { left: 1, right: -1 }, &sensors);
    r.finish_round(at(100), 0);
    assert_eq!(r.motors.take_outputs(), (None, None, None));
}

#[test]
fn a_motor_may_ramp_down_while_the_other_movement_begins() {
    let mut r = robot();
    let sensors = SensorSnapshot::default();
    r.on_command(at(0), Command::Drive { left: 3, right: 3 }, &sensors);
    for round in 0..3 {
        r.finish_round(at(round * 50), 0);
    }
    r.on_command(at(150), Command::Drive { left: 0, right: 0 }, &sensors);
    r.on_command(at(150), Command::Lift { power: 5 }, &sensors);
    r.finish_round(at(150), 0);
    assert_eq!(r.motors.take_outputs(), (duty(2, 0), duty(2, 0), duty(1, 0)));
}

#[test]
fn a_stopped_robot_rests_until_a_command_asks_for_movement() {
    let mut r = robot();
    let sensors = SensorSnapshot::default();
    r.on_command(at(0), Command::Drive { left: 100, right: 100 }, &sensors);
    r.finish_round(at(0), 0);
    r.on_command(at(50), Command::Stop, &sensors);
    assert_eq!(r.motors.take_outputs(), (duty(0, 0), duty(0, 0), duty(0, 0)));
    for round in 1..20 {
        r.on_command(at(round * 50), Command::Drive { left: 0, right: 0 }, &sensors);
        r.on_command(at(round * 50), Command::Lift { power: 0 }, &sensors);
        r.finish_round(at(round * 50), 0);
        assert_eq!(r.motors.take_outputs(), (None, None, None));
    }
    r.on_command(at(1000), Command::Lift { power: -1 }, &sensors);
    r.finish_round(at(1000), 0);
    assert_eq!(r.motors.take_outputs(), (None, None, duty(0, 1)));
}

#[test]
fn the_magnetometer_registers_are_read() {
    let mag = Hmc5883l::new(0x1E);
    assert_eq!(mag.address, 0x1E);
    assert_eq!(mag.setup(), [[0x01, 0x20], [0x02, 0x00]]);
    assert_eq!(
        mag.read(&[0x01, 0x02, 0xFF, 0xFF, 0x80, 0x00]),
        (258, -32768, -1)
    );
}

#[test]
fn the_motion_registers_are_read() {
    let mpu = AsyncMpu6050::new(0x68);
    assert_eq!(mpu.address, 0x68);
    assert_eq!(mpu.setup(), [[0x6B, 0x00]]);
    let registers = [0x40, 0x00, 0xC0, 0x00, 0x00, 0x01, 9, 9, 0x7F, 0xFF, 0x80, 0x01, 0xFF, 0x7D];
    assert_eq!(
        mpu.read(&registers),
        ([16384, -16384, 1], [32767, -32767, -131])
    );
}

#[test]
fn a_snapshot_holds_what_could_be_read() {
    let full = assemble_snapshot(Some((1, 2, 3)), Some(([4, 5, 6], [7, 8, 9])));
    assert_eq!((full.magnetometer_x, full.magnetometer_y), (1, 2));
    assert_eq!((full.accel, full.gyro), ([4, 5, 6], [7, 8, 9]));
    let empty = assemble_snapshot(None, None);
    assert_eq!((empty.magnetometer_x, empty.magnetometer_y), (0, 0));
    assert_eq!((empty.accel, empty.gyro), ([0; 3], [0; 3]));
    assert!(!full.top_switch_activated && !full.bottom_switch_activated);
    assert!(!full.collision_fl && !full.collision_fc && !full.collision_fr);
}

fn pulse(sensor: &mut Ultrasonic) {
    let expected = [
        EchoAction::SetTrigger { high: false, hold_micros: 2 },
        EchoAction::SetTrigger { high: true, hold_micros: 10 },
        EchoAction::SetTrigger { high: false, hold_micros: 0 },
        EchoAction::AwaitHigh { timeout_millis: 10 },
    ];
    for action in expected {
        assert_eq!(sensor.measure(EchoEvent::Proceed), action);
    }
}

#[test]
fn an_echo_gives_a_distance() {
    let mut sensor = Ultrasonic::new();
    pulse(&mut sensor);
    let rise = Instant { ticks: 1_000 };
    let fall = Instant { ticks: 1_000 + 58 * 123 + 57 };
    assert_eq!(
        sensor.measure(EchoEvent::Edge { at: rise }),
        EchoAction::AwaitLow { timeout_millis: 50 }
    );
    assert_eq!(
        sensor.measure(EchoEvent::Edge { at: fall }),
        EchoAction::Finished { distance_cm: Some(123) }
    );
    pulse(&mut sensor);
}

#[test]
fn a_missing_echo_gives_no_distance() {
    let mut sensor = Ultrasonic::new();
    pulse(&mut sensor);
    assert_eq!(
        sensor.measure(EchoEvent::TimedOut),
        EchoAction::Finished { distance_cm: None }
    );
    pulse(&mut sensor);
    sensor.measure(EchoEvent::Edge { at: at(1) });
    assert_eq!(
        sensor.measure(EchoEvent::TimedOut),
        EchoAction::Finished { distance_cm: None }
    );
    pulse(&mut sensor);
}

#[test]
fn manual_packets_ask_for_two_commands() {
    let packet = decode_packet(&[0x01, 0x9C, 0x64, 0xFF, 0xF6, 1, 2, 3]);
    assert_eq!(packet, UdpPacket::Manual { left: -100, right: 100, lift: -10 });
    assert_eq!(
        packet.commands(),
        vec![Command::Drive { left: -100, right: 100 }, Command::Lift { power: -10 }]
    );
}

#[test]
fn other_packets_ask_for_nothing() {
    let auto = decode_packet(&[0x02, 1, 1, 1, 1, 1, 1, 1]);
    assert_eq!(auto, UdpPacket::AutoMode);
    let unknown = decode_packet(&[0x03, 1, 1, 1, 1, 1, 1, 1]);
    assert_eq!(unknown, UdpPacket::Unknown { packet_type: 0x03 });
    let short = decode_packet(&[0x01, 1, 1]);
    assert_eq!(short, UdpPacket::Malformed { size: 3 });
    assert_eq!(decode_packet(&[]), UdpPacket::Malformed { size: 0 });
    for packet in [auto, unknown, short] {
        assert_eq!(packet.commands(), vec![]);
    }
}

#[test]
fn the_listener_recovers_from_failures() {
    let cases = [
        (ListenerEvent::LinkDown, ListenerAction::Wait { millis: 500 }),
        (ListenerEvent::WaitOver, ListenerAction::CheckLink),
        (ListenerEvent::LinkUp, ListenerAction::Bind { port: 5005 }),
        (ListenerEvent::BindFailed, ListenerAction::Wait { millis: 1000 }),
        (ListenerEvent::Bound, ListenerAction::Receive),
        (ListenerEvent::Received, ListenerAction::Receive),
        (ListenerEvent::ReceiveFailed, ListenerAction::CheckLink),
    ];
    for (event, action) in cases {
        assert_eq!(next_listener_action(event), action);
    }
}
