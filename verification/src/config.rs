//! The settings of this robot.
use vstd::prelude::*;

verus! {

pub const UART_BAUD: u32 = 115_200;

pub const MOTOR_FREQ_HZ: u32 = 20_000;

/// How long the robot may go without a command before it stops by itself.
pub const CONTROL_CMD_TIMEOUT_MS: u64 = 300;

/// The pace of the control loop, and with it of the motor ramps.
pub const CONTROL_TASK_INTERVAL_MS: u64 = 50;

pub const INTERLOCK_BLOCK_LIFT_WHEN_DRIVING: bool = true;

pub const INTERLOCK_BLOCK_DRIVE_WHEN_LIFTING: bool = true;

/// Whether an emergency stop outlasts an ordinary stop command.
pub const ESTOP_LATCH: bool = true;

/// How far each motor may move towards its target speed in one step.
pub const MOTOR_RAMP_STEP: i8 = 1;

pub const WIFI_SSID: &'static str = "ATLAS_ESP32";

pub const WIFI_PASSWORD: &'static str = "AtlasWillHoldTheWorld";

pub const WIFI_IP: [u8; 4] = [192, 168, 4, 1];

pub const UDP_PORT: u16 = 5005;

/// Six rounds of the loop make up the command timeout, and the hundred rounds that a motor takes
/// from a standstill to full speed make up five seconds.
pub proof fn law_paces_fit_together()
    ensures
        CONTROL_CMD_TIMEOUT_MS == 6 * CONTROL_TASK_INTERVAL_MS,
        100 * CONTROL_TASK_INTERVAL_MS == 5_000 * MOTOR_RAMP_STEP,
        MOTOR_RAMP_STEP == 1,
{
}

} // verus!
