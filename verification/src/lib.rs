//! Verified control logic of a small robot with two drive motors and a lift: the serial and UDP
//! protocols, the safety controller, the motor ramps and the decoding of the sensors.
//!
//! Everything that touches hardware lives outside this library. The functions here take what was
//! read and give back what is to be written.
pub mod bytes;
pub mod config;
pub mod control;
pub mod control_laws;
pub mod control_loop;
pub mod crc;
pub mod frame_laws;
pub mod motor_laws;
pub mod motors;
pub mod protocol;
pub mod sensors;
pub mod time;
pub mod udp;
