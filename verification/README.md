# atlas_controller

The firmware of a small robot with two drive motors and a lift, on an ESP32.

`src/` is the control logic as a Verus library: every function there is proved against its
contract, but for three short ones in `time` that call `embassy_time`.

- `crc`, `protocol`, `frame_laws`: the serial frames and their CRC-8/MAXIM, a byte-wise parser, and
  what holds over whole streams of frames.
- `control`, `control_laws`: the safety controller (emergency stop, stop, interlocks, failsafe) and
  what holds over whole runs of events.
- `motors`, `motor_laws`: the speed ramps and the duty cycles they lead to.
- `control_loop`: controller and motors together, and what holds of both over whole runs.
- `sensors`: the registers of the magnetometer and the motion sensor, and the ultrasonic
  measurement as a state machine.
- `udp`: the datagrams of the remote control.
- `time`: instants and durations, computed by `embassy_time` at one tick per microsecond. The three
  private functions that make these calls are trusted rather than proved.
- `bytes`, `config`: integer conversions and the settings of the robot.

Floating-point values pass through the library as their IEEE 754 bit patterns; all arithmetic on
them is in `app/`, together with the tasks and the hardware.
