//! The sensors: what is sent to them, and what their answers mean.
use vstd::prelude::*;

use crate::bytes::to_signed_be;
use crate::control::SensorSnapshot;
use crate::time::Instant;

verus! {

/// The first register of the magnetometer's measurement.
pub const HMC5883L_DATA: u8 = 0x03;

/// How long the magnetometer takes to settle once it is set up.
pub const HMC5883L_SETTLE_MS: u64 = 100;

/// The first register of the motion sensor's measurement.
pub const MPU6050_DATA: u8 = 0x3B;

/// The pause between two rounds of measurements.
pub const SENSOR_INTERVAL_MS: u64 = 20;

/// The HMC5883L magnetometer at an address of the bus.
#[derive(Debug, Clone, Copy)]
pub struct Hmc5883l {
    pub address: u8,
}

impl Hmc5883l {
    pub fn new(address: u8) -> (sensor: Self)
        ensures
            sensor.address == address,
    {
        Hmc5883l { address }
    }

    /// The register writes that configure the sensor, in order: the gain, then continuous
    /// measurement.
    pub fn setup(&self) -> (writes: [[u8; 2]; 2])
        ensures
            writes[0]@ == seq![0x01u8, 0x20u8],
            writes[1]@ == seq![0x02u8, 0x00u8],
    {
        [[0x01, 0x20], [0x02, 0x00]]
    }

    /// Reads the magnetometer axes out of its data registers. Returns (X, Y, Z).
    ///
    /// The registers hold them in the order X, Z, Y, most significant byte first.
    pub fn read(&self, registers: &[u8; 6]) -> (axes: (i16, i16, i16))
        ensures
            axes.0 == crate::bytes::signed_be(registers[0], registers[1]),
            axes.1 == crate::bytes::signed_be(registers[4], registers[5]),
            axes.2 == crate::bytes::signed_be(registers[2], registers[3]),
    {
        let x: i16 = to_signed_be(registers[0], registers[1]);
        let z: i16 = to_signed_be(registers[2], registers[3]);
        let y: i16 = to_signed_be(registers[4], registers[5]);
        (x, y, z)
    }
}

/// The MPU6050 motion sensor at an address of the bus.
#[derive(Debug, Clone, Copy)]
pub struct AsyncMpu6050 {
    pub address: u8,
}

impl AsyncMpu6050 {
    pub fn new(address: u8) -> (sensor: Self)
        ensures
            sensor.address == address,
    {
        AsyncMpu6050 { address }
    }

    /// The register write that wakes the sensor up.
    pub fn setup(&self) -> (writes: [[u8; 2]; 1])
        ensures
            writes[0]@ == seq![0x6Bu8, 0x00u8],
    {
        [[0x6B, 0x00]]
    }

    /// Reads the counts of the three acceleration axes and of the three turn rates out of the data
    /// registers. The two registers between them hold the temperature.
    pub fn read(&self, registers: &[u8; 14]) -> (counts: ([i16; 3], [i16; 3]))
        ensures
            forall|k: int|
                0 <= k < 3 ==> #[trigger] counts.0[k] == crate::bytes::signed_be(
                    registers[2 * k],
                    registers[2 * k + 1],
                ),
            forall|k: int|
                0 <= k < 3 ==> #[trigger] counts.1[k] == crate::bytes::signed_be(
                    registers[8 + 2 * k],
                    registers[9 + 2 * k],
                ),
    {
        let ax: i16 = to_signed_be(registers[0], registers[1]);
        let ay: i16 = to_signed_be(registers[2], registers[3]);
        let az: i16 = to_signed_be(registers[4], registers[5]);
        let gx: i16 = to_signed_be(registers[8], registers[9]);
        let gy: i16 = to_signed_be(registers[10], registers[11]);
        let gz: i16 = to_signed_be(registers[12], registers[13]);
        ([ax, ay, az], [gx, gy, gz])
    }
}

/// Puts a round of measurements together. A sensor that could not be read leaves zeros, and the
/// switches and bumpers are not wired up.
pub fn assemble_snapshot(
    magnetometer: Option<(i16, i16, i16)>,
    motion: Option<([u32; 3], [u32; 3])>,
) -> (snapshot: SensorSnapshot)
    ensures
        crate::control::flags_of(snapshot) == 0,
        !snapshot.top_switch_activated,
        !snapshot.bottom_switch_activated,
        !snapshot.collision_fl,
        !snapshot.collision_fc,
        !snapshot.collision_fr,
        match magnetometer {
            Some(axes) => snapshot.magnetometer_x == axes.0 && snapshot.magnetometer_y == axes.1,
            None => snapshot.magnetometer_x == 0 && snapshot.magnetometer_y == 0,
        },
        match motion {
            Some(rates) => snapshot.accel == rates.0 && snapshot.gyro == rates.1,
            None => snapshot.accel@ == seq![0u32, 0u32, 0u32] && snapshot.gyro@ == seq![
                0u32,
                0u32,
                0u32,
            ],
        },
{
    let mut snapshot = SensorSnapshot::default();
    if let Some((x, y, _z)) = magnetometer {
        snapshot.magnetometer_x = x;
        snapshot.magnetometer_y = y;
    }
    if let Some((accel, gyro)) = motion {
        snapshot.accel = accel;
        snapshot.gyro = gyro;
    }
    snapshot.top_switch_activated = false;
    snapshot.bottom_switch_activated = false;
    snapshot.collision_fl = false;
    snapshot.collision_fc = false;
    snapshot.collision_fr = false;
    snapshot
}

/// Where a distance measurement stands.
#[derive(Debug, Clone, Copy, PartialEq, Eq, Structural)]
pub enum EchoPhase {
    Idle,
    BeforePulse,
    Pulse,
    AfterPulse,
    AwaitingHigh,
    AwaitingLow { start: Instant },
}

/// What became of the last action of a distance measurement.
#[derive(Debug, Clone, Copy, PartialEq, Eq, Structural)]
pub enum EchoEvent {
    /// The trigger was set and held, or a measurement is to begin.
    Proceed,
    /// The echo line changed as awaited, at the given time.
    Edge { at: Instant },
    /// The echo line did not change in time.
    TimedOut,
}

/// What is to be done next for a distance measurement.
#[derive(Debug, Clone, Copy, PartialEq, Eq)]
pub enum EchoAction {
    /// Set the trigger line and hold it for a time.
    SetTrigger { high: bool, hold_micros: u64 },
    /// Wait for the echo line to rise.
    AwaitHigh { timeout_millis: u64 },
    /// Wait for the echo line to fall.
    AwaitLow { timeout_millis: u64 },
    /// The distance in centimetres, or `None` if the sensor did not answer in time.
    Finished { distance_cm: Option<u32> },
}

/// The distance that an echo of the given length stands for: 58 microseconds for each centimetre,
/// in 32 bits.
pub open spec fn echo_distance(micros: int) -> u32 {
    (micros / 58 % 0x1_0000_0000) as u32
}

pub open spec fn next_phase(phase: EchoPhase, event: EchoEvent) -> EchoPhase {
    match (phase, event) {
        (EchoPhase::Idle, _) => EchoPhase::BeforePulse,
        (EchoPhase::BeforePulse, _) => EchoPhase::Pulse,
        (EchoPhase::Pulse, _) => EchoPhase::AfterPulse,
        (EchoPhase::AfterPulse, _) => EchoPhase::AwaitingHigh,
        (EchoPhase::AwaitingHigh, EchoEvent::Edge { at }) => EchoPhase::AwaitingLow { start: at },
        _ => EchoPhase::Idle,
    }
}

pub open spec fn next_action(phase: EchoPhase, event: EchoEvent) -> EchoAction {
    match (phase, event) {
        (EchoPhase::Idle, _) => EchoAction::SetTrigger { high: false, hold_micros: 2 },
        (EchoPhase::BeforePulse, _) => EchoAction::SetTrigger { high: true, hold_micros: 10 },
        (EchoPhase::Pulse, _) => EchoAction::SetTrigger { high: false, hold_micros: 0 },
        (EchoPhase::AfterPulse, _) => EchoAction::AwaitHigh { timeout_millis: 10 },
        (EchoPhase::AwaitingHigh, EchoEvent::Edge { at }) => EchoAction::AwaitLow {
            timeout_millis: 50,
        },
        (EchoPhase::AwaitingLow { start }, EchoEvent::Edge { at }) => EchoAction::Finished {
            distance_cm: Some(echo_distance(at.ticks - start.ticks)),
        },
        _ => EchoAction::Finished { distance_cm: None },
    }
}

/// Whether the times that have been reported run forwards.
pub open spec fn in_time(phase: EchoPhase, event: EchoEvent) -> bool {
    (phase matches EchoPhase::AwaitingLow { start } && event matches EchoEvent::Edge { at })
        ==> phase->start.ticks <= event->at.ticks
}

/// Guides the measurement of a distance by ultrasound.
pub struct Ultrasonic {
    phase: EchoPhase,
}

impl View for Ultrasonic {
    type V = EchoPhase;

    closed spec fn view(&self) -> EchoPhase {
        self.phase
    }
}

impl Ultrasonic {
    pub fn new() -> (sensor: Self)
        ensures
            sensor@ == EchoPhase::Idle,
    {
        Ultrasonic { phase: EchoPhase::Idle }
    }

    /// Takes a measurement one step further: a trigger pulse of ten microseconds, then the length
    /// of the echo.
    pub fn measure(&mut self, event: EchoEvent) -> (action: EchoAction)
        requires
            in_time(old(self)@, event),
        ensures
            final(self)@ == next_phase(old(self)@, event),
            action == next_action(old(self)@, event),
    {
        match self.phase {
            EchoPhase::Idle => {
                self.phase = EchoPhase::BeforePulse;
                EchoAction::SetTrigger { high: false, hold_micros: 2 }
            },
            EchoPhase::BeforePulse => {
                self.phase = EchoPhase::Pulse;
                EchoAction::SetTrigger { high: true, hold_micros: 10 }
            },
            EchoPhase::Pulse => {
                self.phase = EchoPhase::AfterPulse;
                EchoAction::SetTrigger { high: false, hold_micros: 0 }
            },
            EchoPhase::AfterPulse => {
                self.phase = EchoPhase::AwaitingHigh;
                EchoAction::AwaitHigh { timeout_millis: 10 }
            },
            EchoPhase::AwaitingHigh => {
                if let EchoEvent::Edge { at } = event {
                    self.phase = EchoPhase::AwaitingLow { start: at };
                    return EchoAction::AwaitLow { timeout_millis: 50 };
                }
                self.phase = EchoPhase::Idle;
                EchoAction::Finished { distance_cm: None }
            },
            EchoPhase::AwaitingLow { start } => {
                self.phase = EchoPhase::Idle;
                if let EchoEvent::Edge { at } = event {
                    let duration_us: u64 = at.duration_since(start).as_micros();
                    let cm: u64 = duration_us / 58;
                    assert(cm as u32 == cm % 0x1_0000_0000) by (bit_vector);
                    let distance: u32 = #[verifier::truncate]
                    (cm as u32);
                    return EchoAction::Finished { distance_cm: Some(distance) };
                }
                EchoAction::Finished { distance_cm: None }
            },
        }
    }
}

pub open spec fn phase_after(phase: EchoPhase, events: Seq<EchoEvent>) -> EchoPhase
    decreases events.len(),
{
    if events.len() == 0 {
        phase
    } else {
        next_phase(phase_after(phase, events.drop_last()), events.last())
    }
}

/// The four events that lead from an idle sensor to the wait for the echo.
pub open spec fn pulse_events() -> Seq<EchoEvent> {
    seq![EchoEvent::Proceed, EchoEvent::Proceed, EchoEvent::Proceed, EchoEvent::Proceed]
}

proof fn lemma_pulse()
    ensures
        phase_after(EchoPhase::Idle, pulse_events()) == EchoPhase::AwaitingHigh,
{
    let e = pulse_events();
    let p = EchoEvent::Proceed;
    reveal_with_fuel(phase_after, 5);
    assert(e.drop_last() == seq![p, p, p]);
    assert(seq![p, p, p].drop_last() == seq![p, p]);
    assert(seq![p, p].drop_last() == seq![p]);
    assert(seq![p].drop_last() == Seq::<EchoEvent>::empty());
}

/// After the pulse, an echo that rises and falls in time gives its length in microseconds divided
/// by 58, exactly so for any echo shorter than two days; an echo that fails to rise or to fall in
/// time gives no distance. Either way the sensor is ready for the next measurement.
pub proof fn law_echo_gives_the_distance(rise: Instant, fall: Instant)
    requires
        rise.ticks <= fall.ticks,
    ensures
        ({
            let waiting = phase_after(EchoPhase::Idle, pulse_events());
            let risen = next_phase(waiting, EchoEvent::Edge { at: rise });
            &&& next_action(waiting, EchoEvent::TimedOut) == EchoAction::Finished {
                distance_cm: None,
            }
            &&& next_phase(waiting, EchoEvent::TimedOut) == EchoPhase::Idle
            &&& next_action(waiting, EchoEvent::Edge { at: rise }) == EchoAction::AwaitLow {
                timeout_millis: 50,
            }
            &&& next_action(risen, EchoEvent::TimedOut) == EchoAction::Finished {
                distance_cm: None,
            }
            &&& next_phase(risen, EchoEvent::TimedOut) == EchoPhase::Idle
            &&& next_phase(risen, EchoEvent::Edge { at: fall }) == EchoPhase::Idle
            &&& fall.ticks - rise.ticks < 58 * 0x1_0000_0000 ==> {
                next_action(risen, EchoEvent::Edge { at: fall }) == EchoAction::Finished {
                    distance_cm: Some(((fall.ticks - rise.ticks) / 58) as u32),
                }
            }
        }),
{
    lemma_pulse();
}

/// Whatever is reported meanwhile, a measurement begins with the trigger low for two microseconds,
/// high for ten and low again, and then waits for the echo for ten milliseconds.
pub proof fn law_measurement_begins_with_a_pulse(
    a: EchoEvent,
    b: EchoEvent,
    c: EchoEvent,
    d: EchoEvent,
    rise: Instant,
)
    ensures
        ({
            let low = next_phase(EchoPhase::Idle, a);
            let high = next_phase(low, b);
            let done = next_phase(high, c);
            let waiting = next_phase(done, d);
            &&& next_action(EchoPhase::Idle, a) == EchoAction::SetTrigger {
                high: false,
                hold_micros: 2,
            }
            &&& next_action(low, b) == EchoAction::SetTrigger { high: true, hold_micros: 10 }
            &&& next_action(high, c) == EchoAction::SetTrigger { high: false, hold_micros: 0 }
            &&& next_action(done, d) == EchoAction::AwaitHigh { timeout_millis: 10 }
            &&& in_time(EchoPhase::Idle, a) && in_time(low, b) && in_time(high, c) && in_time(
                done,
                d,
            ) && in_time(waiting, EchoEvent::Edge { at: rise })
        }),
{
}

/// After any pulse, the distance is the whole number of times that 58 microseconds fit into the
/// echo, in 32 bits. Anything but an edge in time ends the measurement without a distance, and
/// after its end, with or without one, the next measurement begins.
pub proof fn law_echo_is_measured(
    a: EchoEvent,
    b: EchoEvent,
    c: EchoEvent,
    d: EchoEvent,
    rise: Instant,
    fall: Instant,
    other: EchoEvent,
)
    requires
        rise.ticks <= fall.ticks,
        !(other is Edge),
    ensures
        ({
            let waiting = next_phase(
                next_phase(next_phase(next_phase(EchoPhase::Idle, a), b), c),
                d,
            );
            let risen = next_phase(waiting, EchoEvent::Edge { at: rise });
            let none = EchoAction::Finished { distance_cm: None };
            let found = next_action(risen, EchoEvent::Edge { at: fall });
            &&& next_action(waiting, EchoEvent::Edge { at: rise }) == EchoAction::AwaitLow {
                timeout_millis: 50,
            }
            &&& found is Finished && found->distance_cm is Some
            &&& ((fall.ticks - rise.ticks) / 58 - found->distance_cm->0) % 0x1_0000_0000 == 0
            &&& fall.ticks - rise.ticks < 58 * 0x1_0000_0000 ==> 58 * found->distance_cm->0
                <= fall.ticks - rise.ticks < 58 * (found->distance_cm->0 + 1)
            &&& next_action(waiting, other) == none && next_action(risen, other) == none
            &&& next_phase(waiting, other) == EchoPhase::Idle
            &&& next_phase(risen, other) == EchoPhase::Idle
            &&& next_phase(risen, EchoEvent::Edge { at: fall }) == EchoPhase::Idle
            &&& in_time(waiting, other) && in_time(risen, other)
            &&& in_time(risen, EchoEvent::Edge { at: fall })
        }),
{
}

/// Where the motion sensor's measurement lies: after the three accelerations and the temperature,
/// two registers each, come the turn rates from register 0x43 on. The magnetometer's lies right
/// behind the last register that is written to set it up. The pause between two rounds of
/// measurements is shorter than a round of the control loop.
pub proof fn law_measurements_lie_where_they_are_read()
    ensures
        MPU6050_DATA + 2 * 3 + 2 == 0x43,
        HMC5883L_DATA == 0x02 + 1,
        SENSOR_INTERVAL_MS < crate::config::CONTROL_TASK_INTERVAL_MS,
{
}

} // verus!
