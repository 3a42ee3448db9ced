//! The serial protocol: command frames in, status frames out.
//!
//! A frame is the start byte 0xAA, a command byte, the payload length, the payload, and the
//! CRC-8/MAXIM of everything between the start byte and the checksum itself.
use vstd::prelude::*;

use crate::bytes::{same_single, to_little_endian, to_signed};
pub use crate::crc::crc8_maxim;

verus! {

/// The byte that opens every frame.
pub const FRAME_START: u8 = 0xAA;

/// The longest payload that a frame can carry.
pub const MAX_PAYLOAD: u8 = 8;

/// The type byte of a sensor status frame.
pub const SENSOR_STATUS: u8 = 0x10;

/// Commands received from the UART.
#[derive(Debug, Clone, Copy, PartialEq, Eq, Structural)]
pub enum Command {
    Drive { left: i8, right: i8 },
    Stop,
    EmergencyStop,
    SensorPoll,
    Lift { power: i8 },
}

/// Errors that can occur during frame parsing.
#[derive(Debug, Clone, Copy, PartialEq, Eq, Structural)]
pub enum ParseError {
    InvalidLength,
    InvalidCrc,
    UnknownCommand(u8),
}

/// Responses to send back over UART.
///
/// `heading_deg` is the bit pattern of the heading in degrees, as an IEEE 754 single. Two responses
/// compare as their numbers do.
#[derive(Debug, Clone, Copy)]
pub enum Response {
    SensorStatus { flags: u8, heading_deg: u32 },
}

impl PartialEq for Response {
    fn eq(&self, other: &Self) -> (equal: bool) {
        match (*self, *other) {
            (
                Response::SensorStatus { flags: f, heading_deg: a },
                Response::SensorStatus { flags: g, heading_deg: b },
            ) => f == g && same_single(a, b),
        }
    }
}

impl vstd::std_specs::cmp::PartialEqSpecImpl for Response {
    open spec fn obeys_eq_spec() -> bool {
        true
    }

    open spec fn eq_spec(&self, other: &Self) -> bool {
        match (*self, *other) {
            (
                Response::SensorStatus { flags: f, heading_deg: a },
                Response::SensorStatus { flags: g, heading_deg: b },
            ) => f == g && crate::bytes::singles_equal(a, b),
        }
    }
}

/// The part of a status frame that its checksum covers.
pub open spec fn status_body(flags: u8, heading_deg: u32) -> Seq<u8> {
    seq![SENSOR_STATUS, 5, flags] + crate::bytes::little_endian(heading_deg)
}

impl Response {
    /// The bytes of this response on the wire.
    pub open spec fn frame(self) -> Seq<u8> {
        match self {
            Response::SensorStatus { flags, heading_deg } => {
                let body = status_body(flags, heading_deg);
                seq![FRAME_START] + body + seq![crate::crc::crc8(body)]
            },
        }
    }

    /// Serializes the response into the provided buffer.
    /// Returns the number of bytes written, or `None` if the buffer is too small.
    pub fn build_frame(&self, out: &mut [u8]) -> (written: Option<usize>)
        ensures
            written == (if old(out)@.len() < 9 {
                None::<usize>
            } else {
                Some(9usize)
            }),
            final(out)@ == (if old(out)@.len() < 9 {
                old(out)@
            } else {
                self.frame() + old(out)@.skip(9)
            }),
    {
        match self {
            Response::SensorStatus { flags, heading_deg } => {
                if out.len() < 9 {
                    return None;
                }
                let heading = to_little_endian(*heading_deg);
                out[0] = FRAME_START;
                out[1] = SENSOR_STATUS;
                out[2] = 5;
                out[3] = *flags;
                out[4] = heading[0];
                out[5] = heading[1];
                out[6] = heading[2];
                out[7] = heading[3];
                assert(out@.subrange(1, 8) == status_body(*flags, *heading_deg));
                let crc = crc8_maxim(&out[1..8]);
                out[8] = crc;
                Some(9)
            },
        }
    }
}

/// The command that a checked frame carries.
pub open spec fn decode(cmd: u8, payload: Seq<u8>) -> Result<Command, ParseError> {
    if cmd == 0x01 && payload.len() == 2 {
        Ok(
            Command::Drive {
                left: crate::bytes::signed(payload[0]),
                right: crate::bytes::signed(payload[1]),
            },
        )
    } else if cmd == 0x02 && payload.len() == 0 {
        Ok(Command::Stop)
    } else if cmd == 0x03 && payload.len() == 0 {
        Ok(Command::EmergencyStop)
    } else if cmd == 0x04 && payload.len() == 0 {
        Ok(Command::SensorPoll)
    } else if cmd == 0x05 && payload.len() == 1 {
        Ok(Command::Lift { power: crate::bytes::signed(payload[0]) })
    } else if 0x01 <= cmd <= 0x05 {
        Err(ParseError::InvalidLength)
    } else {
        Err(ParseError::UnknownCommand(cmd))
    }
}

/// Whether more bytes are needed before anything can be said of `bytes`: they are empty, or they
/// begin as a frame does and are shorter than the frame they announce.
pub open spec fn is_pending(bytes: Seq<u8>) -> bool {
    &&& bytes.len() > 0 ==> bytes[0] == FRAME_START
    &&& bytes.len() > 2 ==> bytes[2] <= MAX_PAYLOAD && bytes.len() < bytes[2] + 4
}

/// What a complete frame says: the checksum is looked at first.
pub open spec fn frame_result(frame: Seq<u8>) -> Result<Command, ParseError> {
    if frame.last() != crate::crc::crc8(frame.subrange(1, frame.len() - 1)) {
        Err(ParseError::InvalidCrc)
    } else {
        decode(frame[1], frame.subrange(3, frame.len() - 1))
    }
}

/// The bytes that are still pending once `byte` has followed `pending`.
pub open spec fn next_pending(pending: Seq<u8>, byte: u8) -> Seq<u8> {
    if is_pending(pending.push(byte)) {
        pending.push(byte)
    } else {
        Seq::empty()
    }
}

/// What is reported when `byte` follows `pending`.
pub open spec fn next_result(pending: Seq<u8>, byte: u8) -> Option<Result<Command, ParseError>> {
    let bytes = pending.push(byte);
    if is_pending(bytes) || bytes.len() == 1 {
        None
    } else if bytes[2] > MAX_PAYLOAD {
        Some(Err(ParseError::InvalidLength))
    } else {
        Some(frame_result(bytes))
    }
}

/// The bytes that are pending after a run of bytes.
pub open spec fn pending_after(pending: Seq<u8>, bytes: Seq<u8>) -> Seq<u8>
    decreases bytes.len(),
{
    if bytes.len() == 0 {
        pending
    } else {
        next_pending(pending_after(pending, bytes.drop_last()), bytes.last())
    }
}

/// Everything that is reported over a run of bytes, in order.
pub open spec fn results_over(pending: Seq<u8>, bytes: Seq<u8>) -> Seq<
    Result<Command, ParseError>,
>
    decreases bytes.len(),
{
    if bytes.len() == 0 {
        Seq::empty()
    } else {
        let before = results_over(pending, bytes.drop_last());
        match next_result(pending_after(pending, bytes.drop_last()), bytes.last()) {
            Some(result) => before.push(result),
            None => before,
        }
    }
}

/// Internal state for the `FrameParser`.
#[derive(Debug, Clone, Copy)]
enum ParserState {
    WaitStart,
    Cmd,
    Len { cmd: u8 },
    Payload { cmd: u8, len: u8, buffer: [u8; 8], idx: usize },
    Crc { cmd: u8, len: u8, buffer: [u8; 8] },
}

/// Parses incoming UART bytes into `Command`s.
///
/// Its view is the run of bytes, from the start byte on, of the frame that is being received.
pub struct FrameParser {
    state: ParserState,
}

impl View for FrameParser {
    type V = Seq<u8>;

    closed spec fn view(&self) -> Seq<u8> {
        match self.state {
            ParserState::WaitStart => Seq::empty(),
            ParserState::Cmd => seq![FRAME_START],
            ParserState::Len { cmd } => seq![FRAME_START, cmd],
            ParserState::Payload { cmd, len, buffer, idx } => seq![FRAME_START, cmd, len]
                + buffer@.take(idx as int),
            ParserState::Crc { cmd, len, buffer } => seq![FRAME_START, cmd, len] + buffer@.take(
                len as int,
            ),
        }
    }
}

impl Default for FrameParser {
    fn default() -> (parser: Self)
        ensures
            parser@ == Seq::<u8>::empty(),
    {
        FrameParser { state: ParserState::WaitStart }
    }
}

impl FrameParser {
    #[verifier::type_invariant]
    spec fn state_is_valid(&self) -> bool {
        match self.state {
            ParserState::Payload { cmd, len, buffer, idx } => idx < len <= MAX_PAYLOAD,
            ParserState::Crc { cmd, len, buffer } => len <= MAX_PAYLOAD,
            _ => true,
        }
    }

    #[must_use]
    pub fn new() -> (parser: Self)
        ensures
            parser@ == Seq::<u8>::empty(),
    {
        Self::default()
    }

    /// Resets the parser to its initial state.
    pub fn reset(&mut self)
        ensures
            final(self)@ == Seq::<u8>::empty(),
    {
        self.state = ParserState::WaitStart;
    }

    /// Pushes a single byte into the parser.
    /// Returns `Some(Ok(Command))` if a full, valid frame was completed.
    /// Returns `Some(Err(ParseError))` if an invalid frame was detected.
    /// Returns `None` if the frame is still in progress.
    pub fn push(&mut self, byte: u8) -> (result: Option<Result<Command, ParseError>>)
        ensures
            is_pending(old(self)@),
            is_pending(final(self)@),
            final(self)@ == next_pending(old(self)@, byte),
            result == next_result(old(self)@, byte),
    {
        proof {
            use_type_invariant(&*self);
        }
        match self.state {
            ParserState::WaitStart => {
                if byte == FRAME_START {
                    self.state = ParserState::Cmd;
                }
                None
            },
            ParserState::Cmd => {
                self.state = ParserState::Len { cmd: byte };
                None
            },
            ParserState::Len { cmd } => {
                let len = byte;
                if len > MAX_PAYLOAD {
                    self.reset();
                    return Some(Err(ParseError::InvalidLength));
                }
                if len == 0 {
                    self.state = ParserState::Crc { cmd, len, buffer: [0; 8] };
                } else {
                    self.state = ParserState::Payload { cmd, len, buffer: [0; 8], idx: 0 };
                }
                None
            },
            ParserState::Payload { cmd, len, buffer, idx } => {
                let mut buffer = buffer;
                buffer[idx] = byte;
                let idx: usize = idx + 1;
                if idx == len as usize {
                    self.state = ParserState::Crc { cmd, len, buffer };
                } else {
                    self.state = ParserState::Payload { cmd, len, buffer, idx };
                }
                None
            },
            ParserState::Crc { cmd, len, buffer } => {
                let ghost frame = self@.push(byte);
                self.reset();
                let n: usize = len as usize;
                let mut covered: [u8; 10] = [0; 10];
                covered[0] = cmd;
                covered[1] = len;
                for i in 0..n
                    invariant
                        n == len <= MAX_PAYLOAD,
                        covered[0] == cmd,
                        covered[1] == len,
                        forall|k: int| 0 <= k < i ==> covered[k + 2] == #[trigger] buffer[k],
                {
                    covered[2 + i] = buffer[i];
                }
                assert(covered@.subrange(0, 2 + n) == frame.subrange(1, frame.len() - 1));
                let expected_crc = crc8_maxim(&covered[0..2 + n]);
                assert(frame.subrange(3, frame.len() - 1) == buffer@.take(n as int));
                if byte != expected_crc {
                    return Some(Err(ParseError::InvalidCrc));
                }
                let cmd_result = match cmd {
                    0x01 if len == 2 => Ok(
                        Command::Drive { left: to_signed(buffer[0]), right: to_signed(buffer[1]) },
                    ),
                    0x02 if len == 0 => Ok(Command::Stop),
                    0x03 if len == 0 => Ok(Command::EmergencyStop),
                    0x04 if len == 0 => Ok(Command::SensorPoll),
                    0x05 if len == 1 => Ok(Command::Lift { power: to_signed(buffer[0]) }),
                    0x01..=0x05 => Err(ParseError::InvalidLength),
                    _ => Err(ParseError::UnknownCommand(cmd)),
                };
                Some(cmd_result)
            },
        }
    }

    /// Pushes every byte of a chunk, in order, and collects what was reported.
    pub fn push_slice(&mut self, bytes: &[u8]) -> (results: Vec<Result<Command, ParseError>>)
        ensures
            is_pending(old(self)@),
            is_pending(final(self)@),
            final(self)@ == pending_after(old(self)@, bytes@),
            results@ == results_over(old(self)@, bytes@),
    {
        proof {
            use_type_invariant(&*self);
        }
        let mut results: Vec<Result<Command, ParseError>> = Vec::new();
        let ghost start = self@;
        for i in 0..bytes.len()
            invariant
                self@ == pending_after(start, bytes@.take(i as int)),
                results@ == results_over(start, bytes@.take(i as int)),
        {
            assert(bytes@.take(i + 1).drop_last() == bytes@.take(i as int));
            if let Some(result) = self.push(bytes[i]) {
                results.push(result);
            }
        }
        assert(bytes@.take(bytes.len() as int) == bytes@);
        results
    }
}

} // verus!
