//! What the frame parser and the frame builder promise over whole runs of bytes.
use vstd::prelude::*;
use vstd::std_specs::cmp::PartialEqSpec;

use crate::protocol::{Command, ParseError, Response, FRAME_START, MAX_PAYLOAD};

verus! {

/// A frame with the given command byte and payload, and the checksum that belongs to them.
pub open spec fn frame_of(cmd: u8, payload: Seq<u8>) -> Seq<u8> {
    let body = seq![cmd, payload.len() as u8] + payload;
    seq![FRAME_START] + body + seq![crate::crc::crc8(body)]
}

/// The command byte and the payload that stand for a command.
pub open spec fn encode(command: Command) -> (u8, Seq<u8>) {
    match command {
        Command::Drive { left, right } => (
            0x01,
            seq![crate::bytes::unsigned(left), crate::bytes::unsigned(right)],
        ),
        Command::Stop => (0x02, Seq::empty()),
        Command::EmergencyStop => (0x03, Seq::empty()),
        Command::SensorPoll => (0x04, Seq::empty()),
        Command::Lift { power } => (0x05, seq![crate::bytes::unsigned(power)]),
    }
}

/// The frame that carries a command.
pub open spec fn command_frame(command: Command) -> Seq<u8> {
    frame_of(encode(command).0, encode(command).1)
}

/// The frames of several commands, one after the other.
pub open spec fn command_stream(commands: Seq<Command>) -> Seq<u8>
    decreases commands.len(),
{
    if commands.len() == 0 {
        Seq::empty()
    } else {
        command_stream(commands.drop_last()) + command_frame(commands.last())
    }
}

proof fn lemma_pending_run(bytes: Seq<u8>)
    requires
        crate::protocol::is_pending(bytes),
    ensures
        crate::protocol::pending_after(Seq::empty(), bytes) == bytes,
        crate::protocol::results_over(Seq::empty(), bytes).len() == 0,
    decreases bytes.len(),
{
    if bytes.len() > 0 {
        lemma_pending_run(bytes.drop_last());
        assert(bytes.drop_last().push(bytes.last()) == bytes);
    }
}

/// How a run of bytes is cut into chunks makes no difference to what is reported.
pub proof fn law_chunks_compose(pending: Seq<u8>, a: Seq<u8>, b: Seq<u8>)
    ensures
        crate::protocol::pending_after(pending, a + b) == crate::protocol::pending_after(
            crate::protocol::pending_after(pending, a),
            b,
        ),
        crate::protocol::results_over(pending, a + b) == crate::protocol::results_over(pending, a)
            + crate::protocol::results_over(crate::protocol::pending_after(pending, a), b),
    decreases b.len(),
{
    if b.len() == 0 {
        assert(a + b == a);
    } else {
        law_chunks_compose(pending, a, b.drop_last());
        assert((a + b).drop_last() == a + b.drop_last());
    }
}

/// The bytes that a parser holds on to never outgrow a frame short of its checksum.
pub proof fn law_pending_is_bounded(pending: Seq<u8>, bytes: Seq<u8>)
    requires
        crate::protocol::is_pending(pending),
    ensures
        crate::protocol::is_pending(crate::protocol::pending_after(pending, bytes)),
        crate::protocol::pending_after(pending, bytes).len() <= MAX_PAYLOAD + 3,
    decreases bytes.len(),
{
    if bytes.len() > 0 {
        law_pending_is_bounded(pending, bytes.drop_last());
    }
}

/// Bytes other than the start byte leave an idle parser idle, and nothing is reported.
pub proof fn law_noise_is_skipped(noise: Seq<u8>)
    requires
        forall|i: int| 0 <= i < noise.len() ==> noise[i] != FRAME_START,
    ensures
        crate::protocol::pending_after(Seq::empty(), noise).len() == 0,
        crate::protocol::results_over(Seq::empty(), noise).len() == 0,
    decreases noise.len(),
{
    if noise.len() > 0 {
        law_noise_is_skipped(noise.drop_last());
        assert(crate::protocol::pending_after(Seq::empty(), noise.drop_last()) == Seq::<
            u8,
        >::empty());
    }
}

/// Whenever something is reported, be it a command or an error, the parser is idle again.
pub proof fn law_report_leaves_the_parser_idle(pending: Seq<u8>, byte: u8)
    requires
        crate::protocol::next_result(pending, byte) is Some,
    ensures
        crate::protocol::next_pending(pending, byte).len() == 0,
{
}

/// Eleven bytes or more without a start byte leave any parser idle, whatever it was in the middle
/// of.
pub proof fn law_quiet_line_resynchronizes(pending: Seq<u8>, noise: Seq<u8>)
    requires
        crate::protocol::is_pending(pending),
        noise.len() >= MAX_PAYLOAD + 3,
        forall|i: int| 0 <= i < noise.len() ==> noise[i] != FRAME_START,
    ensures
        crate::protocol::pending_after(pending, noise).len() == 0,
{
    lemma_noise_is_swallowed(pending, noise);
    law_pending_is_bounded(pending, noise);
    if pending.len() == 0 {
        assert(pending == Seq::<u8>::empty());
        law_noise_is_skipped(noise);
    }
}

proof fn lemma_noise_is_swallowed(pending: Seq<u8>, noise: Seq<u8>)
    requires
        forall|i: int| 0 <= i < noise.len() ==> noise[i] != FRAME_START,
    ensures
        crate::protocol::pending_after(pending, noise).len() == 0
            || crate::protocol::pending_after(pending, noise) == pending + noise,
    decreases noise.len(),
{
    if noise.len() == 0 {
        assert(pending + noise == pending);
    } else {
        lemma_noise_is_swallowed(pending, noise.drop_last());
        assert(pending + noise == (pending + noise.drop_last()).push(noise.last()));
    }
}

/// A complete run of bytes, all but the last of which are pending, is judged once, at its last
/// byte, and leaves the parser idle.
proof fn lemma_complete_run(bytes: Seq<u8>)
    requires
        bytes.len() >= 4,
        bytes[0] == FRAME_START,
        bytes[2] <= MAX_PAYLOAD,
        bytes.len() == bytes[2] + 4,
    ensures
        crate::protocol::pending_after(Seq::empty(), bytes).len() == 0,
        crate::protocol::results_over(Seq::empty(), bytes) == seq![
            crate::protocol::frame_result(bytes),
        ],
{
    lemma_pending_run(bytes.drop_last());
    assert(bytes.drop_last().push(bytes.last()) == bytes);
}

/// An idle parser that is fed a frame with a fitting checksum reports once, with the meaning of
/// its command byte and payload, and is idle again.
pub proof fn law_frame_is_read_back(cmd: u8, payload: Seq<u8>)
    requires
        payload.len() <= MAX_PAYLOAD,
    ensures
        crate::protocol::results_over(Seq::empty(), frame_of(cmd, payload)) == seq![
            crate::protocol::decode(cmd, payload),
        ],
        crate::protocol::pending_after(Seq::empty(), frame_of(cmd, payload)).len() == 0,
{
    let frame = frame_of(cmd, payload);
    let body = seq![cmd, payload.len() as u8] + payload;
    lemma_complete_run(frame);
    assert(frame.subrange(1, frame.len() - 1) == body);
    assert(frame.subrange(3, frame.len() - 1) == payload);
}

/// An idle parser that is fed the frame of a command reports exactly that command, and is idle
/// again.
pub proof fn law_command_is_read_back(command: Command)
    ensures
        crate::protocol::results_over(Seq::empty(), command_frame(command)) == seq![
            Ok::<Command, ParseError>(command),
        ],
        crate::protocol::pending_after(Seq::empty(), command_frame(command)).len() == 0,
{
    law_frame_is_read_back(encode(command).0, encode(command).1);
}

/// The frames of several commands, sent back to back, are read back as those commands, in order,
/// with nothing added and nothing lost.
pub proof fn law_stream_is_read_back(commands: Seq<Command>)
    ensures
        crate::protocol::results_over(Seq::empty(), command_stream(commands))
            == commands.map_values(|c: Command| Ok::<Command, ParseError>(c)),
        crate::protocol::pending_after(Seq::empty(), command_stream(commands)).len() == 0,
    decreases commands.len(),
{
    if commands.len() > 0 {
        let before = command_stream(commands.drop_last());
        law_stream_is_read_back(commands.drop_last());
        law_command_is_read_back(commands.last());
        law_chunks_compose(Seq::empty(), before, command_frame(commands.last()));
        assert(crate::protocol::pending_after(Seq::empty(), before) == Seq::<u8>::empty());
    }
}

/// A command is reported only for the very bytes that encode it.
pub proof fn law_only_its_own_frame_yields_a_command(pending: Seq<u8>, byte: u8, command: Command)
    requires
        crate::protocol::is_pending(pending),
        crate::protocol::next_result(pending, byte) == Some(Ok::<Command, ParseError>(command)),
    ensures
        pending.push(byte) == command_frame(command),
{
    let frame = pending.push(byte);
    let payload = frame.subrange(3, frame.len() - 1);
    assert(frame.len() == frame[2] + 4);
    assert(frame.subrange(1, frame.len() - 1) == seq![frame[1], payload.len() as u8] + payload);
    assert(payload == encode(command).1);
    assert(frame == frame_of(frame[1], payload));
}

/// A frame of which one byte was changed on the way, be it the command byte, a byte of the payload
/// or the checksum, is rejected for its checksum.
pub proof fn law_corrupted_frame_is_rejected(cmd: u8, payload: Seq<u8>, i: int, byte: u8)
    requires
        payload.len() <= MAX_PAYLOAD,
        1 <= i < frame_of(cmd, payload).len(),
        i != 2,
        byte != frame_of(cmd, payload)[i],
    ensures
        crate::protocol::results_over(Seq::empty(), frame_of(cmd, payload).update(i, byte))
            == seq![Err::<Command, ParseError>(ParseError::InvalidCrc)],
        crate::protocol::pending_after(
            Seq::empty(),
            frame_of(cmd, payload).update(i, byte),
        ).len() == 0,
{
    let frame = frame_of(cmd, payload);
    let body = seq![cmd, payload.len() as u8] + payload;
    let changed = frame.update(i, byte);
    lemma_complete_run(changed);
    if i == frame.len() - 1 {
        assert(changed.subrange(1, changed.len() - 1) == body);
    } else {
        assert(changed.subrange(1, changed.len() - 1) == body.update(i - 1, byte));
        crate::crc::law_one_byte_change_is_detected(body, i - 1, byte);
    }
}

/// A frame that announces too long a payload is rejected as soon as it does.
pub proof fn law_oversized_frame_is_rejected(cmd: u8, len: u8)
    requires
        len > MAX_PAYLOAD,
    ensures
        crate::protocol::results_over(Seq::empty(), seq![FRAME_START, cmd, len]) == seq![
            Err::<Command, ParseError>(ParseError::InvalidLength),
        ],
        crate::protocol::pending_after(Seq::empty(), seq![FRAME_START, cmd, len]).len() == 0,
{
    let bytes = seq![FRAME_START, cmd, len];
    assert(bytes.drop_last() == seq![FRAME_START, cmd]);
    lemma_pending_run(seq![FRAME_START, cmd]);
}

/// A response on the wire is nine bytes long and closes with a checksum that fits.
pub proof fn law_response_is_checked(response: Response)
    ensures
        response.frame().len() == 9,
        crate::crc::crc8(response.frame().subrange(1, 9)) == 0,
{
    match response {
        Response::SensorStatus { flags, heading_deg } => {
            let body = crate::protocol::status_body(flags, heading_deg);
            crate::crc::law_checksum_cancels(body);
            assert(response.frame().subrange(1, 9) == body.push(crate::crc::crc8(body)));
        },
    }
}

/// Different responses look different on the wire.
pub proof fn law_response_can_be_read_back(a: Response, b: Response)
    requires
        a.frame() == b.frame(),
    ensures
        a == b,
{
    match (a, b) {
        (
            Response::SensorStatus { flags: f, heading_deg: g },
            Response::SensorStatus { flags: h, heading_deg: k },
        ) => {
            let s = a.frame();
            let t = b.frame();
            law_status_frame_by_position(f, g);
            law_status_frame_by_position(h, k);
            assert(s[3] == f && t[3] == h);
            assert(s[4] == (g % 0x100) as u8 && t[4] == (k % 0x100) as u8);
            assert(s[5] == (g / 0x100 % 0x100) as u8 && t[5] == (k / 0x100 % 0x100) as u8);
            assert(s[6] == (g / 0x1_0000 % 0x100) as u8 && t[6] == (k / 0x1_0000 % 0x100) as u8);
            assert(s[7] == (g / 0x100_0000) as u8 && t[7] == (k / 0x100_0000) as u8);
        },
    }
}

/// A response that comes back to the robot, by an echo on the line, is never taken for a command.
pub proof fn law_response_is_no_command(response: Response)
    ensures
        crate::protocol::results_over(Seq::empty(), response.frame()) == seq![
            Err::<Command, ParseError>(
                ParseError::UnknownCommand(crate::protocol::SENSOR_STATUS),
            ),
        ],
{
    match response {
        Response::SensorStatus { flags, heading_deg } => {
            let payload = seq![flags] + crate::bytes::little_endian(heading_deg);
            assert(crate::protocol::status_body(flags, heading_deg) == seq![
                crate::protocol::SENSOR_STATUS,
                payload.len() as u8,
            ] + payload);
            law_frame_is_read_back(crate::protocol::SENSOR_STATUS, payload);
            assert(response.frame() == frame_of(crate::protocol::SENSOR_STATUS, payload));
        },
    }
}

/// A status frame byte by byte: the start byte, the type, the length of the payload, the flags, the
/// heading with its least significant byte first, and the checksum of all but the start byte.
pub proof fn law_status_frame_by_position(flags: u8, heading_deg: u32)
    ensures
        ({
            let frame = (Response::SensorStatus { flags, heading_deg }).frame();
            &&& frame.len() == 9
            &&& frame[0] == 0xAA
            &&& frame[1] == 0x10
            &&& frame[2] == 5
            &&& frame[3] == flags
            &&& frame[4] + 0x100 * frame[5] + 0x1_0000 * frame[6] + 0x100_0000 * frame[7]
                == heading_deg
            &&& frame[8] == crate::crc::crc8(frame.subrange(1, 8))
        }),
{
    let response = Response::SensorStatus { flags, heading_deg };
    let body = crate::protocol::status_body(flags, heading_deg);
    crate::bytes::law_little_endian_adds_up(heading_deg);
    assert(response.frame().subrange(1, 8) == body);
}

/// A command frame byte by byte: the start byte, the number of the command, the length of the
/// payload, the speeds in two's complement, and the checksum of all but the start byte.
pub proof fn law_command_frame_by_position(command: Command)
    ensures
        ({
            let frame = command_frame(command);
            let end = frame.len() - 1;
            &&& frame[0] == 0xAA
            &&& frame.len() == frame[2] + 4
            &&& frame[end] == crate::crc::crc8(frame.subrange(1, end))
            &&& match command {
                Command::Drive { left, right } => {
                    &&& frame[1] == 1
                    &&& frame[2] == 2
                    &&& (frame[3] - left) % 0x100 == 0
                    &&& (frame[4] - right) % 0x100 == 0
                },
                Command::Stop => frame[1] == 2 && frame[2] == 0,
                Command::EmergencyStop => frame[1] == 3 && frame[2] == 0,
                Command::SensorPoll => frame[1] == 4 && frame[2] == 0,
                Command::Lift { power } => {
                    &&& frame[1] == 5
                    &&& frame[2] == 1
                    &&& (frame[3] - power) % 0x100 == 0
                },
            }
        }),
{
    let frame = command_frame(command);
    let payload = encode(command).1;
    let body = seq![encode(command).0, payload.len() as u8] + payload;
    assert(frame.subrange(1, frame.len() - 1) == body);
}

/// What one more byte does to a parser that holds the beginning of a frame, or nothing. It waits
/// for a start byte, then takes in the command, the length and as many bytes as announced, without
/// a report; a length of more than eight is reported at once, and the byte that completes a frame
/// is always reported. With a report the parser lets go of the frame.
pub proof fn law_byte_takes_the_frame_further(pending: Seq<u8>, byte: u8)
    requires
        pending.len() > 0 ==> pending[0] == 0xAA,
        pending.len() > 2 ==> pending[2] <= 8 && pending.len() <= pending[2] + 3,
    ensures
        crate::protocol::is_pending(pending),
        pending.len() == 0 && byte != 0xAA ==> {
            &&& crate::protocol::next_result(pending, byte) is None
            &&& crate::protocol::next_pending(pending, byte).len() == 0
        },
        ({
            ||| pending.len() == 0 && byte == 0xAA
            ||| pending.len() == 1
            ||| pending.len() == 2 && byte <= 8
            ||| pending.len() > 2 && pending.len() < pending[2] + 3
        }) ==> {
            &&& crate::protocol::next_result(pending, byte) is None
            &&& crate::protocol::next_pending(pending, byte) == pending.push(byte)
        },
        pending.len() == 2 && byte > 8 ==> {
            &&& crate::protocol::next_result(pending, byte) == Some(
                Err::<Command, ParseError>(ParseError::InvalidLength),
            )
            &&& crate::protocol::next_pending(pending, byte).len() == 0
        },
        pending.len() > 2 && pending.len() == pending[2] + 3 ==> {
            &&& crate::protocol::next_result(pending, byte) is Some
            &&& crate::protocol::next_pending(pending, byte).len() == 0
        },
{
}

/// What a complete frame is taken for. Only a frame whose last byte is the checksum of the command,
/// the length and the payload counts at all. Its command byte and its length then say which command
/// it is, if any, and each speed is the one that its byte stands for.
pub proof fn law_complete_frame_is_judged(
    pending: Seq<u8>,
    byte: u8,
    left: i8,
    right: i8,
    power: i8,
    code: u8,
)
    requires
        pending.len() >= 3,
        pending[0] == 0xAA,
        pending[2] <= 8,
        pending.len() == pending[2] + 3,
    ensures
        ({
            let report = crate::protocol::next_result(pending, byte);
            let fits = byte == crate::crc::crc8(pending.skip(1));
            let cmd = pending[1];
            let len = pending[2];
            &&& report == Some(Err::<Command, ParseError>(ParseError::InvalidCrc)) <==> !fits
            &&& report == Some(Ok::<Command, ParseError>(Command::Drive { left, right })) <==> {
                &&& fits && cmd == 1 && len == 2
                &&& (pending[3] - left) % 0x100 == 0
                &&& (pending[4] - right) % 0x100 == 0
            }
            &&& report == Some(Ok::<Command, ParseError>(Command::Stop)) <==> fits && cmd == 2
                && len == 0
            &&& report == Some(Ok::<Command, ParseError>(Command::EmergencyStop)) <==> fits && cmd
                == 3 && len == 0
            &&& report == Some(Ok::<Command, ParseError>(Command::SensorPoll)) <==> fits && cmd == 4
                && len == 0
            &&& report == Some(Ok::<Command, ParseError>(Command::Lift { power })) <==> {
                &&& fits && cmd == 5 && len == 1
                &&& (pending[3] - power) % 0x100 == 0
            }
            &&& report == Some(Err::<Command, ParseError>(ParseError::InvalidLength)) <==> fits && {
                ||| cmd == 1 && len != 2
                ||| 2 <= cmd <= 4 && len != 0
                ||| cmd == 5 && len != 1
            }
            &&& report == Some(Err::<Command, ParseError>(ParseError::UnknownCommand(code)))
                <==> fits && code == cmd && (cmd == 0 || cmd > 5)
        }),
{
    let frame = pending.push(byte);
    assert(frame.subrange(1, frame.len() - 1) == pending.skip(1));
    assert(frame.subrange(3, frame.len() - 1) == pending.skip(3));
    if pending[2] >= 1 {
        assert(pending.skip(3)[0] == pending[3]);
        crate::bytes::law_readings_agree_with_their_bytes(pending[3], power, 0, 0, 0);
    }
    if pending[2] >= 2 {
        assert(pending.skip(3)[1] == pending[4]);
        crate::bytes::law_readings_agree_with_their_bytes(pending[4], right, 0, 0, 0);
    }
}

/// A run of bytes is taken in one byte after the other, and the reports come in that order.
pub proof fn law_bytes_are_taken_in_order(pending: Seq<u8>, bytes: Seq<u8>, byte: u8)
    ensures
        crate::protocol::pending_after(pending, Seq::empty()) == pending,
        crate::protocol::results_over(pending, Seq::empty()).len() == 0,
        ({
            let held = crate::protocol::pending_after(pending, bytes);
            let before = crate::protocol::results_over(pending, bytes);
            let after = crate::protocol::results_over(pending, bytes.push(byte));
            &&& crate::protocol::pending_after(pending, bytes.push(byte))
                == crate::protocol::next_pending(held, byte)
            &&& match crate::protocol::next_result(held, byte) {
                Some(report) => after == before.push(report),
                None => after == before,
            }
        }),
{
    assert(bytes.push(byte).drop_last() == bytes);
}

/// Two responses are equal when their flags are and their headings are equal as numbers: no
/// response with a NaN equals itself, and headings with different bits are equal only as the two
/// zeros.
pub proof fn law_responses_compare_as_numbers(f: u8, a: u32, g: u8, b: u32)
    ensures
        ({
            let first = Response::SensorStatus { flags: f, heading_deg: a };
            let second = Response::SensorStatus { flags: g, heading_deg: b };
            &&& PartialEqSpec::eq_spec(&first, &first) <==> !(a & 0x7F80_0000 == 0x7F80_0000 && a
                & 0x007F_FFFF != 0)
            &&& f != g ==> !PartialEqSpec::eq_spec(&first, &second)
            &&& f == g && a != b ==> (PartialEqSpec::eq_spec(&first, &second) <==> a & 0x7FFF_FFFF
                == 0 && b & 0x7FFF_FFFF == 0)
        }),
{
    crate::bytes::law_singles_compare_as_numbers(a, b);
}

} // verus!
