use atlas_controller::protocol::{
    crc8_maxim, Command, FrameParser, ParseError, Response, FRAME_START,
};

fn frame(cmd: u8, payload: &[u8]) -> Vec<u8> {
    let mut body = vec![cmd, payload.len() as u8];
    body.extend_from_slice(payload);
    let crc = crc8_maxim(&body);
    let mut bytes = vec![FRAME_START];
    bytes.extend_from_slice(&body);
    bytes.push(crc);
    bytes
}

fn results(bytes: &[u8]) -> Vec<Result<Command, ParseError>> {
    FrameParser::new().push_slice(bytes)
}

#[test]
fn test_crc8_maxim() {
    let data = [0x01, 0x02, 0x50, 0x50];
    let crc = crc8_maxim(&data);
    assert_eq!(crc, crc8_maxim(&data));
}

#[test]
fn test_parse_drive_frame() {
    let mut parser = FrameParser::new();

    let cmd = 0x01;
    let len = 2;
    let payload = [50u8, 200u8];

    let crc_buf = [cmd, len, payload[0], payload[1]];
    let crc = crc8_maxim(&crc_buf);

    let frame = [FRAME_START, cmd, len, payload[0], payload[1], crc];

    let mut result = None;
    for &b in &frame {
        result = parser.push(b);
    }

    assert_eq!(
        result,
        Some(Ok(Command::Drive {
            left: 50,
            right: -56
        }))
    );
}

#[test]
fn test_parse_stop_frame() {
    let mut parser = FrameParser::new();

    let crc = crc8_maxim(&[0x02, 0]);
    let frame = [FRAME_START, 0x02, 0, crc];

    let mut result = None;
    for &b in &frame {
        result = parser.push(b);
    }

    assert_eq!(result, Some(Ok(Command::Stop)));
}

#[test]
fn test_build_sensor_status() {
    let resp = Response::SensorStatus {
        flags: 0b01010101,
        heading_deg: 90.5f32.to_bits(),
    };
    let mut buf = [0u8; 16];

    let written = resp.build_frame(&mut buf).unwrap();
    assert_eq!(written, 9);

    assert_eq!(buf[0], FRAME_START);
    assert_eq!(buf[1], 0x10);
    assert_eq!(buf[2], 5);
    assert_eq!(buf[3], 0b01010101);

    let heading_bytes = 90.5f32.to_le_bytes();
    assert_eq!(&buf[4..8], &heading_bytes);

    let expected_crc = crc8_maxim(&buf[1..8]);
    assert_eq!(buf[8], expected_crc);
}

#[test]
fn crc_of_the_reference_message() {
    assert_eq!(crc8_maxim(b"123456789"), 0xA1);
    assert_eq!(crc8_maxim(&[]), 0);
    assert_eq!(crc8_maxim(&[0x01]), 0x5E);
}

#[test]
fn crc_of_a_message_and_its_checksum_is_zero() {
    let mut data = b"atlas".to_vec();
    data.push(crc8_maxim(&data));
    assert_eq!(crc8_maxim(&data), 0);
}

#[test]
fn crc_is_linear() {
    let a = [0x12, 0x34, 0x56, 0x78];
    let b = [0x9A, 0xBC, 0xDE, 0xF0];
    let c = [a[0] ^ b[0], a[1] ^ b[1], a[2] ^ b[2], a[3] ^ b[3]];
    assert_eq!(crc8_maxim(&c), crc8_maxim(&a) ^ crc8_maxim(&b));
}

#[test]
fn crc_notices_every_change_of_one_byte() {
    let data = [0x05, 0x01, 0x7F];
    for i in 0..data.len() {
        for byte in 0..=255u8 {
            if byte != data[i] {
                let mut changed = data;
                changed[i] = byte;
                assert_ne!(crc8_maxim(&changed), crc8_maxim(&data));
            }
        }
    }
}

#[test]
fn every_command_is_read_back() {
    assert_eq!(
        results(&frame(0x01, &[0x80, 0x7F])),
        vec![Ok(Command::Drive { left: -128, right: 127 })]
    );
    assert_eq!(results(&frame(0x02, &[])), vec![Ok(Command::Stop)]);
    assert_eq!(results(&frame(0x03, &[])), vec![Ok(Command::EmergencyStop)]);
    assert_eq!(results(&frame(0x04, &[])), vec![Ok(Command::SensorPoll)]);
    assert_eq!(results(&frame(0x05, &[0xFF])), vec![Ok(Command::Lift { power: -1 })]);
}

#[test]
fn nothing_is_reported_before_the_last_byte() {
    let mut parser = FrameParser::new();
    let bytes = frame(0x01, &[1, 2]);
    for &b in &bytes[..bytes.len() - 1] {
        assert_eq!(parser.push(b), None);
    }
    assert_eq!(
        parser.push(bytes[bytes.len() - 1]),
        Some(Ok(Command::Drive { left: 1, right: 2 }))
    );
}

#[test]
fn frames_back_to_back_are_read_in_order() {
    let mut bytes = frame(0x03, &[]);
    bytes.extend(frame(0x05, &[40]));
    bytes.extend(frame(0x01, &[3, 4]));
    assert_eq!(
        results(&bytes),
        vec![
            Ok(Command::EmergencyStop),
            Ok(Command::Lift { power: 40 }),
            Ok(Command::Drive { left: 3, right: 4 }),
        ]
    );
}

#[test]
fn chunks_make_no_difference() {
    let mut bytes = frame(0x05, &[40]);
    bytes.extend(frame(0x02, &[]));
    for cut in 0..bytes.len() {
        let mut parser = FrameParser::default();
        let mut got = parser.push_slice(&bytes[..cut]);
        got.extend(parser.push_slice(&bytes[cut..]));
        assert_eq!(got, vec![Ok(Command::Lift { power: 40 }), Ok(Command::Stop)]);
    }
}

#[test]
fn noise_before_a_frame_is_skipped() {
    let mut bytes = vec![0x00, 0x01, 0xFF, 0xAB];
    bytes.extend(frame(0x02, &[]));
    assert_eq!(results(&bytes), vec![Ok(Command::Stop)]);
}

#[test]
fn a_start_byte_may_stand_inside_a_frame() {
    assert_eq!(
        results(&frame(0x01, &[0xAA, 0xAA])),
        vec![Ok(Command::Drive { left: -86, right: -86 })]
    );
}

#[test]
fn too_long_a_payload_is_rejected_at_once() {
    let mut parser = FrameParser::new();
    assert_eq!(parser.push(FRAME_START), None);
    assert_eq!(parser.push(0x01), None);
    assert_eq!(parser.push(9), Some(Err(ParseError::InvalidLength)));
    assert_eq!(parser.push_slice(&frame(0x02, &[])), vec![Ok(Command::Stop)]);
}

#[test]
fn the_longest_payload_is_accepted() {
    assert_eq!(
        results(&frame(0x42, &[1, 2, 3, 4, 5, 6, 7, 8])),
        vec![Err(ParseError::UnknownCommand(0x42))]
    );
}

#[test]
fn a_payload_that_does_not_fit_its_command_is_rejected() {
    for cmd in 1..=5u8 {
        assert_eq!(
            results(&frame(cmd, &[0, 0, 0])),
            vec![Err(ParseError::InvalidLength)]
        );
    }
    assert_eq!(results(&frame(0x01, &[])), vec![Err(ParseError::InvalidLength)]);
}

#[test]
fn unknown_commands_are_named() {
    assert_eq!(results(&frame(0x00, &[])), vec![Err(ParseError::UnknownCommand(0x00))]);
    assert_eq!(results(&frame(0x06, &[])), vec![Err(ParseError::UnknownCommand(0x06))]);
}

#[test]
fn a_corrupted_frame_is_rejected_for_its_checksum() {
    let good = frame(0x01, &[10, 20]);
    for i in [1, 3, 4, 5] {
        let mut bad = good.clone();
        bad[i] ^= 0x40;
        assert_eq!(results(&bad), vec![Err(ParseError::InvalidCrc)]);
    }
}

#[test]
fn a_reset_forgets_the_frame_in_progress() {
    let mut parser = FrameParser::new();
    let bytes = frame(0x05, &[40]);
    assert_eq!(parser.push_slice(&bytes[..3]), vec![]);
    parser.reset();
    assert_eq!(parser.push_slice(&bytes[3..]), vec![]);
    assert_eq!(parser.push_slice(&bytes), vec![Ok(Command::Lift { power: 40 })]);
}

#[test]
fn a_small_buffer_is_left_alone() {
    let resp = Response::SensorStatus { flags: 1, heading_deg: 0x0102_0304 };
    let mut buf = [7u8; 8];
    assert_eq!(resp.build_frame(&mut buf), None);
    assert_eq!(buf, [7u8; 8]);
}

#[test]
fn a_response_fills_nine_bytes_and_no_more() {
    let resp = Response::SensorStatus { flags: 0x11, heading_deg: 0x0102_0304 };
    let mut buf = [7u8; 11];
    assert_eq!(resp.build_frame(&mut buf), Some(9));
    assert_eq!(&buf[..8], &[0xAA, 0x10, 5, 0x11, 4, 3, 2, 1]);
    assert_eq!(crc8_maxim(&buf[1..9]), 0);
    assert_eq!(&buf[9..], &[7, 7]);
}

#[test]
fn an_echoed_response_is_no_command() {
    let resp = Response::SensorStatus { flags: 3, heading_deg: 12.25f32.to_bits() };
    let mut buf = [0u8; 9];
    resp.build_frame(&mut buf).unwrap();
    assert_eq!(results(&buf), vec![Err(ParseError::UnknownCommand(0x10))]);
}

#[test]
fn crc_notices_every_short_burst() {
    let data = [0x01, 0x02, 0x50, 0x50];
    for i in 0..data.len() - 1 {
        for k in 0..8u32 {
            for bits in 1..=255u16 {
                let burst = bits << k;
                let mut changed = data;
                changed[i] ^= burst as u8;
                changed[i + 1] ^= (burst >> 8) as u8;
                assert_ne!(crc8_maxim(&changed), crc8_maxim(&data));
            }
        }
    }
}

#[test]
fn the_parser_decides_within_twelve_bytes() {
    let mut parser = FrameParser::new();
    for byte in [FRAME_START, 0x55, 8, 1, 2, 3, 4, 5, 6, 7, 8] {
        assert_eq!(parser.push(byte), None);
    }
    assert!(parser.push(0).is_some());
}

#[test]
fn different_responses_look_different() {
    let frame_of = |flags: u8, heading_deg: u32| {
        let mut buf = [0u8; 9];
        Response::SensorStatus { flags, heading_deg }.build_frame(&mut buf).unwrap();
        buf
    };
    let base = frame_of(1, 0x0102_0304);
    assert_ne!(base, frame_of(2, 0x0102_0304));
    for byte in 0..4 {
        assert_ne!(base, frame_of(1, 0x0102_0304 ^ (0x80 << (8 * byte))));
    }
}

#[test]
fn a_quiet_line_resynchronizes() {
    let stray = frame(0x77, &[1, 2, 3, 4, 5, 6, 7, 8]);
    for cut in 1..stray.len() {
        let mut parser = FrameParser::new();
        assert_eq!(parser.push_slice(&stray[..cut]), vec![]);
        parser.push_slice(&[0x08; 11]);
        assert_eq!(parser.push_slice(&frame(0x02, &[])), vec![Ok(Command::Stop)]);
    }
}

#[test]
fn responses_compare_as_their_numbers_do() {
    let status = |flags: u8, heading: f32| Response::SensorStatus {
        flags,
        heading_deg: heading.to_bits(),
    };
    assert_eq!(status(1, 90.5), status(1, 90.5));
    assert_ne!(status(1, 90.5), status(2, 90.5));
    assert_ne!(status(1, 90.5), status(1, -90.5));
    assert_eq!(status(1, 0.0), status(1, -0.0));
    assert_ne!(status(1, f32::NAN), status(1, f32::NAN));
    assert_eq!(status(1, f32::INFINITY), status(1, f32::INFINITY));
    assert_ne!(status(1, f32::INFINITY), status(1, f32::NEG_INFINITY));
    let samples = [0.0, -0.0, 1.0, -1.0, f32::MIN_POSITIVE, 1e-45, f32::MAX, f32::NAN, -f32::NAN];
    for a in samples {
        for b in samples {
            assert_eq!(status(0, a) == status(0, b), a == b);
        }
    }
}
