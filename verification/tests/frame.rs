use server_list_ping::error::{Error, FramingFault};
use server_list_ping::frame::{
    build_frame, frame_progress, parse_frame, parse_payload, read_prefixed, Packet, Progress,
};

#[test]
fn frame_of_an_empty_packet() {
    assert_eq!(build_frame(0, &[]), Ok(vec![0x01, 0x00]));
}

#[test]
fn frame_length_counts_identifier_and_body() {
    assert_eq!(build_frame(1, &[0xAA, 0xBB]), Ok(vec![0x03, 0x01, 0xAA, 0xBB]));
    assert_eq!(build_frame(300, &[0x07]), Ok(vec![0x03, 0xAC, 0x02, 0x07]));
    assert_eq!(
        build_frame(-1, &[]),
        Ok(vec![0x05, 0xFF, 0xFF, 0xFF, 0xFF, 0x0F])
    );
}

#[test]
fn frame_length_takes_two_bytes_from_128_on() {
    let body = vec![0x55; 127];
    let frame = build_frame(0, &body).unwrap();
    assert_eq!(frame.len(), 2 + 1 + 127);
    assert_eq!(&frame[..3], &[0x80, 0x01, 0x00]);
    assert_eq!(&frame[3..], &body[..]);
}

#[test]
fn frames_round_trip() {
    let bodies: [Vec<u8>; 4] = [vec![], vec![0x00], vec![0x80, 0xFF, 0x7F], vec![0x42; 300]];
    let ids: [i32; 6] = [0, 1, 127, 128, -1, i32::MIN];
    for id in ids {
        for body in &bodies {
            let frame = build_frame(id, body).unwrap();
            assert_eq!(parse_frame(&frame), Ok(Packet { id, body: body.clone() }));
            assert_eq!(frame_progress(&frame), Ok(Progress::Complete));
        }
    }
}

#[test]
fn payload_is_identifier_then_body() {
    assert_eq!(parse_payload(&[0x00]), Ok(Packet { id: 0, body: vec![] }));
    assert_eq!(
        parse_payload(&[0xDD, 0xC7, 0x01, 0x09, 0x08]),
        Ok(Packet { id: 25565, body: vec![0x09, 0x08] })
    );
    assert_eq!(parse_payload(&[]), Err(Error::Framing(FramingFault::UnexpectedEnd)));
    assert_eq!(
        parse_payload(&[0x80, 0x80, 0x80, 0x80, 0x80, 0x00]),
        Err(Error::Framing(FramingFault::VarIntTooLong))
    );
}

#[test]
fn prefixed_block_must_fill_the_input() {
    assert_eq!(read_prefixed(&[0x02, 0x0A, 0x0B]), Ok(&[0x0Au8, 0x0B][..]));
    assert_eq!(read_prefixed(&[0x00]), Ok(&[0u8; 0][..]));
    assert_eq!(read_prefixed(&[0x02, 0x0A]), Err(Error::Framing(FramingFault::UnexpectedEnd)));
    assert_eq!(
        read_prefixed(&[0x01, 0x0A, 0x0B]),
        Err(Error::Framing(FramingFault::TrailingBytes))
    );
}

#[test]
fn frame_cut_short_is_unexpected_end() {
    assert_eq!(parse_frame(&[]), Err(Error::Framing(FramingFault::UnexpectedEnd)));
    assert_eq!(parse_frame(&[0x80]), Err(Error::Framing(FramingFault::UnexpectedEnd)));
    assert_eq!(parse_frame(&[0x03, 0x00, 0x01]), Err(Error::Framing(FramingFault::UnexpectedEnd)));
}

#[test]
fn frame_with_bytes_left_over_is_refused() {
    assert_eq!(
        parse_frame(&[0x01, 0x00, 0x00]),
        Err(Error::Framing(FramingFault::TrailingBytes))
    );
}

#[test]
fn frame_with_negative_length_is_refused() {
    assert_eq!(
        parse_frame(&[0xFF, 0xFF, 0xFF, 0xFF, 0x0F, 0x00]),
        Err(Error::Framing(FramingFault::NegativeLength))
    );
    assert_eq!(
        frame_progress(&[0xFF, 0xFF, 0xFF, 0xFF, 0x0F]),
        Err(Error::Framing(FramingFault::NegativeLength))
    );
}

#[test]
fn frame_with_overlong_length_is_refused() {
    assert_eq!(
        parse_frame(&[0x80, 0x80, 0x80, 0x80, 0x80, 0x00]),
        Err(Error::Framing(FramingFault::VarIntTooLong))
    );
    assert_eq!(
        frame_progress(&[0x80, 0x80, 0x80, 0x80, 0x80]),
        Err(Error::Framing(FramingFault::VarIntTooLong))
    );
}

#[test]
fn frame_without_identifier_is_refused() {
    assert_eq!(parse_frame(&[0x00]), Err(Error::Framing(FramingFault::UnexpectedEnd)));
    assert_eq!(parse_frame(&[0x01, 0x80]), Err(Error::Framing(FramingFault::UnexpectedEnd)));
}

#[test]
fn progress_asks_for_one_byte_while_the_length_is_open() {
    assert_eq!(frame_progress(&[]), Ok(Progress::Missing(1)));
    assert_eq!(frame_progress(&[0x80]), Ok(Progress::Missing(1)));
    assert_eq!(frame_progress(&[0x80, 0x80, 0x80, 0x80]), Ok(Progress::Missing(1)));
}

#[test]
fn progress_asks_for_the_rest_once_the_length_is_known() {
    assert_eq!(frame_progress(&[0x05]), Ok(Progress::Missing(5)));
    assert_eq!(frame_progress(&[0x05, 0x00, 0x01]), Ok(Progress::Missing(3)));
    assert_eq!(frame_progress(&[0x80, 0x01]), Ok(Progress::Missing(128)));
    assert_eq!(
        frame_progress(&[0xFF, 0xFF, 0xFF, 0xFF, 0x07]),
        Ok(Progress::Missing(2147483647))
    );
    assert_eq!(frame_progress(&[0x00]), Ok(Progress::Complete));
    assert_eq!(
        frame_progress(&[0x01, 0x00, 0x00]),
        Err(Error::Framing(FramingFault::TrailingBytes))
    );
}

#[test]
fn reading_by_progress_stops_at_the_end_of_the_frame() {
    let frame = build_frame(0, &[0x10, 0x20, 0x30]).unwrap();
    let mut stream = frame.clone();
    stream.extend_from_slice(&[0xEE, 0xEE]);
    let mut buffered: Vec<u8> = Vec::new();
    loop {
        match frame_progress(&buffered).unwrap() {
            Progress::Complete => break,
            Progress::Missing(n) => {
                let from = buffered.len();
                buffered.extend_from_slice(&stream[from..from + n]);
            }
        }
    }
    assert_eq!(buffered, frame);
}

#[test]
fn a_packet_too_long_for_a_frame_is_refused() {
    let body = vec![0u8; i32::MAX as usize];
    assert_eq!(build_frame(0, &body), Err(Error::Framing(FramingFault::Oversized)));
    assert_eq!(
        build_frame(128, &body[..i32::MAX as usize - 1]),
        Err(Error::Framing(FramingFault::Oversized))
    );
}
