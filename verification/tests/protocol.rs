use rustngo::bytes::{u32_from_le, u32_to_le};
use rustngo::firmware::{button_from_byte, reply_code, tone_command, Button, ToneCommand};
use rustngo::syscall::{
    console_print, decode, delay, display_clear, display_draw_circle, display_draw_rect,
    display_print, display_update, is_pressed, play_tone, reply_is_pressed, DecodeError, Request,
    Syscall,
};

fn roundtrip(s: Syscall) {
    let req = s.encode();
    assert_eq!(decode(req.op, &req.payload), Ok(s));
}

#[test]
fn le_bytes_of_a_word() {
    assert_eq!(u32_to_le(0x1234_5678), vec![0x78, 0x56, 0x34, 0x12]);
    assert_eq!(u32_to_le(1000), 1000u32.to_le_bytes().to_vec());
    assert_eq!(u32_from_le(0x78, 0x56, 0x34, 0x12), 0x1234_5678);
    assert_eq!(u32_from_le(0xff, 0xff, 0xff, 0xff), u32::MAX);
}

#[test]
fn le_roundtrip_on_values() {
    for v in [0u32, 1, 255, 256, 440, 65535, 65536, 0x00ab_cdef, u32::MAX] {
        let b = u32_to_le(v);
        assert_eq!(u32_from_le(b[0], b[1], b[2], b[3]), v);
    }
}

#[test]
fn every_request_decodes_to_itself() {
    roundtrip(Syscall::ConsolePrint { msg: b"Starting Pong...".to_vec() });
    roundtrip(Syscall::ConsolePrint { msg: vec![] });
    roundtrip(Syscall::Delay { ms: 1000 });
    roundtrip(Syscall::Delay { ms: u32::MAX });
    roundtrip(Syscall::IsPressed { button: b'B' });
    roundtrip(Syscall::PlayTone { freq: 440 });
    roundtrip(Syscall::PlayTone { freq: 0 });
    roundtrip(Syscall::DisplayPrint { x: 54, y: 30, text: b"PONG".to_vec() });
    roundtrip(Syscall::DisplayPrint { x: 0, y: 0, text: vec![] });
    roundtrip(Syscall::DisplayDrawRect { x: 63, y: 5, w: 2, h: 5, fill: true });
    roundtrip(Syscall::DisplayDrawRect { x: 1, y: 2, w: 3, h: 4, fill: false });
    roundtrip(Syscall::DisplayDrawCircle { x: 10, y: 20, d: 5, fill: true });
    roundtrip(Syscall::DisplayDrawCircle { x: 10, y: 20, d: 5, fill: false });
    roundtrip(Syscall::DisplayUpdate);
    roundtrip(Syscall::DisplayClear);
}

#[test]
fn library_requests_lay_out_their_arguments() {
    assert_eq!(console_print("hi"), Request { op: 1, payload: vec![b'h', b'i'] });
    assert_eq!(delay(300), Request { op: 2, payload: vec![44, 1, 0, 0] });
    assert_eq!(is_pressed('A'), Request { op: 3, payload: vec![65] });
    assert_eq!(play_tone(440), Request { op: 4, payload: vec![0xb8, 0x01, 0, 0] });
    assert_eq!(display_print(20, 35, "<"), Request { op: 5, payload: vec![20, 35, b'<'] });
    assert_eq!(
        display_draw_rect(5, 20, 2, 10, true),
        Request { op: 6, payload: vec![5, 20, 2, 10, 1] }
    );
    assert_eq!(
        display_draw_rect(5, 20, 2, 10, false),
        Request { op: 6, payload: vec![5, 20, 2, 10, 0] }
    );
    assert_eq!(display_draw_circle(10, 20, 5, true), Request { op: 7, payload: vec![10, 20, 5, 1] });
    assert_eq!(display_update(), Request { op: 8, payload: vec![] });
    assert_eq!(display_clear(), Request { op: 9, payload: vec![] });
}

#[test]
fn multibyte_text_is_sent_as_utf8() {
    assert_eq!(console_print("é"), Request { op: 1, payload: vec![0xc3, 0xa9] });
    let twenty = "abcdefghijklmnopqrst";
    assert_eq!(display_print(0, 0, twenty).payload.len(), 22);
}

#[test]
fn button_character_is_cut_to_a_byte() {
    // U+0141 keeps only its low byte, 0x41, which is `A`.
    assert_eq!(is_pressed('\u{141}'), Request { op: 3, payload: vec![0x41] });
    assert_eq!(is_pressed('R'), Request { op: 3, payload: vec![b'R'] });
}

#[test]
fn reply_one_means_pressed() {
    assert!(reply_is_pressed(1));
    assert!(!reply_is_pressed(0));
    assert!(!reply_is_pressed(2));
}

#[test]
fn decode_rejects_unknown_operations() {
    assert_eq!(decode(0, &[]), Err(DecodeError::UnknownOp));
    assert_eq!(decode(10, &[1, 2, 3]), Err(DecodeError::UnknownOp));
    assert_eq!(decode(255, &[]), Err(DecodeError::UnknownOp));
}

#[test]
fn decode_rejects_short_payloads() {
    assert_eq!(decode(2, &[1, 2, 3]), Err(DecodeError::Malformed));
    assert_eq!(decode(2, &[1, 2, 3, 4, 5]), Err(DecodeError::Malformed));
    assert_eq!(decode(3, &[]), Err(DecodeError::Malformed));
    assert_eq!(decode(4, &[]), Err(DecodeError::Malformed));
    assert_eq!(decode(5, &[7]), Err(DecodeError::Malformed));
    assert_eq!(decode(6, &[1, 2, 3, 4]), Err(DecodeError::Malformed));
    assert_eq!(decode(7, &[1, 2, 3]), Err(DecodeError::Malformed));
}

#[test]
fn decode_reads_firmware_fields() {
    assert_eq!(decode(3, &[b'U', 9, 9]), Ok(Syscall::IsPressed { button: b'U' }));
    assert_eq!(
        decode(6, &[1, 2, 3, 4, 2]),
        Ok(Syscall::DisplayDrawRect { x: 1, y: 2, w: 3, h: 4, fill: false })
    );
    assert_eq!(
        decode(7, &[1, 2, 3, 1, 0]),
        Ok(Syscall::DisplayDrawCircle { x: 1, y: 2, d: 3, fill: true })
    );
    assert_eq!(
        decode(5, &[3, 4, b'o', b'k']),
        Ok(Syscall::DisplayPrint { x: 3, y: 4, text: b"ok".to_vec() })
    );
    assert_eq!(decode(4, &[0xb8, 0x01, 0, 0]), Ok(Syscall::PlayTone { freq: 440 }));
    assert_eq!(decode(8, &[1, 2]), Ok(Syscall::DisplayUpdate));
    assert_eq!(decode(9, &[]), Ok(Syscall::DisplayClear));
}

#[test]
fn buttons_are_named_by_letters() {
    assert_eq!(button_from_byte(b'A'), Some(Button::A));
    assert_eq!(button_from_byte(b'B'), Some(Button::B));
    assert_eq!(button_from_byte(b'U'), Some(Button::Up));
    assert_eq!(button_from_byte(b'D'), Some(Button::Down));
    assert_eq!(button_from_byte(b'L'), Some(Button::Left));
    assert_eq!(button_from_byte(b'R'), Some(Button::Right));
    assert_eq!(button_from_byte(b'a'), None);
    assert_eq!(button_from_byte(0), None);
}

#[test]
fn firmware_replies() {
    assert_eq!(reply_code(&Err(DecodeError::UnknownOp), true), 1);
    assert_eq!(reply_code(&Ok(Syscall::IsPressed { button: b'A' }), true), 1);
    assert_eq!(reply_code(&Ok(Syscall::IsPressed { button: b'A' }), false), 0);
    assert_eq!(reply_code(&Ok(Syscall::IsPressed { button: b'X' }), true), 0);
    assert_eq!(reply_code(&Ok(Syscall::DisplayClear), true), 0);
    assert_eq!(reply_code(&Ok(Syscall::Delay { ms: 5 }), false), 0);
}

#[test]
fn game_button_query_reaches_the_pin() {
    for (c, low) in [('L', true), ('L', false), ('Z', true)] {
        let req = is_pressed(c);
        let decoded = decode(req.op, &req.payload);
        let reply = reply_code(&decoded, low);
        assert_eq!(reply_is_pressed(reply), c != 'Z' && low);
    }
}

#[test]
fn buzzer_commands() {
    assert_eq!(tone_command(440, false), ToneCommand::Start(440));
    assert_eq!(tone_command(440, true), ToneCommand::Start(440));
    assert_eq!(tone_command(0, true), ToneCommand::Stop);
    assert_eq!(tone_command(0, false), ToneCommand::Keep);
}

#[test]
fn display_text_must_fit_the_buffer() {
    assert!(Syscall::DisplayPrint { x: 0, y: 0, text: vec![b'x'; 20] }.is_sendable());
    assert!(!Syscall::DisplayPrint { x: 0, y: 0, text: vec![b'x'; 21] }.is_sendable());
    assert!(Syscall::ConsolePrint { msg: vec![b'x'; 100] }.is_sendable());
}
