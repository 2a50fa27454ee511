//! The syscall protocol between games and the firmware: every request is an
//! operation number and a byte payload.
use vstd::prelude::*;
use vstd::slice::slice_to_vec;
use vstd::string::StringSliceAdditionalSpecFns;
use crate::bytes::{le_bytes, le_value, lemma_le_roundtrip, u32_from_le, u32_to_le};

verus! {

/// Prints a message on the debug console.
pub const OP_CONSOLE_PRINT: u8 = 1;
/// Busy-waits for a number of milliseconds.
pub const OP_DELAY: u8 = 2;
/// Asks whether a button is held down.
pub const OP_IS_PRESSED: u8 = 3;
/// Starts (non-zero frequency) or stops (zero) the buzzer.
pub const OP_PLAY_TONE: u8 = 4;
/// Draws text into the frame buffer.
pub const OP_DISPLAY_PRINT: u8 = 5;
/// Draws a rectangle into the frame buffer.
pub const OP_DISPLAY_DRAW_RECT: u8 = 6;
/// Draws a circle into the frame buffer.
pub const OP_DISPLAY_DRAW_CIRCLE: u8 = 7;
/// Sends the frame buffer to the screen.
pub const OP_DISPLAY_UPDATE: u8 = 8;
/// Clears the frame buffer.
pub const OP_DISPLAY_CLEAR: u8 = 9;

/// Bytes of text that one display request carries: its buffer holds 22 bytes,
/// two of which are the position.
pub const DISPLAY_TEXT_MAX: usize = 20;

/// What the firmware answers to a request it does not know.
pub const REPLY_UNKNOWN_OP: u8 = 1;

/// A request of a game to the firmware.
#[derive(Debug, PartialEq, Eq)]
pub enum Syscall {
    ConsolePrint { msg: Vec<u8> },
    Delay { ms: u32 },
    IsPressed { button: u8 },
    PlayTone { freq: u32 },
    DisplayPrint { x: u8, y: u8, text: Vec<u8> },
    DisplayDrawRect { x: u8, y: u8, w: u8, h: u8, fill: bool },
    DisplayDrawCircle { x: u8, y: u8, d: u8, fill: bool },
    DisplayUpdate,
    DisplayClear,
}

/// A request, with its byte strings as sequences.
#[verifier::ext_equal]
pub enum Call {
    ConsolePrint { msg: Seq<u8> },
    Delay { ms: u32 },
    IsPressed { button: u8 },
    PlayTone { freq: u32 },
    DisplayPrint { x: u8, y: u8, text: Seq<u8> },
    DisplayDrawRect { x: u8, y: u8, w: u8, h: u8, fill: bool },
    DisplayDrawCircle { x: u8, y: u8, d: u8, fill: bool },
    DisplayUpdate,
    DisplayClear,
}

impl View for Syscall {
    type V = Call;

    open spec fn view(&self) -> Call {
        match self {
            Syscall::ConsolePrint { msg } => Call::ConsolePrint { msg: msg@ },
            Syscall::Delay { ms } => Call::Delay { ms: *ms },
            Syscall::IsPressed { button } => Call::IsPressed { button: *button },
            Syscall::PlayTone { freq } => Call::PlayTone { freq: *freq },
            Syscall::DisplayPrint { x, y, text } => Call::DisplayPrint { x: *x, y: *y, text: text@ },
            Syscall::DisplayDrawRect { x, y, w, h, fill } => Call::DisplayDrawRect {
                x: *x,
                y: *y,
                w: *w,
                h: *h,
                fill: *fill,
            },
            Syscall::DisplayDrawCircle { x, y, d, fill } => Call::DisplayDrawCircle {
                x: *x,
                y: *y,
                d: *d,
                fill: *fill,
            },
            Syscall::DisplayUpdate => Call::DisplayUpdate,
            Syscall::DisplayClear => Call::DisplayClear,
        }
    }
}

/// The operation number of a request.
pub open spec fn op_of(c: Call) -> u8 {
    match c {
        Call::ConsolePrint { .. } => OP_CONSOLE_PRINT,
        Call::Delay { .. } => OP_DELAY,
        Call::IsPressed { .. } => OP_IS_PRESSED,
        Call::PlayTone { .. } => OP_PLAY_TONE,
        Call::DisplayPrint { .. } => OP_DISPLAY_PRINT,
        Call::DisplayDrawRect { .. } => OP_DISPLAY_DRAW_RECT,
        Call::DisplayDrawCircle { .. } => OP_DISPLAY_DRAW_CIRCLE,
        Call::DisplayUpdate => OP_DISPLAY_UPDATE,
        Call::DisplayClear => OP_DISPLAY_CLEAR,
    }
}

/// The byte that stands for a fill flag.
pub open spec fn flag_byte(b: bool) -> u8 {
    if b {
        1
    } else {
        0
    }
}

/// The payload bytes of a request.
pub open spec fn payload_of(c: Call) -> Seq<u8> {
    match c {
        Call::ConsolePrint { msg } => msg,
        Call::Delay { ms } => le_bytes(ms),
        Call::IsPressed { button } => seq![button],
        Call::PlayTone { freq } => le_bytes(freq),
        Call::DisplayPrint { x, y, text } => seq![x, y] + text,
        Call::DisplayDrawRect { x, y, w, h, fill } => seq![x, y, w, h, flag_byte(fill)],
        Call::DisplayDrawCircle { x, y, d, fill } => seq![x, y, d, flag_byte(fill)],
        Call::DisplayUpdate => seq![],
        Call::DisplayClear => seq![],
    }
}

/// A request that a game can send: display text fits the 22-byte buffer.
pub open spec fn sendable(c: Call) -> bool {
    match c {
        Call::DisplayPrint { text, .. } => text.len() <= DISPLAY_TEXT_MAX,
        _ => true,
    }
}

/// Why the firmware cannot act on a request.
#[derive(Debug, Clone, Copy, PartialEq, Eq, Structural)]
pub enum DecodeError {
    /// The operation number names no syscall; the firmware answers `REPLY_UNKNOWN_OP`.
    UnknownOp,
    /// The payload is too short (or, for a 32-bit argument, not four bytes long).
    Malformed,
}

/// The 32-bit word that a payload of exactly four bytes denotes.
pub open spec fn word_of(buf: Seq<u8>) -> u32 {
    le_value(buf[0], buf[1], buf[2], buf[3]) as u32
}

/// How the firmware reads a request.
pub open spec fn decode_spec(op: u8, buf: Seq<u8>) -> Result<Call, DecodeError> {
    if op == OP_CONSOLE_PRINT {
        Ok(Call::ConsolePrint { msg: buf })
    } else if op == OP_DELAY {
        if buf.len() == 4 {
            Ok(Call::Delay { ms: word_of(buf) })
        } else {
            Err(DecodeError::Malformed)
        }
    } else if op == OP_IS_PRESSED {
        if buf.len() >= 1 {
            Ok(Call::IsPressed { button: buf[0] })
        } else {
            Err(DecodeError::Malformed)
        }
    } else if op == OP_PLAY_TONE {
        if buf.len() == 4 {
            Ok(Call::PlayTone { freq: word_of(buf) })
        } else {
            Err(DecodeError::Malformed)
        }
    } else if op == OP_DISPLAY_PRINT {
        if buf.len() >= 2 {
            Ok(Call::DisplayPrint { x: buf[0], y: buf[1], text: buf.skip(2) })
        } else {
            Err(DecodeError::Malformed)
        }
    } else if op == OP_DISPLAY_DRAW_RECT {
        if buf.len() >= 5 {
            Ok(
                Call::DisplayDrawRect {
                    x: buf[0],
                    y: buf[1],
                    w: buf[2],
                    h: buf[3],
                    fill: buf[4] == 1,
                },
            )
        } else {
            Err(DecodeError::Malformed)
        }
    } else if op == OP_DISPLAY_DRAW_CIRCLE {
        if buf.len() >= 4 {
            Ok(Call::DisplayDrawCircle { x: buf[0], y: buf[1], d: buf[2], fill: buf[3] == 1 })
        } else {
            Err(DecodeError::Malformed)
        }
    } else if op == OP_DISPLAY_UPDATE {
        Ok(Call::DisplayUpdate)
    } else if op == OP_DISPLAY_CLEAR {
        Ok(Call::DisplayClear)
    } else {
        Err(DecodeError::UnknownOp)
    }
}

/// Every request that a game encodes reads back, in the firmware, as the same request.
pub proof fn lemma_decode_encode(c: Call)
    ensures
        decode_spec(op_of(c), payload_of(c)) == Ok::<Call, DecodeError>(c),
{
    match c {
        Call::Delay { ms } => {
            lemma_le_roundtrip(ms);
        },
        Call::PlayTone { freq } => {
            lemma_le_roundtrip(freq);
        },
        Call::DisplayPrint { x, y, text } => {
            assert((seq![x, y] + text).skip(2) =~= text);
        },
        _ => {},
    }
}

/// An encoded request: what goes to the firmware's syscall entry.
#[derive(Debug, PartialEq, Eq)]
pub struct Request {
    pub op: u8,
    pub payload: Vec<u8>,
}

impl Syscall {
    /// Whether a game can send this request: display text must fit the request buffer.
    pub fn is_sendable(&self) -> (b: bool)
        ensures
            b == sendable(self@),
    {
        match self {
            Syscall::DisplayPrint { text, .. } => text.len() <= DISPLAY_TEXT_MAX,
            _ => true,
        }
    }

    /// The operation number and payload of this request.
    pub fn encode(&self) -> (r: Request)
        requires
            sendable(self@),
        ensures
            r.op == op_of(self@),
            r.payload@ == payload_of(self@),
    {
        match self {
            Syscall::ConsolePrint { msg } => {
                let mut payload: Vec<u8> = Vec::new();
                let mut i: usize = 0;
                while i < msg.len()
                    invariant
                        i <= msg.len(),
                        payload@ == msg@.take(i as int),
                    decreases msg.len() - i,
                {
                    payload.push(msg[i]);
                    i = i + 1;
                    assert(payload@ =~= msg@.take(i as int));
                }
                assert(msg@.take(msg.len() as int) =~= msg@);
                Request { op: OP_CONSOLE_PRINT, payload }
            },
            Syscall::Delay { ms } => Request { op: OP_DELAY, payload: u32_to_le(*ms) },
            Syscall::IsPressed { button } => Request { op: OP_IS_PRESSED, payload: vec![*button] },
            Syscall::PlayTone { freq } => Request { op: OP_PLAY_TONE, payload: u32_to_le(*freq) },
            Syscall::DisplayPrint { x, y, text } => {
                let mut payload: Vec<u8> = vec![*x, *y];
                let mut i: usize = 0;
                while i < text.len()
                    invariant
                        i <= text.len(),
                        payload@ == seq![*x, *y] + text@.take(i as int),
                    decreases text.len() - i,
                {
                    payload.push(text[i]);
                    i = i + 1;
                    assert(payload@ =~= seq![*x, *y] + text@.take(i as int));
                }
                assert(text@.take(text.len() as int) =~= text@);
                Request { op: OP_DISPLAY_PRINT, payload }
            },
            Syscall::DisplayDrawRect { x, y, w, h, fill } => Request {
                op: OP_DISPLAY_DRAW_RECT,
                payload: vec![*x, *y, *w, *h, if *fill { 1u8 } else { 0u8 }],
            },
            Syscall::DisplayDrawCircle { x, y, d, fill } => Request {
                op: OP_DISPLAY_DRAW_CIRCLE,
                payload: vec![*x, *y, *d, if *fill { 1u8 } else { 0u8 }],
            },
            Syscall::DisplayUpdate => Request { op: OP_DISPLAY_UPDATE, payload: Vec::new() },
            Syscall::DisplayClear => Request { op: OP_DISPLAY_CLEAR, payload: Vec::new() },
        }
    }
}

/// The request that the firmware reads from an operation number and a payload.
pub fn decode(op: u8, buf: &[u8]) -> (r: Result<Syscall, DecodeError>)
    ensures
        match r {
            Ok(s) => decode_spec(op, buf@) == Ok::<Call, DecodeError>(s@),
            Err(e) => decode_spec(op, buf@) == Err::<Call, DecodeError>(e),
        },
{
    let n = buf.len();
    if op == OP_CONSOLE_PRINT {
        Ok(Syscall::ConsolePrint { msg: slice_to_vec(buf) })
    } else if op == OP_DELAY {
        if n == 4 {
            Ok(Syscall::Delay { ms: u32_from_le(buf[0], buf[1], buf[2], buf[3]) })
        } else {
            Err(DecodeError::Malformed)
        }
    } else if op == OP_IS_PRESSED {
        if n >= 1 {
            Ok(Syscall::IsPressed { button: buf[0] })
        } else {
            Err(DecodeError::Malformed)
        }
    } else if op == OP_PLAY_TONE {
        if n == 4 {
            Ok(Syscall::PlayTone { freq: u32_from_le(buf[0], buf[1], buf[2], buf[3]) })
        } else {
            Err(DecodeError::Malformed)
        }
    } else if op == OP_DISPLAY_PRINT {
        if n >= 2 {
            let mut text: Vec<u8> = Vec::new();
            let mut i: usize = 2;
            while i < n
                invariant
                    2 <= i <= n,
                    n == buf@.len(),
                    text@ == buf@.subrange(2, i as int),
                decreases n - i,
            {
                text.push(buf[i]);
                i = i + 1;
                assert(text@ =~= buf@.subrange(2, i as int));
            }
            assert(buf@.subrange(2, n as int) =~= buf@.skip(2));
            Ok(Syscall::DisplayPrint { x: buf[0], y: buf[1], text })
        } else {
            Err(DecodeError::Malformed)
        }
    } else if op == OP_DISPLAY_DRAW_RECT {
        if n >= 5 {
            Ok(
                Syscall::DisplayDrawRect {
                    x: buf[0],
                    y: buf[1],
                    w: buf[2],
                    h: buf[3],
                    fill: buf[4] == 1,
                },
            )
        } else {
            Err(DecodeError::Malformed)
        }
    } else if op == OP_DISPLAY_DRAW_CIRCLE {
        if n >= 4 {
            Ok(Syscall::DisplayDrawCircle { x: buf[0], y: buf[1], d: buf[2], fill: buf[3] == 1 })
        } else {
            Err(DecodeError::Malformed)
        }
    } else if op == OP_DISPLAY_UPDATE {
        Ok(Syscall::DisplayUpdate)
    } else if op == OP_DISPLAY_CLEAR {
        Ok(Syscall::DisplayClear)
    } else {
        Err(DecodeError::UnknownOp)
    }
}

/// `r` is the encoding of `c`.
pub open spec fn encodes(r: Request, c: Call) -> bool {
    r.op == op_of(c) && r.payload@ == payload_of(c)
}

/// The byte that a button character is sent as: its code point cut to the low eight bits.
pub open spec fn button_byte(btn: char) -> u8 {
    (btn as u32 % 256) as u8
}

/// The request that prints `msg` on the debug console.
pub fn console_print(msg: &str) -> (r: Request)
    ensures
        encodes(r, Call::ConsolePrint { msg: msg.spec_bytes() }),
{
    Syscall::ConsolePrint { msg: slice_to_vec(msg.as_bytes()) }.encode()
}

/// The request that busy-waits for `ms` milliseconds.
pub fn delay(ms: u32) -> (r: Request)
    ensures
        encodes(r, Call::Delay { ms }),
{
    Syscall::Delay { ms }.encode()
}

/// The request that asks whether the button named `btn` is held down.
pub fn is_pressed(btn: char) -> (r: Request)
    ensures
        encodes(r, Call::IsPressed { button: button_byte(btn) }),
{
    let code: u32 = btn as u32;
    let button: u8 = (code & 0xff) as u8;
    assert(button == (code % 256) as u8) by (bit_vector)
        requires
            button == (code & 0xff) as u8,
    ;
    Syscall::IsPressed { button }.encode()
}

/// Whether the firmware's answer to an `is_pressed` request means "held down".
pub fn reply_is_pressed(reply: u8) -> (pressed: bool)
    ensures
        pressed == (reply == 1),
{
    reply == 1
}

/// The request that starts the buzzer at `tone` hertz, or stops it when `tone` is zero.
pub fn play_tone(tone: u32) -> (r: Request)
    ensures
        encodes(r, Call::PlayTone { freq: tone }),
{
    Syscall::PlayTone { freq: tone }.encode()
}

/// The request that draws `msg` with its top left corner at (`x`, `y`).
pub fn display_print(x: u8, y: u8, msg: &str) -> (r: Request)
    requires
        msg.spec_bytes().len() <= DISPLAY_TEXT_MAX,
    ensures
        encodes(r, Call::DisplayPrint { x, y, text: msg.spec_bytes() }),
{
    Syscall::DisplayPrint { x, y, text: slice_to_vec(msg.as_bytes()) }.encode()
}

/// The request that draws a `w` by `h` rectangle at (`x`, `y`), filled or outlined.
pub fn display_draw_rect(x: u8, y: u8, w: u8, h: u8, fill: bool) -> (r: Request)
    ensures
        encodes(r, Call::DisplayDrawRect { x, y, w, h, fill }),
{
    Syscall::DisplayDrawRect { x, y, w, h, fill }.encode()
}

/// The request that draws a circle of diameter `d` at (`x`, `y`), filled or outlined.
pub fn display_draw_circle(x: u8, y: u8, d: u8, fill: bool) -> (r: Request)
    ensures
        encodes(r, Call::DisplayDrawCircle { x, y, d, fill }),
{
    Syscall::DisplayDrawCircle { x, y, d, fill }.encode()
}

/// The request that shows the frame buffer on the screen.
pub fn display_update() -> (r: Request)
    ensures
        encodes(r, Call::DisplayUpdate),
{
    Syscall::DisplayUpdate.encode()
}

/// The request that clears the frame buffer.
pub fn display_clear() -> (r: Request)
    ensures
        encodes(r, Call::DisplayClear),
{
    Syscall::DisplayClear.encode()
}

/// The operation numbers: console print 1, delay 2, button query 3, tone 4, text 5,
/// rectangle 6, circle 7, show 8, clear 9.
pub proof fn law_operation_numbers(c: Call)
    ensures
        c is ConsolePrint ==> op_of(c) == 1,
        c is Delay ==> op_of(c) == 2,
        c is IsPressed ==> op_of(c) == 3,
        c is PlayTone ==> op_of(c) == 4,
        c is DisplayPrint ==> op_of(c) == 5,
        c is DisplayDrawRect ==> op_of(c) == 6,
        c is DisplayDrawCircle ==> op_of(c) == 7,
        c is DisplayUpdate ==> op_of(c) == 8,
        c is DisplayClear ==> op_of(c) == 9,
{
}

/// The payloads: a message as its bytes; a delay or a frequency as four bytes, least
/// significant first; a button as its one byte; text as x, y, then the text; a
/// rectangle as x, y, w, h and 1 for filled (else 0); a circle as x, y, d and the
/// fill byte; show and clear as nothing.
pub proof fn law_payload_layout(c: Call)
    ensures
        c matches Call::ConsolePrint { msg } ==> payload_of(c) == msg,
        c matches Call::Delay { ms } ==> payload_of(c) =~= seq![
            (ms % 256) as u8,
            (ms / 256 % 256) as u8,
            (ms / 65536 % 256) as u8,
            (ms / 16777216) as u8,
        ],
        c matches Call::PlayTone { freq } ==> payload_of(c) =~= seq![
            (freq % 256) as u8,
            (freq / 256 % 256) as u8,
            (freq / 65536 % 256) as u8,
            (freq / 16777216) as u8,
        ],
        c matches Call::IsPressed { button } ==> payload_of(c) =~= seq![button],
        c matches Call::DisplayPrint { x, y, text } ==> payload_of(c).len() == text.len() + 2
            && payload_of(c)[0] == x && payload_of(c)[1] == y && payload_of(c).skip(2) =~= text,
        c matches Call::DisplayDrawRect { x, y, w, h, fill } ==> payload_of(c) =~= seq![
            x,
            y,
            w,
            h,
            if fill {
                1u8
            } else {
                0u8
            },
        ],
        c matches Call::DisplayDrawCircle { x, y, d, fill } ==> payload_of(c) =~= seq![
            x,
            y,
            d,
            if fill {
                1u8
            } else {
                0u8
            },
        ],
        (c is DisplayUpdate || c is DisplayClear) ==> payload_of(c).len() == 0,
{
    match c {
        Call::DisplayPrint { x, y, text } => {
            assert((seq![x, y] + text).skip(2) =~= text);
        },
        _ => {},
    }
}

/// The firmware refuses an operation number outside 1 to 9 as unknown, and a
/// payload as malformed exactly when it is too short for its operation (a delay or
/// a tone must be exactly four bytes); it accepts every other request.
pub proof fn law_decode_errors(op: u8, buf: Seq<u8>)
    ensures
        (decode_spec(op, buf) == Err::<Call, DecodeError>(DecodeError::UnknownOp)) <==> (op == 0
            || op > 9),
        (decode_spec(op, buf) == Err::<Call, DecodeError>(DecodeError::Malformed)) <==> {
            ||| (op == 2 || op == 4) && buf.len() != 4
            ||| op == 3 && buf.len() < 1
            ||| op == 5 && buf.len() < 2
            ||| op == 6 && buf.len() < 5
            ||| op == 7 && buf.len() < 4
        },
{
}

/// The firmware reads a delay or a frequency least significant byte first, a
/// rectangle's or circle's fill byte as filled only when it is 1, a button query's
/// first byte as the button, and text after the two position bytes.
pub proof fn law_decode_fields(op: u8, buf: Seq<u8>)
    ensures
        op == 2 && buf.len() == 4 ==> decode_spec(op, buf) == Ok::<Call, DecodeError>(
            Call::Delay {
                ms: (buf[0] + 256 * buf[1] + 65536 * buf[2] + 16777216 * buf[3]) as u32,
            },
        ),
        op == 4 && buf.len() == 4 ==> decode_spec(op, buf) == Ok::<Call, DecodeError>(
            Call::PlayTone {
                freq: (buf[0] + 256 * buf[1] + 65536 * buf[2] + 16777216 * buf[3]) as u32,
            },
        ),
        op == 3 && buf.len() >= 1 ==> decode_spec(op, buf) == Ok::<Call, DecodeError>(
            Call::IsPressed { button: buf[0] },
        ),
        op == 5 && buf.len() >= 2 ==> decode_spec(op, buf) == Ok::<Call, DecodeError>(
            Call::DisplayPrint { x: buf[0], y: buf[1], text: buf.subrange(2, buf.len() as int) },
        ),
        op == 6 && buf.len() >= 5 ==> decode_spec(op, buf) == Ok::<Call, DecodeError>(
            Call::DisplayDrawRect { x: buf[0], y: buf[1], w: buf[2], h: buf[3], fill: buf[4] == 1 },
        ),
        op == 7 && buf.len() >= 4 ==> decode_spec(op, buf) == Ok::<Call, DecodeError>(
            Call::DisplayDrawCircle { x: buf[0], y: buf[1], d: buf[2], fill: buf[3] == 1 },
        ),
{
    if op == 5 && buf.len() >= 2 {
        assert(buf.skip(2) =~= buf.subrange(2, buf.len() as int));
    }
}

/// A button is sent as its character's code cut to eight bits: ASCII letters as
/// themselves, `A` as 65 and `R` as 82.
pub proof fn law_button_byte(c: char)
    ensures
        (c as u32) < 256 ==> button_byte(c) == c as u32,
        button_byte(c) == (c as u32) % 256,
        button_byte('A') == 65 && button_byte('B') == 66 && button_byte('U') == 85,
        button_byte('D') == 68 && button_byte('L') == 76 && button_byte('R') == 82,
{
}

} // verus!
