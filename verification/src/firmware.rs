//! The firmware's decisions on the requests that games send it.
use vstd::prelude::*;
use crate::syscall::{
    button_byte, decode_spec, payload_of, Call, DecodeError, Syscall, OP_IS_PRESSED, REPLY_UNKNOWN_OP,
};

verus! {

/// The console's buttons.
#[derive(Debug, Clone, Copy, PartialEq, Eq, Structural)]
pub enum Button {
    A,
    B,
    Up,
    Down,
    Left,
    Right,
}

/// The button that a request byte names: the ASCII letters `A`, `B`, `U`, `D`, `L` and `R`.
pub open spec fn button_spec(b: u8) -> Option<Button> {
    if b == 65 {
        Some(Button::A)
    } else if b == 66 {
        Some(Button::B)
    } else if b == 85 {
        Some(Button::Up)
    } else if b == 68 {
        Some(Button::Down)
    } else if b == 76 {
        Some(Button::Left)
    } else if b == 82 {
        Some(Button::Right)
    } else {
        None
    }
}

/// The button that a request byte names, if any.
pub fn button_from_byte(b: u8) -> (r: Option<Button>)
    ensures
        r == button_spec(b),
{
    if b == 65 {
        Some(Button::A)
    } else if b == 66 {
        Some(Button::B)
    } else if b == 85 {
        Some(Button::Up)
    } else if b == 68 {
        Some(Button::Down)
    } else if b == 76 {
        Some(Button::Left)
    } else if b == 82 {
        Some(Button::Right)
    } else {
        None
    }
}

/// The answer to a request: `REPLY_UNKNOWN_OP` for an unknown operation, for a
/// button query 1 when a known button's pin reads low (held down) and 0 otherwise,
/// and 0 for everything else.
pub open spec fn reply_spec(request: Result<Call, DecodeError>, pin_low: bool) -> u8 {
    match request {
        Err(_) => REPLY_UNKNOWN_OP,
        Ok(Call::IsPressed { button }) => if button_spec(button) is Some && pin_low {
            1
        } else {
            0
        },
        Ok(_) => 0,
    }
}

/// The byte that the firmware answers to a decoded request. `pin_low` is the level
/// read from the queried button's pin (ignored for other requests).
pub fn reply_code(request: &Result<Syscall, DecodeError>, pin_low: bool) -> (code: u8)
    requires
        !(request matches Err(DecodeError::Malformed)),
    ensures
        code == reply_spec(
            match request {
                Ok(s) => Ok(s@),
                Err(e) => Err(*e),
            },
            pin_low,
        ),
{
    match request {
        Err(_) => REPLY_UNKNOWN_OP,
        Ok(Syscall::IsPressed { button }) => {
            if button_from_byte(*button).is_some() && pin_low {
                1
            } else {
                0
            }
        },
        Ok(_) => 0,
    }
}

/// What the buzzer's PWM channel must do.
#[derive(Debug, Clone, Copy, PartialEq, Eq, Structural)]
pub enum ToneCommand {
    /// Set the frequency (hertz) and enable the channel.
    Start(u32),
    /// Disable the channel.
    Stop,
    /// Leave the channel as it is.
    Keep,
}

/// The buzzer's response to a tone request: a non-zero frequency starts it at that
/// frequency; zero stops it if it is sounding and otherwise changes nothing.
pub fn tone_command(freq: u32, enabled: bool) -> (cmd: ToneCommand)
    ensures
        cmd == (if freq != 0 {
            ToneCommand::Start(freq)
        } else if enabled {
            ToneCommand::Stop
        } else {
            ToneCommand::Keep
        }),
{
    if freq != 0 {
        ToneCommand::Start(freq)
    } else if enabled {
        ToneCommand::Stop
    } else {
        ToneCommand::Keep
    }
}

/// A game's button query reaches the firmware as a query for the same byte, and the
/// answer is 1 exactly when that byte names a button whose pin reads low.
pub proof fn lemma_button_query(btn: char, pin_low: bool)
    ensures
        reply_spec(
            decode_spec(OP_IS_PRESSED, payload_of(Call::IsPressed { button: button_byte(btn) })),
            pin_low,
        ) == (if button_spec(button_byte(btn)) is Some && pin_low {
            1u8
        } else {
            0u8
        }),
{
}

/// The buttons are the ASCII letters A, B, U, D, L and R, each naming a different
/// button; no other byte names one.
pub proof fn law_button_letters(b: u8)
    ensures
        button_spec(b) is Some <==> (b == 65 || b == 66 || b == 85 || b == 68 || b == 76 || b
            == 82),
        button_spec(65) == Some(Button::A),
        button_spec(66) == Some(Button::B),
        button_spec(85) == Some(Button::Up),
        button_spec(68) == Some(Button::Down),
        button_spec(76) == Some(Button::Left),
        button_spec(82) == Some(Button::Right),
{
}

/// The firmware answers 1 to an unknown operation; to a button query, 1 when it
/// names a button whose pin reads low and 0 otherwise; and 0 to every other request.
pub proof fn law_replies(c: Call, pin_low: bool)
    ensures
        reply_spec(Err(DecodeError::UnknownOp), pin_low) == 1,
        c matches Call::IsPressed { button } ==> (reply_spec(Ok(c), pin_low) == 1 <==> (
        button_spec(button) is Some && pin_low)) && reply_spec(Ok(c), pin_low) <= 1,
        !(c is IsPressed) ==> reply_spec(Ok(c), pin_low) == 0,
{
}

} // verus!
