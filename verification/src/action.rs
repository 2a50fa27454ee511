//! What a game asks its surroundings to do, in order: syscalls, waiting for
//! buttons, and loading or starting a game image.
use vstd::prelude::*;
use vstd::slice::slice_to_vec;
use vstd::string::StringSliceAdditionalSpecFns;
use crate::syscall::{Call, Syscall};

verus! {

/// Which buttons are held down (as read from the firmware), or which buttons a
/// wait is for.
#[derive(Debug, Clone, Copy, PartialEq, Eq, Structural)]
pub struct Buttons {
    pub a: bool,
    pub b: bool,
    pub up: bool,
    pub down: bool,
    pub left: bool,
    pub right: bool,
}

/// One effect that the caller performs.
#[derive(Debug, PartialEq, Eq)]
pub enum Action {
    /// Send this request to the firmware.
    Call(Syscall),
    /// Poll the buttons until one of those marked is held down.
    WaitForAny(Buttons),
    /// Load the game stored at this directory position into game memory.
    LoadGame(usize),
    /// Jump into the loaded game.
    StartGame,
}

/// An action, with its request as a `Call`.
#[verifier::ext_equal]
pub enum Effect {
    Call(Call),
    WaitForAny(Buttons),
    LoadGame(usize),
    StartGame,
}

impl View for Action {
    type V = Effect;

    open spec fn view(&self) -> Effect {
        match self {
            Action::Call(s) => Effect::Call(s@),
            Action::WaitForAny(b) => Effect::WaitForAny(*b),
            Action::LoadGame(i) => Effect::LoadGame(*i),
            Action::StartGame => Effect::StartGame,
        }
    }
}

/// The effects of a list of actions.
pub open spec fn effects(v: Seq<Action>) -> Seq<Effect> {
    v.map_values(|a: Action| a@)
}

/// Sound the buzzer at `freq` hertz (zero: silence it).
pub open spec fn tone(freq: u32) -> Effect {
    Effect::Call(Call::PlayTone { freq })
}

/// Busy-wait `ms` milliseconds.
pub open spec fn pause(ms: u32) -> Effect {
    Effect::Call(Call::Delay { ms })
}

/// Clear the frame buffer.
pub open spec fn clear() -> Effect {
    Effect::Call(Call::DisplayClear)
}

/// Show the frame buffer.
pub open spec fn show() -> Effect {
    Effect::Call(Call::DisplayUpdate)
}

/// Draw a filled rectangle.
pub open spec fn filled_rect(x: u8, y: u8, w: u8, h: u8) -> Effect {
    Effect::Call(Call::DisplayDrawRect { x, y, w, h, fill: true })
}

/// Draw text.
pub open spec fn text(x: u8, y: u8, t: Seq<u8>) -> Effect {
    Effect::Call(Call::DisplayPrint { x, y, text: t })
}

/// Appends one action.
pub(crate) fn push_action(v: &mut Vec<Action>, a: Action)
    ensures
        effects(final(v)@) == effects(old(v)@).push(a@),
{
    v.push(a);
    assert(effects(v@) =~= effects(old(v)@).push(a@));
}

/// Appends all actions of `w`.
pub(crate) fn append_actions(v: &mut Vec<Action>, w: Vec<Action>)
    ensures
        effects(final(v)@) == effects(old(v)@) + effects(w@),
{
    let mut w = w;
    let ghost w0 = w@;
    v.append(&mut w);
    assert(effects(v@) =~= effects(old(v)@) + effects(w0));
}

/// The bytes of a string, to be drawn.
pub(crate) fn text_bytes(s: &str) -> (r: Vec<u8>)
    ensures
        r@ == s.spec_bytes(),
{
    slice_to_vec(s.as_bytes())
}

/// The action that sounds the buzzer at `freq` hertz.
pub(crate) fn tone_action(freq: u32) -> (a: Action)
    ensures
        a@ == tone(freq),
{
    Action::Call(Syscall::PlayTone { freq })
}

/// The action that waits `ms` milliseconds.
pub(crate) fn pause_action(ms: u32) -> (a: Action)
    ensures
        a@ == pause(ms),
{
    Action::Call(Syscall::Delay { ms })
}

/// The action that draws `t` at (`x`, `y`).
pub(crate) fn text_action(x: u8, y: u8, t: &str) -> (a: Action)
    ensures
        a@ == text(x, y, t.spec_bytes()),
{
    Action::Call(Syscall::DisplayPrint { x, y, text: text_bytes(t) })
}

} // verus!
