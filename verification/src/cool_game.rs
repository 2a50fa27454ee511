//! The demo game: hold A to roll a circle to the right; passing column 100 wins,
//! with one beep.
use vstd::prelude::*;
use crate::action::{
    clear, effects, pause, pause_action, push_action, show, text, text_action, tone, tone_action,
    Action, Buttons, Effect,
};
use crate::syscall::{Call, Syscall};
use vstd::string::StringSliceAdditionalSpecFns;

verus! {

/// Column the circle starts at.
pub const START_X: u8 = 10;
/// Row of the circle.
pub const CIRCLE_Y: u8 = 20;
/// Diameter of the circle.
pub const DIAMETER: u8 = 5;
/// Reaching this column wins.
pub const WIN_X: u8 = 100;
/// Buzzer frequency of the win beep, hertz.
pub const TONE: u32 = 440;
/// Milliseconds between frames.
pub const FRAME_MS: u32 = 100;

/// The demo's state: the circle's column and whether it has won.
#[derive(Debug, Clone, Copy, PartialEq, Eq, Structural)]
pub struct CoolGame {
    pub x: u8,
    pub won: bool,
}

impl CoolGame {
    /// A new demo: the circle at its start, not won.
    pub fn new() -> (g: CoolGame)
        ensures
            g == (CoolGame { x: START_X, won: false }),
    {
        CoolGame { x: START_X, won: false }
    }
}

/// The demo after a frame: A moves the circle one column right; reaching `WIN_X` wins.
pub open spec fn cool_next(g: CoolGame, bt: Buttons) -> CoolGame {
    let x = if bt.a {
        (g.x + 1) as u8
    } else {
        g.x
    };
    CoolGame { x, won: g.won || x >= WIN_X }
}

/// The effects of a frame: the beep on the frame that wins, then the circle and
/// the caption drawn and shown, then the frame pause.
pub open spec fn cool_effects(g: CoolGame, bt: Buttons) -> Seq<Effect> {
    let n = cool_next(g, bt);
    (if !g.won && n.won {
        seq![tone(TONE)]
    } else {
        Seq::empty()
    }) + seq![
        clear(),
        Effect::Call(Call::DisplayDrawCircle { x: n.x, y: CIRCLE_Y, d: DIAMETER, fill: true }),
        text(
            10,
            10,
            if n.won {
                "You Won :D".spec_bytes()
            } else {
                "Cool Game".spec_bytes()
            },
        ),
        show(),
        pause(FRAME_MS),
    ]
}

/// One frame of the demo's loop.
pub fn game(g: &mut CoolGame, buttons: Buttons) -> (acts: Vec<Action>)
    requires
        !(buttons.a && old(g).x == 255),
    ensures
        *final(g) == cool_next(*old(g), buttons),
        effects(acts@) == cool_effects(*old(g), buttons),
{
    let mut acts: Vec<Action> = Vec::new();
    if buttons.a {
        g.x += 1;
    }
    if g.x >= WIN_X && !g.won {
        g.won = true;
        push_action(&mut acts, tone_action(TONE));
    }
    push_action(&mut acts, Action::Call(Syscall::DisplayClear));
    push_action(
        &mut acts,
        Action::Call(Syscall::DisplayDrawCircle { x: g.x, y: CIRCLE_Y, d: DIAMETER, fill: true }),
    );
    if !g.won {
        push_action(&mut acts, text_action(10, 10, "Cool Game"));
    } else {
        push_action(&mut acts, text_action(10, 10, "You Won :D"));
    }
    push_action(&mut acts, Action::Call(Syscall::DisplayUpdate));
    push_action(&mut acts, pause_action(FRAME_MS));
    assert(effects(acts@) =~= cool_effects(*old(g), buttons));
    acts
}

/// Once won, the demo stays won and never beeps again.
pub proof fn lemma_win_is_final(g: CoolGame, bt: Buttons)
    requires
        g.won,
    ensures
        cool_next(g, bt).won,
        !cool_effects(g, bt).contains(tone(TONE)),
{
    let e = cool_effects(g, bt);
    assert(e.len() == 5);
    assert(forall|i: int| 0 <= i < 5 ==> e[i] != tone(TONE));
}

/// A held to the right moves the circle exactly one column right, won or not;
/// without A it stays. The demo is won from the first frame on which the circle is
/// at column 100 or further, and stays won.
pub proof fn law_demo_step(g: CoolGame, bt: Buttons)
    requires
        !(bt.a && g.x == 255),
    ensures
        bt.a ==> cool_next(g, bt).x == g.x + 1,
        !bt.a ==> cool_next(g, bt).x == g.x,
        cool_next(g, bt).won <==> (g.won || cool_next(g, bt).x >= 100),
        g.won ==> cool_next(g, bt).won,
{
}

/// A frame beeps at 440 Hz first exactly when it is the winning one, then clears,
/// draws the filled circle of diameter 5 at the new column on row 20, writes
/// "You Won :D" once won and "Cool Game" before at (10, 10), shows, and waits 100 ms.
pub proof fn law_demo_frame(g: CoolGame, bt: Buttons)
    requires
        !(bt.a && g.x == 255),
    ensures
        ({
            let e = cool_effects(g, bt);
            let n = cool_next(g, bt);
            let k: int = if !g.won && n.won {
                1
            } else {
                0
            };
            &&& e.len() == 5 + k
            &&& k == 1 ==> e[0] == Effect::Call(Call::PlayTone { freq: 440 })
            &&& e[k] == Effect::Call(Call::DisplayClear)
            &&& e[k + 1] == Effect::Call(
                Call::DisplayDrawCircle { x: n.x, y: 20, d: 5, fill: true },
            )
            &&& e[k + 2] == Effect::Call(
                Call::DisplayPrint {
                    x: 10,
                    y: 10,
                    text: if n.won {
                        "You Won :D".spec_bytes()
                    } else {
                        "Cool Game".spec_bytes()
                    },
                },
            )
            &&& e[k + 3] == Effect::Call(Call::DisplayUpdate)
            &&& e[k + 4] == Effect::Call(Call::Delay { ms: 100 })
        }),
{
}

} // verus!
