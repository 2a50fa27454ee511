//! Pong for the console: player 1 on the left against a paddle that follows the
//! ball. Each function decides one part of a frame and returns the effects that
//! the original performs at that point, in the same order.
use vstd::prelude::*;
use crate::action::{
    append_actions, clear, effects, filled_rect, pause, pause_action, push_action, show, text,
    text_action, tone, tone_action, Action, Buttons, Effect,
};
use crate::syscall::Syscall;
use vstd::string::StringSliceAdditionalSpecFns;

verus! {

/// Milliseconds between frames.
pub const FRAME_MS: u32 = 15;
/// Points that win the game.
pub const MAX_SCORE: u8 = 10;
/// Buzzer frequency, hertz.
pub const TONE: u32 = 440;

pub const SCREEN_WIDTH: u8 = 128;
pub const SCREEN_HEIGHT: u8 = 64;
pub const PADDLE_WIDTH: u8 = 2;
pub const PADDLE_HEIGHT: u8 = 10;
/// Player 1's paddle stops this close to the top and bottom edges.
pub const PADDLE_BOUND: i8 = 2;

pub const P1_START_X: i8 = 5;
pub const P1_START_Y: i8 = 20;
pub const P1_SPEED: i8 = 2;
pub const P2_START_X: i8 = 121;
pub const P2_START_Y: i8 = 20;
pub const P2_SPEED: i8 = 1;

/// One pixel right of player 1's paddle.
pub const BALL_START_X: i8 = 8;
/// Level with the middle of player 1's paddle.
pub const BALL_START_Y: i8 = 24;
pub const BALL_SIZE: u8 = 2;
pub const BALL_SPEED: i8 = 2;

/// Column of player 1's score: `(SCREEN_WIDTH - 1) / 2 - 13`.
pub const SCORE_1_X: i8 = 50;
/// Column of player 2's score: `(SCREEN_WIDTH - 1) / 2 + 10`.
pub const SCORE_2_X: i8 = 73;
/// Row of both scores.
pub const SCORE_Y: i8 = 10;
/// Lowest row player 1's paddle moves down from: `SCREEN_HEIGHT - PADDLE_BOUND - PADDLE_HEIGHT`.
pub const P1_LOW_LIMIT: i8 = 52;
/// Ball positions at or past this column score for player 1: `SCREEN_WIDTH - BALL_SIZE`.
pub const RIGHT_GOAL: i8 = 126;
/// Ball rows at or below this bounce: `SCREEN_HEIGHT`.
pub const BOTTOM_EDGE: i8 = 64;

#[derive(Debug, Clone, Copy, PartialEq, Eq, Structural)]
pub struct Paddle {
    pub x: i8,
    pub y: i8,
    pub w: u8,
    pub h: u8,
    pub score: u8,
}

#[derive(Debug, Clone, Copy, PartialEq, Eq, Structural)]
pub struct Ball {
    pub x: i8,
    pub y: i8,
    pub s: u8,
    pub xdir: i8,
    pub ydir: i8,
    pub speed: i8,
}

#[derive(Debug, Clone, Copy, PartialEq, Eq, Structural)]
pub enum State {
    Title,
    Launch,
    Play,
    Win,
    Lose,
}

/// `v` fits an `i8`.
pub open spec fn in_i8(v: int) -> bool {
    -128 <= v <= 127
}

// ---------------------------------------------------------------------------
// Start positions

/// A paddle put back at (`x`, `y`).
pub open spec fn placed(p: Paddle, x: i8, y: i8) -> Paddle {
    Paddle { x, y, ..p }
}

/// The ball put back at its start, heading right and down.
pub open spec fn ball_at_start(b: Ball) -> Ball {
    Ball { x: BALL_START_X, y: BALL_START_Y, xdir: 1, ydir: 1, ..b }
}

/// Puts both paddles and the ball back at their start positions, the ball heading
/// right and down. Scores, sizes and speed stay.
pub fn reset(p1: &mut Paddle, p2: &mut Paddle, ball: &mut Ball)
    ensures
        *final(p1) == placed(*old(p1), P1_START_X, P1_START_Y),
        *final(p2) == placed(*old(p2), P2_START_X, P2_START_Y),
        *final(ball) == ball_at_start(*old(ball)),
{
    p1.x = P1_START_X;
    p1.y = P1_START_Y;
    p2.x = P2_START_X;
    p2.y = P2_START_Y;
    ball.x = BALL_START_X;
    ball.y = BALL_START_Y;
    ball.xdir = 1;
    ball.ydir = 1;
}

// ---------------------------------------------------------------------------
// Sounds

/// A short beep.
pub open spec fn hit_tone() -> Seq<Effect> {
    seq![tone(TONE), pause(10), tone(0)]
}

/// Three half-second beeps with half-second pauses.
pub open spec fn gameover_tone() -> Seq<Effect> {
    let beep = seq![tone(TONE), pause(500), tone(0), pause(500)];
    beep + beep + beep
}

/// The beep of a ball hitting a paddle.
pub fn play_hit_tone() -> (acts: Vec<Action>)
    ensures
        effects(acts@) == hit_tone(),
{
    let mut acts: Vec<Action> = Vec::new();
    push_action(&mut acts, tone_action(TONE));
    push_action(&mut acts, pause_action(10));
    push_action(&mut acts, tone_action(0));
    assert(effects(acts@) =~= hit_tone());
    acts
}

/// The tune at the end of a game.
pub fn play_gameover_tone() -> (acts: Vec<Action>)
    ensures
        effects(acts@) == gameover_tone(),
{
    let ghost beep = seq![tone(TONE), pause(500), tone(0), pause(500)];
    let mut acts: Vec<Action> = Vec::new();
    let mut i: usize = 0;
    while i < 3
        invariant
            i <= 3,
            beep == seq![tone(TONE), pause(500), tone(0), pause(500)],
            effects(acts@) == if i == 0 {
                Seq::<Effect>::empty()
            } else if i == 1 {
                beep
            } else if i == 2 {
                beep + beep
            } else {
                beep + beep + beep
            },
        decreases 3 - i,
    {
        let ghost before = effects(acts@);
        push_action(&mut acts, tone_action(TONE));
        push_action(&mut acts, pause_action(500));
        push_action(&mut acts, tone_action(0));
        push_action(&mut acts, pause_action(500));
        assert(effects(acts@) =~= before + beep);
        i = i + 1;
    }
    acts
}

// ---------------------------------------------------------------------------
// Drawing

/// The digit drawn for a score: its last digit for 1 to 9, else `0`.
pub open spec fn score_digit(score: u8) -> u8 {
    if 1 <= score <= 9 {
        (48 + score) as u8
    } else {
        48
    }
}

/// Drawing a score at (`x`, `y`); the coordinates are sent as bytes.
pub open spec fn score_text(score: u8, x: i8, y: i8) -> Effect {
    text(x as u8, y as u8, seq![score_digit(score)])
}

/// Draws a score as one digit.
pub fn print_score(score: u8, x: i8, y: i8) -> (a: Action)
    ensures
        a@ == score_text(score, x, y),
{
    let digit: u8 = if 1 <= score && score <= 9 {
        48 + score
    } else {
        48
    };
    let t: Vec<u8> = vec![digit];
    assert(t@ =~= seq![score_digit(score)]);
    Action::Call(Syscall::DisplayPrint { x: x as u8, y: y as u8, text: t })
}

/// The dashed line down the middle: six 2 by 5 dashes, ten pixels apart.
pub open spec fn net() -> Seq<Effect> {
    Seq::new(6, |i: int| filled_rect(63, (5 + 10 * i) as u8, 2, 5))
}

/// Draws the net.
pub fn draw_net() -> (acts: Vec<Action>)
    ensures
        effects(acts@) == net(),
{
    let w: u8 = 2;
    let h: u8 = 5;
    let x: u8 = SCREEN_WIDTH / 2 - w / 2;
    let y: u8 = 5;
    let mut acts: Vec<Action> = Vec::new();
    let mut i: u8 = 0;
    while i < 6
        invariant
            i <= 6,
            w == 2 && h == 5 && x == 63 && y == 5,
            effects(acts@) =~= net().take(i as int),
        decreases 6 - i,
    {
        push_action(
            &mut acts,
            Action::Call(Syscall::DisplayDrawRect { x, y: y + i * 10, w, h, fill: true }),
        );
        i = i + 1;
    }
    assert(net().take(6) =~= net());
    acts
}

/// The screen during launch and play: scores, net, both paddles and the ball.
pub open spec fn play_screen(p1: Paddle, p2: Paddle, ball: Ball) -> Seq<Effect> {
    seq![clear(), score_text(p1.score, SCORE_1_X, SCORE_Y), score_text(p2.score, SCORE_2_X, SCORE_Y)]
        + net() + seq![
        filled_rect(p1.x as u8, p1.y as u8, p1.w, p1.h),
        filled_rect(p2.x as u8, p2.y as u8, p2.w, p2.h),
        filled_rect(ball.x as u8, ball.y as u8, ball.s, ball.s),
        show(),
    ]
}

/// Draws the play screen and shows it.
pub fn print_play_display(p1: &Paddle, p2: &Paddle, ball: &Ball) -> (acts: Vec<Action>)
    ensures
        effects(acts@) == play_screen(*p1, *p2, *ball),
{
    let mut acts: Vec<Action> = Vec::new();
    push_action(&mut acts, Action::Call(Syscall::DisplayClear));
    push_action(&mut acts, print_score(p1.score, SCORE_1_X, SCORE_Y));
    push_action(&mut acts, print_score(p2.score, SCORE_2_X, SCORE_Y));
    append_actions(&mut acts, draw_net());
    push_action(
        &mut acts,
        Action::Call(
            Syscall::DisplayDrawRect { x: p1.x as u8, y: p1.y as u8, w: p1.w, h: p1.h, fill: true },
        ),
    );
    push_action(
        &mut acts,
        Action::Call(
            Syscall::DisplayDrawRect { x: p2.x as u8, y: p2.y as u8, w: p2.w, h: p2.h, fill: true },
        ),
    );
    push_action(
        &mut acts,
        Action::Call(
            Syscall::DisplayDrawRect {
                x: ball.x as u8,
                y: ball.y as u8,
                w: ball.s,
                h: ball.s,
                fill: true,
            },
        ),
    );
    push_action(&mut acts, Action::Call(Syscall::DisplayUpdate));
    assert(effects(acts@) =~= play_screen(*p1, *p2, *ball));
    acts
}

// ---------------------------------------------------------------------------
// Physics

/// The ball moves by its speed along both directions without leaving the `i8` range.
pub open spec fn ball_move_ok(b: Ball) -> bool {
    &&& in_i8(b.xdir * b.speed)
    &&& in_i8(b.x + b.xdir * b.speed)
    &&& in_i8(b.ydir * b.speed)
    &&& in_i8(b.y + b.ydir * b.speed)
}

/// The ball one step further.
pub open spec fn moved_ball(b: Ball) -> Ball {
    Ball { x: (b.x + b.xdir * b.speed) as i8, y: (b.y + b.ydir * b.speed) as i8, ..b }
}

/// Moves the ball one step.
pub fn handle_ball_move(ball: &mut Ball)
    requires
        ball_move_ok(*old(ball)),
    ensures
        *final(ball) == moved_ball(*old(ball)),
{
    ball.x += ball.xdir * ball.speed;
    ball.y += ball.ydir * ball.speed;
}

/// The computer's paddle moves without leaving the `i8` range.
pub open spec fn p2_move_ok(p2: Paddle, ball: Ball) -> bool {
    &&& p2.y + 5 <= 127
    &&& ball.y < p2.y + 5 ==> p2.y > -128
}

/// The computer's paddle one step closer to the ball: down when the ball is level
/// with or below its middle, up otherwise.
pub open spec fn moved_p2(p2: Paddle, ball: Ball) -> Paddle {
    Paddle {
        y: if ball.y >= p2.y + 5 {
            (p2.y + P2_SPEED) as i8
        } else {
            (p2.y - P2_SPEED) as i8
        },
        ..p2
    }
}

/// Moves the computer's paddle one step towards the ball.
pub fn handle_p2_move(p2: &mut Paddle, ball: &Ball)
    requires
        p2_move_ok(*old(p2), *ball),
    ensures
        *final(p2) == moved_p2(*old(p2), *ball),
{
    if ball.y >= p2.y + PADDLE_HEIGHT as i8 / 2 {
        p2.y += P2_SPEED;
    } else {
        p2.y -= P2_SPEED;
    }
}

/// The ball is at or beyond the top or bottom edge.
pub open spec fn at_y_edge(b: Ball) -> bool {
    b.y >= BOTTOM_EDGE || b.y <= 0
}

/// Reversing the vertical direction does not overflow.
pub open spec fn y_bounce_ok(b: Ball) -> bool {
    at_y_edge(b) ==> b.ydir != -128
}

/// The ball after the top and bottom edges reflect it.
pub open spec fn y_bounced(b: Ball) -> Ball {
    if at_y_edge(b) {
        Ball { ydir: (-b.ydir) as i8, ..b }
    } else {
        b
    }
}

/// Reverses the ball's vertical direction at the top and bottom edges.
pub fn handle_y_collision(ball: &mut Ball)
    requires
        y_bounce_ok(*old(ball)),
    ensures
        *final(ball) == y_bounced(*old(ball)),
{
    assert(SCREEN_HEIGHT as i8 == BOTTOM_EDGE);
    if ball.y >= SCREEN_HEIGHT as i8 || ball.y <= 0 {
        assert(ball.ydir * -1 == -ball.ydir) by (nonlinear_arith);
        ball.ydir *= -1;
    }
}

/// The ball touches the computer's paddle (at the right).
pub open spec fn hits_p2(p2: Paddle, b: Ball) -> bool {
    &&& b.x >= p2.x - 2
    &&& b.x <= p2.x + 4
    &&& b.y >= p2.y - 2
    &&& b.y <= p2.y + 10
}

/// The ball touches player 1's paddle (at the left).
pub open spec fn hits_p1(p1: Paddle, b: Ball) -> bool {
    &&& b.x <= p1.x + 2
    &&& b.x >= p1.x - 4
    &&& b.y >= p1.y - 2
    &&& b.y <= p1.y + 10
}

/// The paddle tests stay in the `i8` range, as far as they are evaluated.
pub open spec fn collision_ok(p1: Paddle, p2: Paddle, b: Ball) -> bool {
    &&& p2.x - 2 >= -128
    &&& b.x >= p2.x - 2 ==> p2.x + 4 <= 127
    &&& b.x >= p2.x - 2 && b.x <= p2.x + 4 ==> p2.y - 2 >= -128
    &&& b.x >= p2.x - 2 && b.x <= p2.x + 4 && b.y >= p2.y - 2 ==> p2.y + 10 <= 127
    &&& p1.x + 2 <= 127
    &&& b.x <= p1.x + 2 ==> p1.x - 4 >= -128
    &&& b.x <= p1.x + 2 && b.x >= p1.x - 4 ==> p1.y - 2 >= -128
    &&& b.x <= p1.x + 2 && b.x >= p1.x - 4 && b.y >= p1.y - 2 ==> p1.y + 10 <= 127
}

/// The ball after the paddles: heading left off the computer's paddle, right off player 1's.
pub open spec fn paddles_bounced(p1: Paddle, p2: Paddle, b: Ball) -> Ball {
    let b1 = if hits_p2(p2, b) {
        Ball { xdir: -1i8, ..b }
    } else {
        b
    };
    if hits_p1(p1, b) {
        Ball { xdir: 1i8, ..b1 }
    } else {
        b1
    }
}

/// A beep for each paddle the ball touches, the computer's first.
pub open spec fn paddle_sounds(p1: Paddle, p2: Paddle, b: Ball) -> Seq<Effect> {
    (if hits_p2(p2, b) {
        hit_tone()
    } else {
        Seq::empty()
    }) + (if hits_p1(p1, b) {
        hit_tone()
    } else {
        Seq::empty()
    })
}

/// Sends the ball back from whichever paddle it touches, with a beep.
pub fn handle_paddle_collision(p1: &Paddle, p2: &Paddle, ball: &mut Ball) -> (acts: Vec<Action>)
    requires
        collision_ok(*p1, *p2, *old(ball)),
    ensures
        *final(ball) == paddles_bounced(*p1, *p2, *old(ball)),
        effects(acts@) == paddle_sounds(*p1, *p2, *old(ball)),
{
    let mut acts: Vec<Action> = Vec::new();
    if ball.x >= p2.x - BALL_SIZE as i8 && ball.x <= p2.x + PADDLE_WIDTH as i8 + BALL_SIZE as i8
        && ball.y >= p2.y - BALL_SIZE as i8 && ball.y <= p2.y + PADDLE_HEIGHT as i8 {
        ball.xdir = -1;
        append_actions(&mut acts, play_hit_tone());
    }
    if ball.x <= p1.x + BALL_SIZE as i8 && ball.x >= p1.x - PADDLE_WIDTH as i8 - BALL_SIZE as i8
        && ball.y >= p1.y - BALL_SIZE as i8 && ball.y <= p1.y + PADDLE_HEIGHT as i8 {
        ball.xdir = 1;
        append_actions(&mut acts, play_hit_tone());
    }
    assert(effects(acts@) =~= paddle_sounds(*p1, *p2, *old(ball)));
    acts
}

/// The ball has reached the left or right goal.
pub open spec fn scored(b: Ball) -> bool {
    b.x >= RIGHT_GOAL || b.x <= 0
}

/// The score that goes up does not overflow.
pub open spec fn score_ok(p1: Paddle, p2: Paddle, b: Ball) -> bool {
    &&& scored(b) && b.x <= 0 ==> p2.score < 255
    &&& scored(b) && b.x > 0 ==> p1.score < 255
}

/// Player 1 after a possible goal: a point for a ball past the right goal, then
/// back to the start.
pub open spec fn p1_after_goal(p1: Paddle, b: Ball) -> Paddle {
    if scored(b) {
        placed(
            if b.x <= 0 {
                p1
            } else {
                Paddle { score: (p1.score + 1) as u8, ..p1 }
            },
            P1_START_X,
            P1_START_Y,
        )
    } else {
        p1
    }
}

/// The computer after a possible goal: a point for a ball past the left goal, then
/// back to the start.
pub open spec fn p2_after_goal(p2: Paddle, b: Ball) -> Paddle {
    if scored(b) {
        placed(
            if b.x <= 0 {
                Paddle { score: (p2.score + 1) as u8, ..p2 }
            } else {
                p2
            },
            P2_START_X,
            P2_START_Y,
        )
    } else {
        p2
    }
}

/// The ball after a possible goal.
pub open spec fn ball_after_goal(b: Ball) -> Ball {
    if scored(b) {
        ball_at_start(b)
    } else {
        b
    }
}

/// The state after a possible goal: a goal starts a new launch.
pub open spec fn state_after_goal(s: State, b: Ball) -> State {
    if scored(b) {
        State::Launch
    } else {
        s
    }
}

/// A one-second beep after a goal.
pub open spec fn goal_sound(b: Ball) -> Seq<Effect> {
    if scored(b) {
        seq![tone(TONE), pause(1000), tone(0)]
    } else {
        Seq::empty()
    }
}

/// Scores a ball that reached a goal, beeps, and puts everything back for a new launch.
pub fn handle_score(p1: &mut Paddle, p2: &mut Paddle, ball: &mut Ball, state: &mut State) -> (acts:
    Vec<Action>)
    requires
        score_ok(*old(p1), *old(p2), *old(ball)),
    ensures
        *final(p1) == p1_after_goal(*old(p1), *old(ball)),
        *final(p2) == p2_after_goal(*old(p2), *old(ball)),
        *final(ball) == ball_after_goal(*old(ball)),
        *final(state) == state_after_goal(*old(state), *old(ball)),
        effects(acts@) == goal_sound(*old(ball)),
{
    let mut acts: Vec<Action> = Vec::new();
    if ball.x >= (SCREEN_WIDTH - BALL_SIZE) as i8 || ball.x <= 0 {
        if ball.x <= 0 {
            p2.score += 1;
        } else {
            p1.score += 1;
        }
        push_action(&mut acts, tone_action(TONE));
        push_action(&mut acts, pause_action(1000));
        push_action(&mut acts, tone_action(0));
        reset(p1, p2, ball);
        *state = State::Launch;
    }
    assert(effects(acts@) =~= goal_sound(*old(ball)));
    acts
}

// ---------------------------------------------------------------------------
// Screens and states

/// Buttons that a wait is for: only B.
pub open spec fn only_b() -> Buttons {
    Buttons { a: false, b: true, up: false, down: false, left: false, right: false }
}

/// The title screen, then a wait for B.
pub open spec fn title_screen() -> Seq<Effect> {
    seq![
        clear(),
        text(54, 30, "PONG".spec_bytes()),
        text(44, 40, "PRESS B".spec_bytes()),
        show(),
        Effect::WaitForAny(only_b()),
    ]
}

/// Shows the title screen and waits for B; the game then launches.
pub fn handle_title(state: &mut State) -> (acts: Vec<Action>)
    ensures
        *final(state) == State::Launch,
        effects(acts@) == title_screen(),
{
    let mut acts: Vec<Action> = Vec::new();
    push_action(&mut acts, Action::Call(Syscall::DisplayClear));
    push_action(&mut acts, text_action(SCREEN_WIDTH / 2 - 10, 30, "PONG"));
    push_action(&mut acts, text_action(SCREEN_WIDTH / 2 - 20, 40, "PRESS B"));
    push_action(&mut acts, Action::Call(Syscall::DisplayUpdate));
    push_action(
        &mut acts,
        Action::WaitForAny(
            Buttons { a: false, b: true, up: false, down: false, left: false, right: false },
        ),
    );
    *state = State::Launch;
    assert(effects(acts@) =~= title_screen());
    acts
}

/// Up is held and player 1's paddle is below its upper limit.
pub open spec fn moves_up(p1: Paddle, bt: Buttons) -> bool {
    bt.up && p1.y > PADDLE_BOUND
}

/// Player 1's paddle does not move up, down is held, and it is above its lower limit.
pub open spec fn moves_down(p1: Paddle, bt: Buttons) -> bool {
    !moves_up(p1, bt) && bt.down && p1.y < P1_LOW_LIMIT
}

/// Player 1's paddle after the controls.
pub open spec fn steered(p1: Paddle, bt: Buttons) -> Paddle {
    if moves_up(p1, bt) {
        Paddle { y: (p1.y - P1_SPEED) as i8, ..p1 }
    } else if moves_down(p1, bt) {
        Paddle { y: (p1.y + P1_SPEED) as i8, ..p1 }
    } else {
        p1
    }
}

/// The ball before launch moves up and down with player 1's paddle.
pub open spec fn carried(p1: Paddle, b: Ball, bt: Buttons) -> Ball {
    if moves_up(p1, bt) {
        Ball { y: (b.y - P1_SPEED) as i8, ..b }
    } else if moves_down(p1, bt) {
        Ball { y: (b.y + P1_SPEED) as i8, ..b }
    } else {
        b
    }
}

/// The state after a launch frame: A, when the paddle does not move, starts play.
pub open spec fn launched(p1: Paddle, s: State, bt: Buttons) -> State {
    if !moves_up(p1, bt) && !moves_down(p1, bt) && bt.a {
        State::Play
    } else {
        s
    }
}

/// Carrying the ball does not leave the `i8` range.
pub open spec fn launch_ok(p1: Paddle, b: Ball, bt: Buttons) -> bool {
    &&& moves_up(p1, bt) ==> b.y - P1_SPEED >= -128
    &&& moves_down(p1, bt) ==> b.y + P1_SPEED <= 127
}

/// Before launch: up and down move player 1's paddle with the ball on it, A starts
/// play; then the play screen is drawn.
pub fn handle_launch(
    p1: &mut Paddle,
    p2: &Paddle,
    ball: &mut Ball,
    state: &mut State,
    buttons: Buttons,
) -> (acts: Vec<Action>)
    requires
        launch_ok(*old(p1), *old(ball), buttons),
    ensures
        *final(p1) == steered(*old(p1), buttons),
        *final(ball) == carried(*old(p1), *old(ball), buttons),
        *final(state) == launched(*old(p1), *old(state), buttons),
        effects(acts@) == play_screen(*final(p1), *p2, *final(ball)),
{
    if buttons.up && p1.y > PADDLE_BOUND {
        p1.y -= P1_SPEED;
        ball.y -= P1_SPEED;
    } else if buttons.down && p1.y < SCREEN_HEIGHT as i8 - PADDLE_BOUND - PADDLE_HEIGHT as i8 {
        p1.y += P1_SPEED;
        ball.y += P1_SPEED;
    } else if buttons.a {
        *state = State::Play;
    }
    print_play_display(p1, p2, ball)
}

/// Everything on the court, and whether the current frame still has to read the
/// controls and draw the screen.
#[derive(Debug, Clone, Copy, PartialEq, Eq, Structural)]
pub struct Field {
    pub p1: Paddle,
    pub p2: Paddle,
    pub ball: Ball,
    pub state: State,
    pub controls_pending: bool,
}

/// The court made of these parts, with no frame half done.
pub open spec fn field_of(p1: Paddle, p2: Paddle, ball: Ball, state: State) -> Field {
    Field { p1, p2, ball, state, controls_pending: false }
}

/// The ball after moving and bouncing off the top or bottom.
pub open spec fn ball_after_edges(f: Field) -> Ball {
    y_bounced(moved_ball(f.ball))
}

/// The computer's paddle after following the moved ball.
pub open spec fn p2_after_move(f: Field) -> Paddle {
    moved_p2(f.p2, moved_ball(f.ball))
}

/// The ball after moving and bouncing off edges and paddles.
pub open spec fn ball_after_paddles(f: Field) -> Ball {
    paddles_bounced(f.p1, p2_after_move(f), ball_after_edges(f))
}

/// No step of a play frame leaves the range of its integer type.
pub open spec fn play_ok(f: Field) -> bool {
    &&& ball_move_ok(f.ball)
    &&& p2_move_ok(f.p2, moved_ball(f.ball))
    &&& y_bounce_ok(moved_ball(f.ball))
    &&& collision_ok(f.p1, p2_after_move(f), ball_after_edges(f))
    &&& score_ok(f.p1, p2_after_move(f), ball_after_paddles(f))
}

/// The court after the ball, the computer and a possible goal have moved on.
pub open spec fn after_rally(f: Field) -> Field {
    let b = ball_after_paddles(f);
    Field {
        p1: p1_after_goal(f.p1, b),
        p2: p2_after_goal(p2_after_move(f), b),
        ball: ball_after_goal(b),
        state: state_after_goal(f.state, b),
        ..f
    }
}

/// The sounds of a play frame: paddle beeps, then the goal beep.
pub open spec fn rally_sounds(f: Field) -> Seq<Effect> {
    paddle_sounds(f.p1, p2_after_move(f), ball_after_edges(f)) + goal_sound(
        ball_after_paddles(f),
    )
}

/// Neither side has reached `MAX_SCORE` after the rally: the frame goes on.
pub open spec fn play_goes_on(f: Field) -> bool {
    after_rally(f).p1.score < MAX_SCORE && after_rally(f).p2.score < MAX_SCORE
}

/// The court after a play frame's rally: a side reaching `MAX_SCORE` ends the game,
/// won when player 1 got there, and both scores go back to zero.
pub open spec fn play_result(f: Field) -> Field {
    let g = after_rally(f);
    if g.p1.score >= MAX_SCORE {
        Field {
            p1: Paddle { score: 0, ..g.p1 },
            p2: Paddle { score: 0, ..g.p2 },
            state: State::Win,
            ..g
        }
    } else if g.p2.score >= MAX_SCORE {
        Field {
            p1: Paddle { score: 0, ..g.p1 },
            p2: Paddle { score: 0, ..g.p2 },
            state: State::Lose,
            ..g
        }
    } else {
        g
    }
}

/// The first part of a play frame: the ball and the computer move, edges and
/// paddles reflect the ball, a goal scores, and a side at `MAX_SCORE` ends the game.
/// Returns the effects and whether the frame goes on with `handle_play_controls`.
pub fn handle_play(p1: &mut Paddle, p2: &mut Paddle, ball: &mut Ball, state: &mut State) -> (r: (
    Vec<Action>,
    bool,
))
    requires
        play_ok(field_of(*old(p1), *old(p2), *old(ball), *old(state))),
    ensures
        field_of(*final(p1), *final(p2), *final(ball), *final(state)) == play_result(
            field_of(*old(p1), *old(p2), *old(ball), *old(state)),
        ),
        r.1 == play_goes_on(field_of(*old(p1), *old(p2), *old(ball), *old(state))),
        effects(r.0@) == rally_sounds(field_of(*old(p1), *old(p2), *old(ball), *old(state))),
{
    handle_ball_move(ball);
    handle_p2_move(p2, ball);
    handle_y_collision(ball);
    let mut acts = handle_paddle_collision(p1, p2, ball);
    let goal = handle_score(p1, p2, ball, state);
    append_actions(&mut acts, goal);
    if p1.score >= MAX_SCORE {
        p1.score = 0;
        p2.score = 0;
        *state = State::Win;
        return (acts, false);
    } else if p2.score >= MAX_SCORE {
        p1.score = 0;
        p2.score = 0;
        *state = State::Lose;
        return (acts, false);
    }
    (acts, true)
}

/// The second part of a play frame: up and down move player 1's paddle, then the
/// play screen is drawn.
pub fn handle_play_controls(p1: &mut Paddle, p2: &Paddle, ball: &Ball, buttons: Buttons) -> (acts:
    Vec<Action>)
    ensures
        *final(p1) == steered(*old(p1), buttons),
        effects(acts@) == play_screen(*final(p1), *p2, *ball),
{
    if buttons.up && p1.y > PADDLE_BOUND {
        p1.y -= P1_SPEED;
    } else if buttons.down && p1.y < SCREEN_HEIGHT as i8 - PADDLE_BOUND - PADDLE_HEIGHT as i8 {
        p1.y += P1_SPEED;
    }
    print_play_display(p1, p2, ball)
}

/// The end screen with `msg` at column `x`, then the game-over tune.
pub open spec fn end_screen(x: u8, msg: Seq<u8>) -> Seq<Effect> {
    seq![clear(), text(x, 35, msg), show()] + gameover_tone()
}

/// Announces the win with the game-over tune; back to the title.
pub fn handle_win(state: &mut State) -> (acts: Vec<Action>)
    ensures
        *final(state) == State::Title,
        effects(acts@) == end_screen(41, "YOU WIN!".spec_bytes()),
{
    let mut acts: Vec<Action> = Vec::new();
    push_action(&mut acts, Action::Call(Syscall::DisplayClear));
    push_action(&mut acts, text_action(SCREEN_WIDTH / 2 - 23, 35, "YOU WIN!"));
    push_action(&mut acts, Action::Call(Syscall::DisplayUpdate));
    append_actions(&mut acts, play_gameover_tone());
    *state = State::Title;
    assert(effects(acts@) =~= end_screen(41, "YOU WIN!".spec_bytes()));
    acts
}

/// Announces the loss with the game-over tune; back to the title.
pub fn handle_lose(state: &mut State) -> (acts: Vec<Action>)
    ensures
        *final(state) == State::Title,
        effects(acts@) == end_screen(34, "YOU LOSE!".spec_bytes()),
{
    let mut acts: Vec<Action> = Vec::new();
    push_action(&mut acts, Action::Call(Syscall::DisplayClear));
    push_action(&mut acts, text_action(SCREEN_WIDTH / 2 - 30, 35, "YOU LOSE!"));
    push_action(&mut acts, Action::Call(Syscall::DisplayUpdate));
    append_actions(&mut acts, play_gameover_tone());
    *state = State::Title;
    assert(effects(acts@) =~= end_screen(34, "YOU LOSE!".spec_bytes()));
    acts
}

// ---------------------------------------------------------------------------
// Frames

/// Where a game starts: paddles and ball at their start positions, no points, on
/// the title screen.
pub open spec fn start_field() -> Field {
    Field {
        p1: Paddle { x: P1_START_X, y: P1_START_Y, w: PADDLE_WIDTH, h: PADDLE_HEIGHT, score: 0 },
        p2: Paddle { x: P2_START_X, y: P2_START_Y, w: PADDLE_WIDTH, h: PADDLE_HEIGHT, score: 0 },
        ball: Ball {
            x: BALL_START_X,
            y: BALL_START_Y,
            s: BALL_SIZE,
            xdir: 1,
            ydir: 1,
            speed: BALL_SPEED,
        },
        state: State::Title,
        controls_pending: false,
    }
}

/// The court after one call of `game`.
pub open spec fn next_field(f: Field, bt: Buttons) -> Field {
    if f.controls_pending {
        Field { p1: steered(f.p1, bt), controls_pending: false, ..f }
    } else {
        match f.state {
            State::Title => Field { state: State::Launch, ..f },
            State::Launch => Field {
                p1: steered(f.p1, bt),
                ball: carried(f.p1, f.ball, bt),
                state: launched(f.p1, f.state, bt),
                ..f
            },
            State::Play => if play_goes_on(f) {
                Field { controls_pending: true, ..play_result(f) }
            } else {
                play_result(f)
            },
            State::Win => Field { state: State::Title, ..f },
            State::Lose => Field { state: State::Title, ..f },
        }
    }
}

/// The effects of one call of `game`. Every frame ends with a `FRAME_MS` pause; a
/// play frame that goes on pauses after its controls part.
pub open spec fn frame_effects(f: Field, bt: Buttons) -> Seq<Effect> {
    if f.controls_pending {
        play_screen(steered(f.p1, bt), f.p2, f.ball).push(pause(FRAME_MS))
    } else {
        match f.state {
            State::Title => title_screen().push(pause(FRAME_MS)),
            State::Launch => play_screen(steered(f.p1, bt), f.p2, carried(f.p1, f.ball, bt)).push(
                pause(FRAME_MS),
            ),
            State::Play => if play_goes_on(f) {
                rally_sounds(f)
            } else {
                rally_sounds(f).push(pause(FRAME_MS))
            },
            State::Win => end_screen(41, "YOU WIN!".spec_bytes()).push(pause(FRAME_MS)),
            State::Lose => end_screen(34, "YOU LOSE!".spec_bytes()).push(pause(FRAME_MS)),
        }
    }
}

/// No step of one call of `game` leaves the range of its integer type.
pub open spec fn frame_ok(f: Field, bt: Buttons) -> bool {
    !f.controls_pending ==> match f.state {
        State::Launch => launch_ok(f.p1, f.ball, bt),
        State::Play => play_ok(f),
        _ => true,
    }
}

/// Where everything can be during a game: sizes and speed as at the start, both
/// directions one step, player 1 between its limits, the computer within a few
/// pixels of the screen, scores below `MAX_SCORE`, the ball inside the goals and at
/// most one pixel off screen vertically (and then heading back), and outside play
/// the ball two to six pixels below player 1's paddle top (four, just after a goal).
pub open spec fn in_bounds(f: Field) -> bool {
    &&& f.p1.x == P1_START_X && f.p1.w == PADDLE_WIDTH && f.p1.h == PADDLE_HEIGHT
    &&& f.p2.x == P2_START_X && f.p2.w == PADDLE_WIDTH && f.p2.h == PADDLE_HEIGHT
    &&& f.ball.s == BALL_SIZE && f.ball.speed == BALL_SPEED
    &&& f.ball.xdir == 1 || f.ball.xdir == -1
    &&& f.ball.ydir == 1 || f.ball.ydir == -1
    &&& 1 <= f.p1.y <= 53
    &&& -6 <= f.p2.y <= 61
    &&& f.p1.score < MAX_SCORE && f.p2.score < MAX_SCORE
    &&& 1 <= f.ball.x <= 125
    &&& -1 <= f.ball.y <= 65
    &&& f.ball.y >= BOTTOM_EDGE ==> f.ball.ydir == -1
    &&& f.ball.y <= 0 ==> f.ball.ydir == 1
    &&& !(f.state is Play) ==> 2 <= f.ball.y - f.p1.y <= 6
    &&& f.controls_pending ==> (f.state is Play || f.state is Launch)
    &&& f.controls_pending && f.state is Launch ==> f.ball.y - f.p1.y == 4
}

/// A game starts in bounds.
pub proof fn lemma_start_in_bounds()
    ensures
        in_bounds(start_field()),
{
}

/// From any position in bounds, whatever buttons are held, a frame overflows no
/// integer and ends in bounds again: no game ever overflows.
pub proof fn lemma_frame_keeps_bounds(f: Field, bt: Buttons)
    requires
        in_bounds(f),
    ensures
        frame_ok(f, bt),
        in_bounds(next_field(f, bt)),
{
    if !f.controls_pending && f.state is Play {
        assert(f.ball.xdir * f.ball.speed == 2 || f.ball.xdir * f.ball.speed == -2);
        assert(f.ball.ydir * f.ball.speed == 2 || f.ball.ydir * f.ball.speed == -2);
        if scored(ball_after_paddles(f)) {
            assert(after_rally(f).ball.y - after_rally(f).p1.y == 4);
        }
    }
}

/// A game of pong in progress.
pub struct Pong {
    field: Field,
}

impl Pong {
    #[verifier::type_invariant]
    spec fn bounded(self) -> bool {
        in_bounds(self.field)
    }

    /// A new game on the title screen.
    pub fn new() -> (g: Pong)
        ensures
            g@ == start_field(),
    {
        let g = Pong {
            field: Field {
                p1: Paddle {
                    x: P1_START_X,
                    y: P1_START_Y,
                    w: PADDLE_WIDTH,
                    h: PADDLE_HEIGHT,
                    score: 0,
                },
                p2: Paddle {
                    x: P2_START_X,
                    y: P2_START_Y,
                    w: PADDLE_WIDTH,
                    h: PADDLE_HEIGHT,
                    score: 0,
                },
                ball: Ball {
                    x: BALL_START_X,
                    y: BALL_START_Y,
                    s: BALL_SIZE,
                    xdir: 1,
                    ydir: 1,
                    speed: BALL_SPEED,
                },
                state: State::Title,
                controls_pending: false,
            },
        };
        g
    }

    /// The court.
    pub fn field(&self) -> (f: Field)
        ensures
            f == self@,
    {
        self.field
    }
}

impl View for Pong {
    type V = Field;

    closed spec fn view(&self) -> Field {
        self.field
    }
}

/// One frame of the game loop: the state's handler, then the frame pause. A play
/// frame stops after its rally when the game goes on; the next call, with the
/// buttons read after the rally's effects, finishes it with the controls and the
/// screen.
pub fn game(world: &mut Pong, buttons: Buttons) -> (acts: Vec<Action>)
    ensures
        final(world)@ == next_field(old(world)@, buttons),
        in_bounds(final(world)@),
        effects(acts@) == frame_effects(old(world)@, buttons),
{
    proof {
        use_type_invariant(&*world);
        lemma_frame_keeps_bounds(world.field, buttons);
    }
    let f = world.field;
    let mut p1 = f.p1;
    let mut p2 = f.p2;
    let mut ball = f.ball;
    let mut state = f.state;
    let mut pending = false;
    let mut acts: Vec<Action>;
    if f.controls_pending {
        acts = handle_play_controls(&mut p1, &p2, &ball, buttons);
        push_action(&mut acts, pause_action(FRAME_MS));
    } else {
        match state {
            State::Title => {
                acts = handle_title(&mut state);
                push_action(&mut acts, pause_action(FRAME_MS));
            },
            State::Launch => {
                acts = handle_launch(&mut p1, &p2, &mut ball, &mut state, buttons);
                push_action(&mut acts, pause_action(FRAME_MS));
            },
            State::Play => {
                let (a, goes_on) = handle_play(&mut p1, &mut p2, &mut ball, &mut state);
                acts = a;
                if goes_on {
                    pending = true;
                } else {
                    push_action(&mut acts, pause_action(FRAME_MS));
                }
            },
            State::Win => {
                acts = handle_win(&mut state);
                push_action(&mut acts, pause_action(FRAME_MS));
            },
            State::Lose => {
                acts = handle_lose(&mut state);
                push_action(&mut acts, pause_action(FRAME_MS));
            },
        }
    }
    world.field = Field { p1, p2, ball, state, controls_pending: pending };
    acts
}

} // verus!
