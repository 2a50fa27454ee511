//! What pong's frame functions promise, stated with the game's numbers and checked
//! against the specifications their contracts use.
use vstd::prelude::*;
use crate::action::{Buttons, Effect};
use crate::pong::{
    after_rally, ball_after_edges, ball_after_goal, p2_after_move, rally_sounds, ball_after_paddles, ball_at_start, ball_move_ok, carried,
    end_screen, frame_effects, gameover_tone, goal_sound, hit_tone, in_bounds, launch_ok, launched,
    moved_ball, moved_p2, net, next_field, p1_after_goal, p2_after_goal, p2_move_ok, paddle_sounds,
    paddles_bounced, placed, play_goes_on, play_result, play_screen, score_digit, score_ok,
    score_text, scored, start_field, state_after_goal, steered, title_screen, y_bounce_ok, y_bounced,
    Ball, Field, Paddle, State, P1_START_X, P1_START_Y, P2_START_X, P2_START_Y,
};
use crate::syscall::Call;
use vstd::string::StringSliceAdditionalSpecFns;

verus! {

/// A filled rectangle request.
pub open spec fn rect_call(x: u8, y: u8, w: u8, h: u8) -> Effect {
    Effect::Call(Call::DisplayDrawRect { x, y, w, h, fill: true })
}

/// A text request.
pub open spec fn text_call(x: u8, y: u8, t: Seq<u8>) -> Effect {
    Effect::Call(Call::DisplayPrint { x, y, text: t })
}

/// A buzzer request.
pub open spec fn tone_call(freq: u32) -> Effect {
    Effect::Call(Call::PlayTone { freq })
}

/// A delay request.
pub open spec fn delay_call(ms: u32) -> Effect {
    Effect::Call(Call::Delay { ms })
}

/// Resetting puts player 1 at (5, 20), the computer at (121, 20) and the ball at
/// (8, 24) heading right and down; scores, sizes and the ball's speed stay.
pub proof fn law_reset_positions(p1: Paddle, p2: Paddle, b: Ball)
    ensures
        placed(p1, P1_START_X, P1_START_Y) == (Paddle {
            x: 5,
            y: 20,
            w: p1.w,
            h: p1.h,
            score: p1.score,
        }),
        placed(p2, P2_START_X, P2_START_Y) == (Paddle {
            x: 121,
            y: 20,
            w: p2.w,
            h: p2.h,
            score: p2.score,
        }),
        ball_at_start(b) == (Ball { x: 8, y: 24, s: b.s, xdir: 1, ydir: 1, speed: b.speed }),
{
}

/// A hit is a 440 Hz beep of 10 ms that ends with the buzzer off.
pub proof fn law_hit_tone()
    ensures
        hit_tone() =~= seq![tone_call(440), delay_call(10), tone_call(0)],
{
}

/// The game-over tune is three 440 Hz beeps of half a second, each followed by half
/// a second of silence.
pub proof fn law_gameover_tone()
    ensures
        gameover_tone() =~= seq![
            tone_call(440), delay_call(500), tone_call(0), delay_call(500),
            tone_call(440), delay_call(500), tone_call(0), delay_call(500),
            tone_call(440), delay_call(500), tone_call(0), delay_call(500),
        ],
{
}

/// A score is drawn as one ASCII digit (48 is `0`): the score itself from 1 to 9, and `0` for 0
/// and for anything from 10 on.
pub proof fn law_score_digit(score: u8, x: i8, y: i8)
    ensures
        score_text(score, x, y) == text_call(x as u8, y as u8, seq![score_digit(score)]),
        1 <= score <= 9 ==> score_digit(score) == 48 + score,
        !(1 <= score <= 9) ==> score_digit(score) == 48,
{
}

/// The net is six 2 by 5 dashes in column 63, starting at row 5, ten rows apart.
pub proof fn law_net()
    ensures
        net().len() == 6,
        forall|i: int| 0 <= i < 6 ==> net()[i] == rect_call(63, (5 + 10 * i) as u8, 2, 5),
{
}

/// The play screen is cleared first and shown last, once each; between them it
/// draws player 1's score at (50, 10), the computer's at (73, 10), the net, and the
/// two paddles and the ball where they are.
pub proof fn law_play_screen(p1: Paddle, p2: Paddle, b: Ball)
    ensures
        play_screen(p1, p2, b).len() == 13,
        play_screen(p1, p2, b)[0] == Effect::Call(Call::DisplayClear),
        play_screen(p1, p2, b)[12] == Effect::Call(Call::DisplayUpdate),
        forall|i: int|
            1 <= i < 12 ==> play_screen(p1, p2, b)[i] != Effect::Call(Call::DisplayClear)
                && play_screen(p1, p2, b)[i] != Effect::Call(Call::DisplayUpdate),
        play_screen(p1, p2, b)[1] == text_call(50, 10, seq![score_digit(p1.score)]),
        play_screen(p1, p2, b)[2] == text_call(73, 10, seq![score_digit(p2.score)]),
        play_screen(p1, p2, b).subrange(3, 9) == net(),
        play_screen(p1, p2, b)[9] == rect_call(p1.x as u8, p1.y as u8, p1.w, p1.h),
        play_screen(p1, p2, b)[10] == rect_call(p2.x as u8, p2.y as u8, p2.w, p2.h),
        play_screen(p1, p2, b)[11] == rect_call(b.x as u8, b.y as u8, b.s, b.s),
{
    let e = play_screen(p1, p2, b);
    assert(e.subrange(3, 9) =~= net());
}

/// A ball step adds each direction times the speed to the position and changes
/// nothing else.
pub proof fn law_ball_step(b: Ball)
    requires
        ball_move_ok(b),
    ensures
        moved_ball(b).x == b.x + b.xdir * b.speed,
        moved_ball(b).y == b.y + b.ydir * b.speed,
        moved_ball(b).s == b.s && moved_ball(b).speed == b.speed,
        moved_ball(b).xdir == b.xdir && moved_ball(b).ydir == b.ydir,
{
}

/// The computer moves one pixel every step, down when the ball is level with or
/// below its middle (five pixels under its top) and up otherwise, whichever way and
/// however fast the ball travels; nothing else about it changes.
pub proof fn law_computer_step(p2: Paddle, b: Ball, other: Ball)
    requires
        p2_move_ok(p2, b),
        other.y == b.y,
    ensures
        b.y >= p2.y + 5 ==> moved_p2(p2, b).y == p2.y + 1,
        b.y < p2.y + 5 ==> moved_p2(p2, b).y == p2.y - 1,
        moved_p2(p2, b).x == p2.x && moved_p2(p2, b).w == p2.w && moved_p2(p2, b).h == p2.h,
        moved_p2(p2, b).score == p2.score,
        moved_p2(p2, other) == moved_p2(p2, b),
{
}

/// At row 64 or below and at row 0 or above the ball's vertical direction
/// reverses; elsewhere it stays. The position and the rest never change.
pub proof fn law_edge_bounce(b: Ball)
    requires
        y_bounce_ok(b),
    ensures
        (b.y >= 64 || b.y <= 0) ==> y_bounced(b).ydir == -b.ydir,
        !(b.y >= 64 || b.y <= 0) ==> y_bounced(b).ydir == b.ydir,
        y_bounced(b).x == b.x && y_bounced(b).y == b.y && y_bounced(b).xdir == b.xdir,
        y_bounced(b).s == b.s && y_bounced(b).speed == b.speed,
{
}

/// The ball is inside player 1's hit box: from 4 pixels left to 2 right of the
/// paddle, and from 2 pixels above its top to its bottom row.
pub open spec fn in_p1_box(p1: Paddle, b: Ball) -> bool {
    p1.x - 4 <= b.x <= p1.x + 2 && p1.y - 2 <= b.y <= p1.y + 10
}

/// The ball is inside the computer's hit box: from 2 pixels left to 4 right of the
/// paddle, and from 2 pixels above its top to its bottom row.
pub open spec fn in_p2_box(p2: Paddle, b: Ball) -> bool {
    p2.x - 2 <= b.x <= p2.x + 4 && p2.y - 2 <= b.y <= p2.y + 10
}

/// A ball in player 1's box leaves heading right, one in the computer's box (and not
/// in player 1's) heading left; each box it is in beeps once, the computer's first.
/// Nothing but the horizontal direction changes.
pub proof fn law_paddle_bounce(p1: Paddle, p2: Paddle, b: Ball)
    ensures
        in_p1_box(p1, b) ==> paddles_bounced(p1, p2, b).xdir == 1,
        !in_p1_box(p1, b) && in_p2_box(p2, b) ==> paddles_bounced(p1, p2, b).xdir == -1,
        !in_p1_box(p1, b) && !in_p2_box(p2, b) ==> paddles_bounced(p1, p2, b) == b,
        paddles_bounced(p1, p2, b).x == b.x && paddles_bounced(p1, p2, b).y == b.y,
        paddles_bounced(p1, p2, b).ydir == b.ydir && paddles_bounced(p1, p2, b).speed == b.speed,
        paddle_sounds(p1, p2, b) == (if in_p2_box(p2, b) {
            hit_tone()
        } else {
            Seq::empty()
        }) + (if in_p1_box(p1, b) {
            hit_tone()
        } else {
            Seq::empty()
        }),
{
}

/// A ball at column 0 or left of it is a point for the computer, one at column 126
/// or right of it a point for player 1: that score goes up by one, the other stays,
/// everything goes back to its start, the game launches again, and a one-second
/// 440 Hz beep sounds. Any other ball changes nothing and is silent.
pub proof fn law_goal(p1: Paddle, p2: Paddle, b: Ball, s: State)
    requires
        score_ok(p1, p2, b),
    ensures
        b.x <= 0 ==> p2_after_goal(p2, b).score == p2.score + 1 && p1_after_goal(p1, b).score
            == p1.score,
        b.x >= 126 ==> p1_after_goal(p1, b).score == p1.score + 1 && p2_after_goal(p2, b).score
            == p2.score,
        (b.x <= 0 || b.x >= 126) ==> {
            &&& p1_after_goal(p1, b).x == 5 && p1_after_goal(p1, b).y == 20
            &&& p2_after_goal(p2, b).x == 121 && p2_after_goal(p2, b).y == 20
            &&& ball_after_goal(b) == (Ball {
                x: 8,
                y: 24,
                s: b.s,
                xdir: 1,
                ydir: 1,
                speed: b.speed,
            })
            &&& state_after_goal(s, b) == State::Launch
            &&& goal_sound(b) =~= seq![tone_call(440), delay_call(1000), tone_call(0)]
        },
        0 < b.x < 126 ==> {
            &&& p1_after_goal(p1, b) == p1
            &&& p2_after_goal(p2, b) == p2
            &&& ball_after_goal(b) == b
            &&& state_after_goal(s, b) == s
            &&& goal_sound(b).len() == 0
        },
{
}

/// The title screen clears, writes "PONG" at (54, 30) and "PRESS B" at (44, 40),
/// shows them, and then waits for B alone.
pub proof fn law_title_screen()
    ensures
        title_screen() =~= seq![
            Effect::Call(Call::DisplayClear),
            text_call(54, 30, "PONG".spec_bytes()),
            text_call(44, 40, "PRESS B".spec_bytes()),
            Effect::Call(Call::DisplayUpdate),
            Effect::WaitForAny(
                Buttons { a: false, b: true, up: false, down: false, left: false, right: false },
            ),
        ],
{
}

/// Player 1's controls: up moves the paddle 2 pixels up while its top is below row
/// 2; otherwise down moves it 2 pixels down while its top is above row 52; otherwise
/// it stays. Only its row changes.
pub proof fn law_controls(p1: Paddle, bt: Buttons)
    ensures
        bt.up && p1.y > 2 ==> steered(p1, bt).y == p1.y - 2,
        !(bt.up && p1.y > 2) && bt.down && p1.y < 52 ==> steered(p1, bt).y == p1.y + 2,
        !(bt.up && p1.y > 2) && !(bt.down && p1.y < 52) ==> steered(p1, bt).y == p1.y,
        steered(p1, bt).x == p1.x && steered(p1, bt).score == p1.score,
        steered(p1, bt).w == p1.w && steered(p1, bt).h == p1.h,
{
}

/// Before launch the ball rides on player 1's paddle: it moves by exactly as much,
/// and A starts play only when the paddle does not move.
pub proof fn law_launch(p1: Paddle, b: Ball, s: State, bt: Buttons)
    requires
        launch_ok(p1, b, bt),
    ensures
        carried(p1, b, bt).y - b.y == steered(p1, bt).y - p1.y,
        carried(p1, b, bt).x == b.x && carried(p1, b, bt).xdir == b.xdir,
        carried(p1, b, bt).ydir == b.ydir,
        launched(p1, s, bt) == (if bt.a && steered(p1, bt).y == p1.y {
            State::Play
        } else {
            s
        }),
{
}

/// The end screens: clear, the message at row 35, show, then the game-over tune.
pub proof fn law_end_screen(x: u8, msg: Seq<u8>)
    ensures
        end_screen(x, msg).len() == 15,
        end_screen(x, msg)[0] == Effect::Call(Call::DisplayClear),
        end_screen(x, msg)[1] == text_call(x, 35, msg),
        end_screen(x, msg)[2] == Effect::Call(Call::DisplayUpdate),
        end_screen(x, msg).subrange(3, 15) == gameover_tone(),
{
    assert(end_screen(x, msg).subrange(3, 15) =~= gameover_tone());
}

/// The state a frame leads to: the title goes to launch; a win or loss screen goes
/// back to the title; launch stays in launch unless A starts play; play stays in
/// play, goes to launch after a goal, or ends in a win (player 1 at 10 points) or a
/// loss (the computer at 10). Finishing a play frame's controls keeps the state.
pub proof fn law_state_transitions(f: Field, bt: Buttons)
    requires
        in_bounds(f),
    ensures
        f.controls_pending ==> next_field(f, bt).state == f.state,
        !f.controls_pending && f.state == State::Title ==> next_field(f, bt).state
            == State::Launch,
        !f.controls_pending && f.state == State::Win ==> next_field(f, bt).state == State::Title,
        !f.controls_pending && f.state == State::Lose ==> next_field(f, bt).state == State::Title,
        !f.controls_pending && f.state == State::Launch ==> (next_field(f, bt).state
            == State::Launch || (next_field(f, bt).state == State::Play && bt.a)),
        !f.controls_pending && f.state == State::Play ==> {
            let r = after_rally(f);
            &&& r.p1.score >= 10 ==> next_field(f, bt).state == State::Win
            &&& r.p1.score < 10 && r.p2.score >= 10 ==> next_field(f, bt).state == State::Lose
            &&& r.p1.score < 10 && r.p2.score < 10 ==> (next_field(f, bt).state == State::Play
                || next_field(f, bt).state == State::Launch) && next_field(f, bt).controls_pending
        },
{
}

/// Screens that are not part of a play frame change nothing on the court but the
/// state: the title, win and loss frames keep paddles, ball and scores.
pub proof fn law_screens_keep_court(f: Field, bt: Buttons)
    requires
        !f.controls_pending,
        f.state == State::Title || f.state == State::Win || f.state == State::Lose,
    ensures
        next_field(f, bt).p1 == f.p1,
        next_field(f, bt).p2 == f.p2,
        next_field(f, bt).ball == f.ball,
        !next_field(f, bt).controls_pending,
{
}

/// A play frame that ends the game zeroes both scores; one that goes on keeps the
/// scores as the rally left them, each at most one higher than before.
pub proof fn law_play_scores(f: Field)
    requires
        in_bounds(f),
        f.state == State::Play,
    ensures
        !play_goes_on(f) ==> play_result(f).p1.score == 0 && play_result(f).p2.score == 0,
        play_goes_on(f) ==> play_result(f) == after_rally(f),
        f.p1.score <= after_rally(f).p1.score <= f.p1.score + 1,
        f.p2.score <= after_rally(f).p2.score <= f.p2.score + 1,
        after_rally(f).p1.score + after_rally(f).p2.score <= f.p1.score + f.p2.score + 1,
{
    assert(f.ball.speed == 2);
    assert(f.ball.xdir * f.ball.speed == 2 * f.ball.xdir) by (nonlinear_arith)
        requires
            f.ball.speed == 2,
    ;
    assert(f.ball.ydir * f.ball.speed == 2 * f.ball.ydir) by (nonlinear_arith)
        requires
            f.ball.speed == 2,
    ;
}

/// Without a goal, a play frame's rally moves the ball one step (bounced off edges
/// and paddles), moves the computer one pixel towards where the ball now is, and
/// leaves player 1's paddle and the state alone.
pub proof fn law_rally_without_goal(f: Field)
    requires
        in_bounds(f),
        f.state == State::Play,
        !scored(ball_after_paddles(f)),
    ensures
        after_rally(f).p1 == f.p1,
        after_rally(f).state == State::Play,
        after_rally(f).ball.x == f.ball.x + 2 * f.ball.xdir,
        after_rally(f).ball.y == f.ball.y + 2 * f.ball.ydir,
        after_rally(f).p2.y == f.p2.y + 1 || after_rally(f).p2.y == f.p2.y - 1,
        after_rally(f).p2.y == f.p2.y + 1 <==> f.ball.y + 2 * f.ball.ydir >= f.p2.y + 5,
{
    assert(f.ball.speed == 2);
    assert(f.ball.xdir * f.ball.speed == 2 * f.ball.xdir) by (nonlinear_arith)
        requires
            f.ball.speed == 2,
    ;
    assert(f.ball.ydir * f.ball.speed == 2 * f.ball.ydir) by (nonlinear_arith)
        requires
            f.ball.speed == 2,
    ;
}

/// Every frame but a play frame that goes on to its controls ends with the 15 ms
/// frame pause; a win frame says "YOU WIN!" at (41, 35), a loss frame "YOU LOSE!" at
/// (34, 35).
pub proof fn law_frame_pause(f: Field, bt: Buttons)
    ensures
        !(!f.controls_pending && f.state == State::Play && play_goes_on(f)) ==> frame_effects(
            f,
            bt,
        ).last() == delay_call(15),
        !f.controls_pending && f.state == State::Win ==> frame_effects(f, bt)[1] == text_call(
            41,
            35,
            "YOU WIN!".spec_bytes(),
        ),
        !f.controls_pending && f.state == State::Lose ==> frame_effects(f, bt)[1] == text_call(
            34,
            35,
            "YOU LOSE!".spec_bytes(),
        ),
{
}

/// A new game: player 1 at (5, 20), the computer at (121, 20), both 2 by 10 with no
/// points, the 2-pixel ball at (8, 24) heading right and down at speed 2, on the
/// title screen.
pub proof fn law_start()
    ensures
        start_field() == (Field {
            p1: Paddle { x: 5, y: 20, w: 2, h: 10, score: 0 },
            p2: Paddle { x: 121, y: 20, w: 2, h: 10, score: 0 },
            ball: Ball { x: 8, y: 24, s: 2, xdir: 1, ydir: 1, speed: 2 },
            state: State::Title,
            controls_pending: false,
        }),
{
}

/// A launch frame, and the controls part of a play frame, draw the court as the
/// frame leaves it and then pause 15 ms.
pub proof fn law_frame_draws_new_court(f: Field, bt: Buttons)
    requires
        f.controls_pending || f.state == State::Launch,
    ensures
        ({
            let n = next_field(f, bt);
            frame_effects(f, bt) == play_screen(n.p1, n.p2, n.ball).push(delay_call(15))
        }),
{
}

/// The rally part of a play frame only makes sounds: every effect is a tone or a
/// delay, and it is silent unless the ball touched a paddle or a goal was scored.
pub proof fn law_rally_only_sounds(f: Field)
    ensures
        forall|i: int|
            0 <= i < rally_sounds(f).len() ==> (#[trigger] rally_sounds(f)[i] matches Effect::Call(c)
                && (c is PlayTone || c is Delay)),
        !in_p1_box(f.p1, ball_after_edges(f)) && !in_p2_box(p2_after_move(f), ball_after_edges(f))
            && !scored(ball_after_paddles(f)) ==> rally_sounds(f).len() == 0,
{
    let e = rally_sounds(f);
    assert forall|i: int| 0 <= i < e.len() implies (#[trigger] e[i] matches Effect::Call(c) && (
    c is PlayTone || c is Delay)) by {
        let a = if in_p2_box(p2_after_move(f), ball_after_edges(f)) {
            hit_tone()
        } else {
            Seq::empty()
        };
        let b = if in_p1_box(f.p1, ball_after_edges(f)) {
            hit_tone()
        } else {
            Seq::empty()
        };
        let g = goal_sound(ball_after_paddles(f));
        assert(e =~= a + b + g);
        if i < a.len() {
            assert(e[i] == a[i]);
        } else if i < a.len() + b.len() {
            assert(e[i] == b[i - a.len()]);
        } else {
            assert(e[i] == g[i - a.len() - b.len()]);
        }
    }
}

/// A goal in a play frame puts both paddles and the ball back at their start
/// positions, the ball heading right and down, and gives the point to the side the
/// ball did not leave by; the game launches again unless that point is the tenth.
pub proof fn law_rally_with_goal(f: Field)
    requires
        in_bounds(f),
        f.state == State::Play,
        scored(ball_after_paddles(f)),
    ensures
        after_rally(f).p1.x == 5 && after_rally(f).p1.y == 20,
        after_rally(f).p2.x == 121 && after_rally(f).p2.y == 20,
        after_rally(f).ball.x == 8 && after_rally(f).ball.y == 24,
        after_rally(f).ball.xdir == 1 && after_rally(f).ball.ydir == 1,
        after_rally(f).state == State::Launch,
        ball_after_paddles(f).x <= 0 ==> after_rally(f).p2.score == f.p2.score + 1
            && after_rally(f).p1.score == f.p1.score,
        ball_after_paddles(f).x >= 126 ==> after_rally(f).p1.score == f.p1.score + 1
            && after_rally(f).p2.score == f.p2.score,
{
}

/// What a frame moves: finishing a play frame moves only player 1's paddle (by the
/// controls) and clears the pending mark; a launch frame moves player 1's paddle by
/// the controls and the ball with it; the computer's paddle moves only in a play
/// frame's rally.
pub proof fn law_next_field_moves(f: Field, bt: Buttons)
    ensures
        f.controls_pending ==> {
            let n = next_field(f, bt);
            &&& n.p1 == steered(f.p1, bt)
            &&& n.p2 == f.p2
            &&& n.ball == f.ball
            &&& !n.controls_pending
        },
        !f.controls_pending && f.state == State::Launch ==> {
            let n = next_field(f, bt);
            &&& n.p1 == steered(f.p1, bt)
            &&& n.ball == carried(f.p1, f.ball, bt)
            &&& n.p2 == f.p2
            &&& !n.controls_pending
        },
{
}

} // verus!
