use rustngo::action::{Action, Buttons};
use rustngo::pong::{
    draw_net, game, handle_ball_move, handle_launch, handle_lose, handle_p2_move,
    handle_paddle_collision, handle_play, handle_play_controls, handle_score, handle_title,
    handle_win, handle_y_collision, play_gameover_tone, play_hit_tone, print_play_display,
    print_score, reset, Ball, Field, Paddle, Pong, State,
};
use rustngo::syscall::Syscall;

fn call(s: Syscall) -> Action {
    Action::Call(s)
}

fn text(x: u8, y: u8, t: &str) -> Action {
    call(Syscall::DisplayPrint { x, y, text: t.as_bytes().to_vec() })
}

fn rect(x: u8, y: u8, w: u8, h: u8) -> Action {
    call(Syscall::DisplayDrawRect { x, y, w, h, fill: true })
}

fn tone(freq: u32) -> Action {
    call(Syscall::PlayTone { freq })
}

fn pause(ms: u32) -> Action {
    call(Syscall::Delay { ms })
}

fn paddle(x: i8, y: i8, score: u8) -> Paddle {
    Paddle { x, y, w: 2, h: 10, score }
}

fn ball(x: i8, y: i8, xdir: i8, ydir: i8) -> Ball {
    Ball { x, y, s: 2, xdir, ydir, speed: 2 }
}

fn only(up: bool, down: bool, a: bool) -> Buttons {
    Buttons { a, b: false, up, down, left: false, right: false }
}

fn net() -> Vec<Action> {
    (0..6).map(|i| rect(63, 5 + 10 * i, 2, 5)).collect()
}

fn screen(p1: &Paddle, p2: &Paddle, b: &Ball) -> Vec<Action> {
    let mut v = vec![
        call(Syscall::DisplayClear),
        text(50, 10, &p1.score.to_string()),
        text(73, 10, &p2.score.to_string()),
    ];
    v.extend(net());
    v.push(rect(p1.x as u8, p1.y as u8, 2, 10));
    v.push(rect(p2.x as u8, p2.y as u8, 2, 10));
    v.push(rect(b.x as u8, b.y as u8, 2, 2));
    v.push(call(Syscall::DisplayUpdate));
    v
}

#[test]
fn new_game_starts_on_title() {
    let f = Pong::new().field();
    assert_eq!(f.p1, paddle(5, 20, 0));
    assert_eq!(f.p2, paddle(121, 20, 0));
    assert_eq!(f.ball, ball(8, 24, 1, 1));
    assert_eq!(f.state, State::Title);
    assert!(!f.controls_pending);
}

#[test]
fn reset_puts_everything_back() {
    let mut p1 = paddle(5, 40, 3);
    let mut p2 = paddle(121, -2, 7);
    let mut b = Ball { x: 60, y: 60, s: 2, xdir: -1, ydir: -1, speed: 2 };
    reset(&mut p1, &mut p2, &mut b);
    assert_eq!(p1, paddle(5, 20, 3));
    assert_eq!(p2, paddle(121, 20, 7));
    assert_eq!(b, ball(8, 24, 1, 1));
}

#[test]
fn tones() {
    assert_eq!(play_hit_tone(), vec![tone(440), pause(10), tone(0)]);
    let tune = play_gameover_tone();
    assert_eq!(tune.len(), 12);
    for i in 0..3 {
        assert_eq!(tune[4 * i..4 * i + 4], [tone(440), pause(500), tone(0), pause(500)]);
    }
}

#[test]
fn scores_are_single_digits() {
    assert_eq!(print_score(0, 50, 10), text(50, 10, "0"));
    assert_eq!(print_score(1, 50, 10), text(50, 10, "1"));
    assert_eq!(print_score(9, 73, 10), text(73, 10, "9"));
    assert_eq!(print_score(10, 73, 10), text(73, 10, "0"));
    assert_eq!(print_score(200, -1, 10), text(255, 10, "0"));
}

#[test]
fn net_is_six_dashes() {
    assert_eq!(draw_net(), net());
}

#[test]
fn play_screen_draws_everything() {
    let p1 = paddle(5, 20, 2);
    let p2 = paddle(121, -3, 4);
    let b = ball(30, -1, 1, 1);
    let acts = print_play_display(&p1, &p2, &b);
    assert_eq!(acts, screen(&p1, &p2, &b));
    assert_eq!(acts[10], rect(121, 253, 2, 10));
}

#[test]
fn ball_moves_by_its_speed() {
    let mut b = ball(10, 10, -1, 1);
    handle_ball_move(&mut b);
    assert_eq!((b.x, b.y), (8, 12));
}

#[test]
fn computer_follows_the_ball() {
    let mut p2 = paddle(121, 20, 0);
    handle_p2_move(&mut p2, &ball(100, 25, 1, 1));
    assert_eq!(p2.y, 21);
    handle_p2_move(&mut p2, &ball(100, 25, 1, 1));
    assert_eq!(p2.y, 20);
}

#[test]
fn edges_reflect_the_ball() {
    let mut b = ball(50, 64, 1, 1);
    handle_y_collision(&mut b);
    assert_eq!(b.ydir, -1);
    let mut b = ball(50, 0, 1, -1);
    handle_y_collision(&mut b);
    assert_eq!(b.ydir, 1);
    let mut b = ball(50, 30, 1, 1);
    handle_y_collision(&mut b);
    assert_eq!(b.ydir, 1);
}

#[test]
fn paddles_reflect_the_ball_with_a_beep() {
    let p1 = paddle(5, 20, 0);
    let p2 = paddle(121, 20, 0);
    let mut b = ball(120, 25, 1, 1);
    let acts = handle_paddle_collision(&p1, &p2, &mut b);
    assert_eq!(b.xdir, -1);
    assert_eq!(acts, play_hit_tone());
    let mut b = ball(6, 30, -1, 1);
    let acts = handle_paddle_collision(&p1, &p2, &mut b);
    assert_eq!(b.xdir, 1);
    assert_eq!(acts, play_hit_tone());
    let mut b = ball(6, 40, -1, 1);
    let acts = handle_paddle_collision(&p1, &p2, &mut b);
    assert_eq!(b.xdir, -1);
    assert!(acts.is_empty());
}

#[test]
fn goals_score_and_restart() {
    let mut p1 = paddle(5, 30, 1);
    let mut p2 = paddle(121, 10, 2);
    let mut b = ball(0, 33, -1, -1);
    let mut st = State::Play;
    let acts = handle_score(&mut p1, &mut p2, &mut b, &mut st);
    assert_eq!(acts, vec![tone(440), pause(1000), tone(0)]);
    assert_eq!((p1.score, p2.score), (1, 3));
    assert_eq!((p1.y, p2.y), (20, 20));
    assert_eq!(b, ball(8, 24, 1, 1));
    assert_eq!(st, State::Launch);

    let mut b = ball(126, 33, 1, 1);
    let mut st = State::Play;
    handle_score(&mut p1, &mut p2, &mut b, &mut st);
    assert_eq!((p1.score, p2.score), (2, 3));

    let mut b = ball(60, 33, 1, 1);
    let mut st = State::Play;
    assert!(handle_score(&mut p1, &mut p2, &mut b, &mut st).is_empty());
    assert_eq!(st, State::Play);
}

#[test]
fn title_waits_for_b() {
    let mut st = State::Title;
    let acts = handle_title(&mut st);
    assert_eq!(st, State::Launch);
    assert_eq!(
        acts,
        vec![
            call(Syscall::DisplayClear),
            text(54, 30, "PONG"),
            text(44, 40, "PRESS B"),
            call(Syscall::DisplayUpdate),
            Action::WaitForAny(Buttons {
                a: false,
                b: true,
                up: false,
                down: false,
                left: false,
                right: false
            }),
        ]
    );
}

#[test]
fn launch_carries_the_ball() {
    let mut p1 = paddle(5, 20, 0);
    let p2 = paddle(121, 20, 0);
    let mut b = ball(8, 24, 1, 1);
    let mut st = State::Launch;
    let acts = handle_launch(&mut p1, &p2, &mut b, &mut st, only(true, false, false));
    assert_eq!((p1.y, b.y, st), (18, 22, State::Launch));
    assert_eq!(acts, screen(&p1, &p2, &b));
    handle_launch(&mut p1, &p2, &mut b, &mut st, only(false, true, true));
    assert_eq!((p1.y, b.y, st), (20, 24, State::Launch));
    handle_launch(&mut p1, &p2, &mut b, &mut st, only(false, false, true));
    assert_eq!((p1.y, b.y, st), (20, 24, State::Play));
}

#[test]
fn paddle_stops_at_its_limits() {
    let mut p1 = paddle(5, 2, 0);
    let p2 = paddle(121, 20, 0);
    let mut b = ball(8, 6, 1, 1);
    let mut st = State::Launch;
    handle_launch(&mut p1, &p2, &mut b, &mut st, only(true, false, false));
    assert_eq!(p1.y, 2);
    let mut p1 = paddle(5, 52, 0);
    handle_play_controls(&mut p1, &p2, &b, only(false, true, false));
    assert_eq!(p1.y, 52);
    let mut p1 = paddle(5, 51, 0);
    handle_play_controls(&mut p1, &p2, &b, only(false, true, false));
    assert_eq!(p1.y, 53);
}

#[test]
fn reaching_ten_wins_and_clears_scores() {
    let mut p1 = paddle(5, 20, 9);
    let mut p2 = paddle(121, 50, 4);
    let mut b = ball(124, 2, 1, 1);
    let mut st = State::Play;
    let (acts, goes_on) = handle_play(&mut p1, &mut p2, &mut b, &mut st);
    assert!(!goes_on);
    assert_eq!(st, State::Win);
    assert_eq!((p1.score, p2.score), (0, 0));
    assert_eq!(acts, vec![tone(440), pause(1000), tone(0)]);

    let mut p1 = paddle(5, 50, 3);
    let mut p2 = paddle(121, 20, 9);
    let mut b = ball(2, 2, -1, 1);
    let mut st = State::Play;
    let (_, goes_on) = handle_play(&mut p1, &mut p2, &mut b, &mut st);
    assert!(!goes_on);
    assert_eq!(st, State::Lose);
    assert_eq!((p1.score, p2.score), (0, 0));
}

#[test]
fn end_screens() {
    let mut st = State::Win;
    let acts = handle_win(&mut st);
    assert_eq!(st, State::Title);
    assert_eq!(acts[..3], [call(Syscall::DisplayClear), text(41, 35, "YOU WIN!"), call(Syscall::DisplayUpdate)]);
    assert_eq!(acts[3..], play_gameover_tone()[..]);
    let mut st = State::Lose;
    let acts = handle_lose(&mut st);
    assert_eq!(st, State::Title);
    assert_eq!(acts[1], text(34, 35, "YOU LOSE!"));
    assert_eq!(acts.len(), 15);
}

#[test]
fn frames_of_a_game() {
    let mut w = Pong::new();
    let none = only(false, false, false);
    let acts = game(&mut w, none);
    assert_eq!(acts.len(), 6);
    assert_eq!(acts[5], pause(15));
    assert_eq!(w.field().state, State::Launch);

    let acts = game(&mut w, only(false, false, true));
    assert_eq!(w.field().state, State::Play);
    assert_eq!(*acts.last().unwrap(), pause(15));

    // A play frame stops after the rally; the next call reads the controls.
    let acts = game(&mut w, none);
    assert!(acts.is_empty());
    let f = w.field();
    assert!(f.controls_pending);
    assert_eq!(f.ball, ball(10, 26, 1, 1));
    assert_eq!(f.p2.y, 21);
    let acts = game(&mut w, only(true, false, false));
    let f = w.field();
    assert!(!f.controls_pending);
    assert_eq!(f.p1.y, 18);
    let mut expected = screen(&f.p1, &f.p2, &f.ball);
    expected.push(pause(15));
    assert_eq!(acts, expected);
}

fn in_bounds(f: &Field) -> bool {
    f.p1.x == 5
        && f.p2.x == 121
        && (1..=53).contains(&f.p1.y)
        && (-6..=61).contains(&f.p2.y)
        && f.p1.score < 10
        && f.p2.score < 10
        && (1..=125).contains(&f.ball.x)
        && (-1..=65).contains(&f.ball.y)
        && (f.ball.xdir == 1 || f.ball.xdir == -1)
        && (f.ball.ydir == 1 || f.ball.ydir == -1)
}

#[test]
fn long_games_stay_in_bounds() {
    let mut w = Pong::new();
    let mut seed: u32 = 12345;
    let mut states = [0usize; 5];
    for _ in 0..200_000 {
        seed = seed.wrapping_mul(1_103_515_245).wrapping_add(12345);
        let r = seed >> 16;
        let bt = Buttons {
            a: r & 1 != 0,
            b: r & 2 != 0,
            up: r & 4 != 0,
            down: r & 8 != 0,
            left: false,
            right: false,
        };
        game(&mut w, bt);
        let f = w.field();
        assert!(in_bounds(&f), "{:?}", f);
        states[match f.state {
            State::Title => 0,
            State::Launch => 1,
            State::Play => 2,
            State::Win => 3,
            State::Lose => 4,
        }] += 1;
    }
    assert!(states[..3].iter().all(|&n| n > 0) && states[3] + states[4] > 0, "{:?}", states);
}
