use rustngo::action::{Action, Buttons};
use rustngo::cool_game::{game, CoolGame};
use rustngo::loader::{get_game_list, title_screen, Menu};
use rustngo::syscall::Syscall;

fn pressing(a: bool, left: bool, right: bool) -> Buttons {
    Buttons { a, b: false, up: false, down: false, left, right }
}

fn caption(t: &str) -> Action {
    Action::Call(Syscall::DisplayPrint { x: 10, y: 10, text: t.as_bytes().to_vec() })
}

#[test]
fn demo_rolls_with_a() {
    let mut g = CoolGame::new();
    assert_eq!(g, CoolGame { x: 10, won: false });
    let acts = game(&mut g, pressing(true, false, false));
    assert_eq!(g.x, 11);
    assert_eq!(
        acts,
        vec![
            Action::Call(Syscall::DisplayClear),
            Action::Call(Syscall::DisplayDrawCircle { x: 11, y: 20, d: 5, fill: true }),
            caption("Cool Game"),
            Action::Call(Syscall::DisplayUpdate),
            Action::Call(Syscall::Delay { ms: 100 }),
        ]
    );
    game(&mut g, pressing(false, false, false));
    assert_eq!(g.x, 11);
}

#[test]
fn demo_beeps_once_on_winning() {
    let mut g = CoolGame { x: 98, won: false };
    let acts = game(&mut g, pressing(true, false, false));
    assert!(!g.won);
    assert_eq!(acts.len(), 5);
    let acts = game(&mut g, pressing(true, false, false));
    assert!(g.won);
    assert_eq!(acts[0], Action::Call(Syscall::PlayTone { freq: 440 }));
    assert_eq!(acts[3], caption("You Won :D"));
    for _ in 0..50 {
        let acts = game(&mut g, pressing(true, false, false));
        assert!(g.won);
        assert_eq!(acts.len(), 5);
        assert_eq!(acts[2], caption("You Won :D"));
    }
}

#[test]
fn game_list_skips_the_volume_and_keeps_eight() {
    let m = Menu::new(get_game_list(0));
    assert!(m.is_none());
    assert!(Menu::new(get_game_list(1)).is_none());
    let m = Menu::new(get_game_list(4)).unwrap();
    assert_eq!(m.current_entry(), 1);
    let m = Menu::new(get_game_list(30)).unwrap();
    assert_eq!(m.index(), 0);
}

#[test]
fn menu_wraps_around() {
    let mut m = Menu::new(get_game_list(4)).unwrap();
    // entries 1, 2, 3
    let acts = m.handle_choice(pressing(false, true, false));
    assert_eq!(acts, vec![Action::Call(Syscall::Delay { ms: 300 })]);
    assert_eq!((m.index(), m.current_entry()), (2, 3));
    m.handle_choice(pressing(false, false, true));
    assert_eq!(m.current_entry(), 1);
    m.handle_choice(pressing(false, false, true));
    assert_eq!(m.current_entry(), 2);
    m.handle_choice(pressing(false, true, true));
    assert_eq!(m.current_entry(), 2);
    m.handle_choice(pressing(false, true, false));
    m.handle_choice(pressing(false, false, true));
    assert_eq!(m.current_entry(), 2);
}

#[test]
fn menu_holds_at_most_eight_games() {
    let mut m = Menu::new(get_game_list(20)).unwrap();
    m.handle_choice(pressing(false, true, false));
    assert_eq!((m.index(), m.current_entry()), (7, 8));
}

#[test]
fn choosing_a_game_loads_and_starts_it() {
    let mut m = Menu::new(get_game_list(5)).unwrap();
    let acts = m.handle_choice(pressing(true, false, true));
    assert_eq!(
        acts,
        vec![
            Action::LoadGame(2),
            Action::Call(Syscall::PlayTone { freq: 440 }),
            Action::Call(Syscall::Delay { ms: 1000 }),
            Action::Call(Syscall::PlayTone { freq: 0 }),
            Action::StartGame,
            Action::Call(Syscall::Delay { ms: 300 }),
        ]
    );
}

#[test]
fn menu_screen_shows_the_name() {
    let acts = title_screen(b"PONG");
    assert_eq!(acts.len(), 6);
    assert_eq!(acts[2], Action::Call(Syscall::DisplayPrint { x: 50, y: 35, text: b"PONG".to_vec() }));
    assert_eq!(acts[1], Action::Call(Syscall::DisplayPrint { x: 20, y: 35, text: b"<".to_vec() }));
    assert_eq!(acts[3], Action::Call(Syscall::DisplayPrint { x: 100, y: 35, text: b">".to_vec() }));
    assert_eq!(
        acts[5],
        Action::WaitForAny(Buttons { a: true, b: false, up: false, down: false, left: true, right: true })
    );
}
