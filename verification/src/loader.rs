//! The game menu: which directory entries are games, and how the buttons move
//! through them.
use vstd::prelude::*;
use crate::action::{
    clear, effects, pause, pause_action, push_action, show, text, text_action, tone, tone_action,
    Action, Buttons, Effect,
};
use crate::syscall::{Call, Syscall};
use vstd::string::StringSliceAdditionalSpecFns;

verus! {

/// Games the menu offers at most: the capacity of its list.
pub const MAX_GAMES: usize = 8;

#[verifier::external_type_specification]
#[verifier::external_body]
#[verifier::reject_recursive_types(T)]
pub struct ExHeaplessVec<T, const N: usize>(heapless::Vec<T, N>);

/// The list of games: positions of directory entries.
pub type GameList = heapless::Vec<usize, 8>;

/// The directory positions that a game list holds, in order.
pub uninterp spec fn listed(list: heapless::Vec<usize, 8>) -> Seq<usize>;

/// `heapless::Vec::new`: an empty list.
#[verifier::external_body]
fn list_new() -> (list: GameList)
    ensures
        listed(list) == Seq::<usize>::empty(),
{
    heapless::Vec::new()
}

/// `heapless::Vec::push`: appends `entry` and returns `Ok` when the list holds fewer
/// than eight entries; otherwise leaves the list as it was and hands `entry` back.
#[verifier::external_body]
fn list_push(list: &mut GameList, entry: usize) -> (r: Result<(), usize>)
    requires
        listed(*old(list)).len() <= MAX_GAMES,
    ensures
        r is Ok <==> listed(*old(list)).len() < MAX_GAMES,
        r is Ok ==> listed(*final(list)) == listed(*old(list)).push(entry),
        r matches Err(e) ==> e == entry && listed(*final(list)) == listed(*old(list)),
{
    list.push(entry)
}

/// The list's length (through `Deref` to a slice): the number of entries it holds,
/// never more than its capacity.
#[verifier::external_body]
fn list_len(list: &GameList) -> (n: usize)
    ensures
        n == listed(*list).len(),
        n <= MAX_GAMES,
{
    list.len()
}

/// Indexing the list (through `Deref` to a slice): the entry at position `i`.
#[verifier::external_body]
fn list_get(list: &GameList, i: usize) -> (entry: usize)
    requires
        i < listed(*list).len(),
    ensures
        entry == listed(*list)[i as int],
{
    list[i]
}

/// The games in a directory of `entry_count` entries: every entry after the first
/// (the volume's own name), as many as the list holds.
pub open spec fn games_in(entry_count: nat) -> Seq<usize> {
    let n = if entry_count == 0 {
        0
    } else if entry_count - 1 <= MAX_GAMES {
        entry_count - 1
    } else {
        MAX_GAMES as int
    };
    Seq::new(n as nat, |i: int| (i + 1) as usize)
}

/// The game list of a directory with `entry_count` entries, met in order: the first
/// entry is skipped, the others are pushed, and those that do not fit are dropped.
pub fn get_game_list(entry_count: usize) -> (list: GameList)
    ensures
        listed(list) == games_in(entry_count as nat),
{
    let mut list = list_new();
    let mut start = false;
    let mut pos: usize = 0;
    while pos < entry_count
        invariant
            pos <= entry_count,
            start == (pos > 0),
            listed(list) == games_in(pos as nat),
        decreases entry_count - pos,
    {
        if start {
            let _ = list_push(&mut list, pos);
        }
        start = true;
        pos = pos + 1;
        assert(listed(list) =~= games_in(pos as nat));
    }
    list
}

/// Buttons that end the wait on the menu screen: left, right and A.
pub open spec fn menu_buttons() -> Buttons {
    Buttons { a: true, b: false, up: false, down: false, left: true, right: true }
}

/// The menu screen: the game's name between arrows, then a wait for left, right or A.
pub open spec fn menu_screen(name: Seq<u8>) -> Seq<Effect> {
    seq![
        clear(),
        text(20, 35, "<".spec_bytes()),
        text(50, 35, name),
        text(100, 35, ">".spec_bytes()),
        show(),
        Effect::WaitForAny(menu_buttons()),
    ]
}

/// Draws the menu screen for the game named `name` and waits for a choice.
pub fn title_screen(name: &[u8]) -> (acts: Vec<Action>)
    ensures
        effects(acts@) == menu_screen(name@),
{
    let mut acts: Vec<Action> = Vec::new();
    push_action(&mut acts, Action::Call(Syscall::DisplayClear));
    push_action(&mut acts, text_action(20, 35, "<"));
    push_action(
        &mut acts,
        Action::Call(Syscall::DisplayPrint { x: 50, y: 35, text: vstd::slice::slice_to_vec(name) }),
    );
    push_action(&mut acts, text_action(100, 35, ">"));
    push_action(&mut acts, Action::Call(Syscall::DisplayUpdate));
    push_action(
        &mut acts,
        Action::WaitForAny(
            Buttons { a: true, b: false, up: false, down: false, left: true, right: true },
        ),
    );
    assert(effects(acts@) =~= menu_screen(name@));
    acts
}

/// One game to the left, from the first to the last.
pub open spec fn to_left(i: int, n: int) -> int {
    if i > 0 {
        i - 1
    } else {
        n - 1
    }
}

/// One game to the right, from the last to the first.
pub open spec fn to_right(i: int, n: int) -> int {
    if i < n - 1 {
        i + 1
    } else {
        0
    }
}

/// The selection after a choice: left is applied, then right.
pub open spec fn menu_next(i: int, n: int, bt: Buttons) -> int {
    let j = if bt.left {
        to_left(i, n)
    } else {
        i
    };
    if bt.right {
        to_right(j, n)
    } else {
        j
    }
}

/// The effects of a choice: with A, load the game at directory position `entry`,
/// beep for a second and start it; then, in any case, pause 300 milliseconds.
pub open spec fn choice_effects(entry: usize, bt: Buttons) -> Seq<Effect> {
    if bt.a {
        seq![Effect::LoadGame(entry), tone(440), pause(1000), tone(0), Effect::StartGame, pause(300)]
    } else {
        seq![pause(300)]
    }
}

/// A menu over a non-empty game list, and the game selected.
pub struct MenuView {
    pub games: Seq<usize>,
    pub idx: int,
}

/// The game menu.
pub struct Menu {
    list: GameList,
    idx: usize,
}

impl Menu {
    #[verifier::type_invariant]
    spec fn selects_a_game(self) -> bool {
        self.idx < listed(self.list).len()
    }

    /// A menu on the first game of `list`; none when the list is empty.
    pub fn new(list: GameList) -> (m: Option<Menu>)
        ensures
            m is Some <==> listed(list).len() > 0,
            m matches Some(m) ==> m@.games == listed(list) && m@.idx == 0,
    {
        if list_len(&list) > 0 {
            Some(Menu { list, idx: 0 })
        } else {
            None
        }
    }

    /// The directory position of the selected game.
    pub fn current_entry(&self) -> (entry: usize)
        ensures
            0 <= self@.idx < self@.games.len(),
            entry == self@.games[self@.idx],
    {
        proof {
            use_type_invariant(self);
        }
        list_get(&self.list, self.idx)
    }

    /// The selected game's place in the list.
    pub fn index(&self) -> (i: usize)
        ensures
            i == self@.idx,
    {
        self.idx
    }

    /// Acts on the buttons read after the menu screen's wait: left and right move
    /// the selection (wrapping around), A loads the selected game, beeps for a
    /// second and starts it; then the menu pauses 300 milliseconds.
    pub fn handle_choice(&mut self, buttons: Buttons) -> (acts: Vec<Action>)
        ensures
            final(self)@.games == old(self)@.games,
            final(self)@.idx == menu_next(old(self)@.idx, old(self)@.games.len() as int, buttons),
            0 <= final(self)@.idx < final(self)@.games.len(),
            effects(acts@) == choice_effects(final(self)@.games[final(self)@.idx], buttons),
    {
        proof {
            use_type_invariant(&*self);
        }
        let num_games = list_len(&self.list);
        let mut idx = self.idx;
        if buttons.left {
            if idx > 0 {
                idx -= 1;
            } else {
                idx = num_games - 1;
            }
        }
        if buttons.right {
            if idx < num_games - 1 {
                idx += 1;
            } else {
                idx = 0;
            }
        }
        self.idx = idx;
        let mut acts: Vec<Action> = Vec::new();
        if buttons.a {
            push_action(&mut acts, Action::LoadGame(list_get(&self.list, idx)));
            push_action(&mut acts, tone_action(440));
            push_action(&mut acts, pause_action(1000));
            push_action(&mut acts, tone_action(0));
            push_action(&mut acts, Action::StartGame);
        }
        push_action(&mut acts, pause_action(300));
        assert(effects(acts@) =~= choice_effects(listed(self.list)[idx as int], buttons));
        acts
    }
}

impl View for Menu {
    type V = MenuView;

    closed spec fn view(&self) -> MenuView {
        MenuView { games: listed(self.list), idx: self.idx as int }
    }
}

/// Left then right, or right then left, comes back to the same game.
pub proof fn lemma_left_right_undo(i: int, n: int)
    requires
        0 <= i < n,
    ensures
        to_right(to_left(i, n), n) == i,
        to_left(to_right(i, n), n) == i,
{
}

/// The selection always stays on a listed game.
pub proof fn lemma_selection_stays_listed(i: int, n: int, bt: Buttons)
    requires
        0 <= i < n,
    ensures
        0 <= menu_next(i, n, bt) < n,
{
}

/// Holding left and right together keeps the selection.
pub proof fn lemma_left_and_right_cancel(i: int, n: int, bt: Buttons)
    requires
        0 <= i < n,
        bt.left,
        bt.right,
    ensures
        menu_next(i, n, bt) == i,
{
}

/// The game list of a directory: nothing for an empty directory, and otherwise the
/// entries 1, 2, ... after the volume's name, as many as there are up to eight.
/// A card with its name and one game lists exactly that game.
pub proof fn law_game_list(entry_count: nat)
    ensures
        entry_count == 0 ==> games_in(entry_count).len() == 0,
        entry_count >= 1 && entry_count - 1 <= 8 ==> games_in(entry_count).len() == entry_count
            - 1,
        entry_count > 9 ==> games_in(entry_count).len() == 8,
        forall|i: int| 0 <= i < games_in(entry_count).len() ==> #[trigger] games_in(entry_count)[i] == i + 1,
        games_in(2) =~= seq![1usize],
{
}

/// The menu screen clears the frame buffer first, draws "<" at (20, 35), the name
/// at (50, 35) and ">" at (100, 35), shows that once, with no clear after it, and
/// then waits for A, left or right.
pub proof fn law_menu_screen(name: Seq<u8>)
    ensures
        menu_screen(name).len() == 6,
        menu_screen(name)[0] == Effect::Call(Call::DisplayClear),
        menu_screen(name)[1] == Effect::Call(
            Call::DisplayPrint { x: 20, y: 35, text: "<".spec_bytes() },
        ),
        menu_screen(name)[2] == Effect::Call(Call::DisplayPrint { x: 50, y: 35, text: name }),
        menu_screen(name)[3] == Effect::Call(
            Call::DisplayPrint { x: 100, y: 35, text: ">".spec_bytes() },
        ),
        menu_screen(name)[4] == Effect::Call(Call::DisplayUpdate),
        forall|i: int|
            0 <= i < 6 && i != 4 ==> menu_screen(name)[i] != Effect::Call(Call::DisplayUpdate),
        forall|i: int|
            0 < i < 6 ==> menu_screen(name)[i] != Effect::Call(Call::DisplayClear),
        menu_screen(name)[5] == Effect::WaitForAny(
            Buttons { a: true, b: false, up: false, down: false, left: true, right: true },
        ),
{
}

/// Left alone moves the selection one game back, from the first to the last; right
/// alone one game on, from the last to the first; neither keeps it.
pub proof fn law_menu_moves(i: int, n: int, bt: Buttons)
    requires
        0 <= i < n,
    ensures
        !bt.left && !bt.right ==> menu_next(i, n, bt) == i,
        bt.left && !bt.right && i > 0 ==> menu_next(i, n, bt) == i - 1,
        bt.left && !bt.right && i == 0 ==> menu_next(i, n, bt) == n - 1,
        !bt.left && bt.right && i < n - 1 ==> menu_next(i, n, bt) == i + 1,
        !bt.left && bt.right && i == n - 1 ==> menu_next(i, n, bt) == 0,
{
}

/// A choice with A loads the selected game before starting it, beeping 440 Hz for
/// a second in between, and every choice ends with a 300 ms pause; without A it is
/// only that pause.
pub proof fn law_choice(entry: usize, bt: Buttons)
    ensures
        bt.a ==> choice_effects(entry, bt) =~= seq![
            Effect::LoadGame(entry),
            Effect::Call(Call::PlayTone { freq: 440 }),
            Effect::Call(Call::Delay { ms: 1000 }),
            Effect::Call(Call::PlayTone { freq: 0 }),
            Effect::StartGame,
            Effect::Call(Call::Delay { ms: 300 }),
        ],
        !bt.a ==> choice_effects(entry, bt) =~= seq![Effect::Call(Call::Delay { ms: 300 })],
{
}

} // verus!
