//! The menu's navigation state machine.
use vstd::prelude::*;

verus! {

/// The screen that is currently shown.
#[derive(Debug, Clone, Copy, PartialEq, Eq, Structural)]
pub enum Screen {
    Main,
    TodoList,
    Calendar,
    Obsidian,
    WorkingOutPad,
    Configuration,
}

/// A key press, as far as the state machine tells keys apart.
#[derive(Debug, Clone, Copy, PartialEq, Eq, Structural)]
pub enum Key {
    Char(char),
    Esc,
    Up,
    Down,
    Enter,
    Other,
}

/// One input event handed to the state machine.
#[derive(Debug, Clone, Copy, PartialEq, Eq, Structural)]
pub enum Input {
    Key(Key),
    Mouse,
    Resize(u16, u16),
    FocusGained,
    FocusLost,
    Paste,
}

/// What the event loop does after an input was handled.
#[derive(Debug, Clone, Copy, PartialEq, Eq, Structural)]
pub enum Flow {
    Continue,
    Quit,
}

/// The most entries a menu can have: one for each screen besides the main one.
pub const MAX_ENTRIES: usize = 5;

/// The screen that the menu entry at `index` opens.
pub open spec fn screen_for(index: int) -> Screen {
    if index == 0 {
        Screen::TodoList
    } else if index == 1 {
        Screen::Calendar
    } else if index == 2 {
        Screen::Obsidian
    } else if index == 3 {
        Screen::WorkingOutPad
    } else if index == 4 {
        Screen::Configuration
    } else {
        Screen::Main
    }
}

/// The selection after moving down once among `count` entries.
pub open spec fn next_index(i: int, count: int) -> int {
    (i + 1) % count
}

/// The selection after moving up once among `count` entries.
pub open spec fn previous_index(i: int, count: int) -> int {
    (i - 1 + count) % count
}

/// The navigation state as a value: screen, selection and entry count.
pub struct NavState {
    pub screen: Screen,
    pub selected: int,
    pub count: int,
}

/// Whether `k` is a key that moves the selection down.
pub open spec fn is_down(k: Key) -> bool {
    k == Key::Down || k == Key::Char('j')
}

/// Whether `k` is a key that moves the selection up.
pub open spec fn is_up(k: Key) -> bool {
    k == Key::Up || k == Key::Char('k')
}

/// Whether `k` quits from the main screen and goes back from a sub-screen.
pub open spec fn is_quit(k: Key) -> bool {
    k == Key::Esc || k == Key::Char('q')
}

/// Whether `k` is the dedicated key that returns to the main screen.
pub open spec fn is_home(k: Key) -> bool {
    k == Key::Char('h')
}

/// The state and flow that follow `s` on input `input`.
pub open spec fn step(s: NavState, input: Input) -> (NavState, Flow) {
    match input {
        Input::Key(k) => {
            if s.screen == Screen::Main {
                if is_quit(k) {
                    (s, Flow::Quit)
                } else if is_down(k) {
                    (NavState { selected: next_index(s.selected, s.count), ..s }, Flow::Continue)
                } else if is_up(k) {
                    (NavState { selected: previous_index(s.selected, s.count), ..s }, Flow::Continue)
                } else if k == Key::Enter {
                    (NavState { screen: screen_for(s.selected), ..s }, Flow::Continue)
                } else if is_home(k) {
                    (NavState { screen: Screen::Main, ..s }, Flow::Continue)
                } else {
                    (s, Flow::Continue)
                }
            } else if is_quit(k) || is_home(k) {
                (NavState { screen: Screen::Main, ..s }, Flow::Continue)
            } else {
                (s, Flow::Continue)
            }
        },
        _ => (s, Flow::Continue),
    }
}

/// The menu: its entries, the selected entry and the screen shown.
pub struct App {
    menu_items: Vec<String>,
    selected: usize,
    screen: Screen,
}

impl App {
    /// The state as a value.
    pub closed spec fn state(&self) -> NavState {
        NavState {
            screen: self.screen,
            selected: self.selected as int,
            count: self.menu_items.len() as int,
        }
    }

    /// At least one entry, and the selection is one of them.
    pub closed spec fn wf(&self) -> bool {
        &&& self.menu_items.len() >= 1
        &&& self.menu_items.len() <= MAX_ENTRIES
        &&& self.selected < self.menu_items.len()
    }

    /// The labels of the entries.
    pub closed spec fn items(&self) -> Seq<Seq<char>> {
        self.menu_items@.map_values(|s: String| s@)
    }

    /// The menu with its four default entries, on the main screen, the first
    /// entry selected.
    pub fn new() -> (r: App)
        ensures
            r.wf(),
            valid(r.state()),
            r.state().count == r.items().len(),
            r.items() == seq!["🐄  TODO list"@, "⚡  Calendar"@, "🚀  Obsidian"@, "🦐  Working out Pad"@],
            r.state().selected == 0,
            r.state().screen == Screen::Main,
    {
        let menu_items = vec![
            "🐄  TODO list".to_owned(),
            "⚡  Calendar".to_owned(),
            "🚀  Obsidian".to_owned(),
            "🦐  Working out Pad".to_owned(),
        ];
        let r = App { menu_items, selected: 0, screen: Screen::Main };
        assert(r.items() =~= seq!["🐄  TODO list"@, "⚡  Calendar"@, "🚀  Obsidian"@, "🦐  Working out Pad"@]);
        r
    }

    /// A menu over `entries`, on the main screen with the first entry selected;
    /// `None` when there are no entries, or more entries than screens to open.
    pub fn with_entries(entries: Vec<String>) -> (r: Option<App>)
        ensures
            (entries.len() == 0 || entries.len() > MAX_ENTRIES) <==> r is None,
            r matches Some(a) ==> {
                &&& a.wf()
                &&& valid(a.state())
                &&& a.state().count == a.items().len()
                &&& a.items() == entries@.map_values(|e: String| e@)
                &&& a.state().selected == 0
                &&& a.state().screen == Screen::Main
            },
    {
        if entries.len() == 0 || entries.len() > MAX_ENTRIES {
            None
        } else {
            Some(App { menu_items: entries, selected: 0, screen: Screen::Main })
        }
    }

    /// The labels of the entries.
    pub fn menu_items(&self) -> (r: &Vec<String>)
        ensures
            r@.map_values(|e: String| e@) == self.items(),
    {
        &self.menu_items
    }

    /// The index of the selected entry.
    pub fn selected(&self) -> (r: usize)
        ensures
            r == self.state().selected,
    {
        self.selected
    }

    /// The screen shown.
    pub fn screen(&self) -> (r: Screen)
        ensures
            r == self.state().screen,
    {
        self.screen
    }

    /// Moves the selection down, from the last entry to the first.
    pub fn next(&mut self)
        requires
            old(self).wf(),
        ensures
            final(self).wf(),
            valid(final(self).state()),
            final(self).state().count == final(self).items().len(),
            final(self).state() == (NavState {
                selected: next_index(old(self).state().selected, old(self).state().count),
                ..old(self).state()
            }),
            final(self).items() == old(self).items(),
    {
        self.selected = (self.selected + 1) % self.menu_items.len();
    }

    /// Moves the selection up, from the first entry to the last.
    pub fn previous(&mut self)
        requires
            old(self).wf(),
        ensures
            final(self).wf(),
            valid(final(self).state()),
            final(self).state().count == final(self).items().len(),
            final(self).state() == (NavState {
                selected: previous_index(old(self).state().selected, old(self).state().count),
                ..old(self).state()
            }),
            final(self).items() == old(self).items(),
    {
        let ghost n = self.menu_items.len() as int;
        let ghost i = self.selected as int;
        if self.selected == 0 {
            self.selected = self.menu_items.len() - 1;
            assert((i - 1 + n) % n == n - 1) by {
                vstd::arithmetic::div_mod::lemma_small_mod((n - 1) as nat, n as nat);
            }
        } else {
            self.selected -= 1;
            assert((i - 1 + n) % n == i - 1) by {
                vstd::arithmetic::div_mod::lemma_mod_add_multiples_vanish(i - 1, n);
                vstd::arithmetic::div_mod::lemma_small_mod((i - 1) as nat, n as nat);
            }
        }
    }

    /// Opens the screen of the selected entry; the selection is kept.
    pub fn open_selected(&mut self)
        requires
            old(self).wf(),
        ensures
            final(self).wf(),
            valid(final(self).state()),
            final(self).state().count == final(self).items().len(),
            final(self).state() == (NavState { screen: screen_for(old(self).state().selected), ..old(self).state() }),
            final(self).state().screen != Screen::Main,
            final(self).items() == old(self).items(),
    {
        self.screen = match self.selected {
            0 => Screen::TodoList,
            1 => Screen::Calendar,
            2 => Screen::Obsidian,
            3 => Screen::WorkingOutPad,
            4 => Screen::Configuration,
            _ => Screen::Main,
        };
    }

    /// Returns to the main screen; the selection is kept.
    pub fn back_to_main(&mut self)
        requires
            old(self).wf(),
        ensures
            final(self).wf(),
            valid(final(self).state()),
            final(self).state().count == final(self).items().len(),
            final(self).state() == (NavState { screen: Screen::Main, ..old(self).state() }),
            final(self).items() == old(self).items(),
    {
        self.screen = Screen::Main;
    }

    /// Applies one input and tells the event loop whether to go on.
    pub fn handle_input(&mut self, input: Input) -> (r: Flow)
        requires
            old(self).wf(),
        ensures
            final(self).wf(),
            valid(final(self).state()),
            final(self).state().count == final(self).items().len(),
            (final(self).state(), r) == step(old(self).state(), input),
            final(self).items() == old(self).items(),
    {
        match input {
            Input::Key(k) => {
                let main = match self.screen {
                    Screen::Main => true,
                    _ => false,
                };
                let quit = match k {
                    Key::Esc | Key::Char('q') => true,
                    _ => false,
                };
                let home = match k {
                    Key::Char('h') => true,
                    _ => false,
                };
                if main {
                    match k {
                        Key::Esc | Key::Char('q') => Flow::Quit,
                        Key::Down | Key::Char('j') => {
                            self.next();
                            Flow::Continue
                        },
                        Key::Up | Key::Char('k') => {
                            self.previous();
                            Flow::Continue
                        },
                        Key::Enter => {
                            self.open_selected();
                            Flow::Continue
                        },
                        _ => Flow::Continue,
                    }
                } else {
                    if quit || home {
                        self.back_to_main();
                    }
                    Flow::Continue
                }
            },
            _ => Flow::Continue,
        }
    }
}

/// Whether `s` is a state the menu can be in: at least one entry, no more
/// entries than screens, and the selection is one of them.
pub open spec fn valid(s: NavState) -> bool {
    1 <= s.count <= MAX_ENTRIES && 0 <= s.selected < s.count
}

/// The selection after moving down `k` times from `i` among `count` entries.
pub open spec fn next_times(i: int, count: int, k: nat) -> int
    decreases k,
{
    if k == 0 {
        i
    } else {
        next_index(next_times(i, count, (k - 1) as nat), count)
    }
}

/// The selection after moving up `k` times from `i` among `count` entries.
pub open spec fn previous_times(i: int, count: int, k: nat) -> int
    decreases k,
{
    if k == 0 {
        i
    } else {
        previous_index(previous_times(i, count, (k - 1) as nat), count)
    }
}

proof fn lemma_next_times_mod(i: int, count: int, k: nat)
    requires
        count >= 1,
        0 <= i < count,
    ensures
        next_times(i, count, k) == (i + k) % count,
    decreases k,
{
    if k == 0 {
        vstd::arithmetic::div_mod::lemma_small_mod(i as nat, count as nat);
    } else {
        lemma_next_times_mod(i, count, (k - 1) as nat);
        vstd::arithmetic::div_mod::lemma_add_mod_noop(i + k - 1, 1, count);
        if count == 1 {
            assert((i + k) % 1 == 0);
            assert(((i + k - 1) % 1 + 1) % 1 == 0);
        } else {
            vstd::arithmetic::div_mod::lemma_small_mod(1, count as nat);
        }
    }
}

proof fn lemma_previous_times_mod(i: int, count: int, k: nat)
    requires
        count >= 1,
        0 <= i < count,
    ensures
        previous_times(i, count, k) == (i - k) % count,
    decreases k,
{
    if k == 0 {
        vstd::arithmetic::div_mod::lemma_small_mod(i as nat, count as nat);
    } else {
        lemma_previous_times_mod(i, count, (k - 1) as nat);
        let a = i - (k - 1);
        vstd::arithmetic::div_mod::lemma_add_mod_noop(a, count - 1, count);
        vstd::arithmetic::div_mod::lemma_mod_twice(a + count - 1, count);
        vstd::arithmetic::div_mod::lemma_mod_add_multiples_vanish(a - 1, count);
        if count == 1 {
            assert((count - 1) % count == 0);
        } else {
            vstd::arithmetic::div_mod::lemma_small_mod((count - 1) as nat, count as nat);
        }
        vstd::arithmetic::div_mod::lemma_add_mod_noop(a % count, -1 + count, count);
    }
}

/// Moving down as many times as there are entries brings the selection back
/// to where it started, and so does moving up as many times.
pub proof fn lemma_selection_cycles(count: int, selected: int)
    requires
        count >= 1,
        0 <= selected < count,
    ensures
        next_times(selected, count, count as nat) == selected,
        previous_times(selected, count, count as nat) == selected,
{
    lemma_next_times_mod(selected, count, count as nat);
    lemma_previous_times_mod(selected, count, count as nat);
    vstd::arithmetic::div_mod::lemma_mod_add_multiples_vanish(selected, count);
    vstd::arithmetic::div_mod::lemma_mod_sub_multiples_vanish(selected, count);
    vstd::arithmetic::div_mod::lemma_small_mod(selected as nat, count as nat);
}

/// From the main screen, activating the entry at `selected` opens the screen
/// mapped to it and keeps the selection; going back from there, by the quit
/// keys or the home key, shows the main screen with the same selection.
pub proof fn lemma_open_then_return(s: NavState)
    requires
        valid(s),
        s.screen == Screen::Main,
    ensures
        ({
            let opened = step(s, Input::Key(Key::Enter));
            &&& opened.1 == Flow::Continue
            &&& opened.0 == (NavState { screen: screen_for(s.selected), ..s })
            &&& opened.0.screen != Screen::Main
            &&& step(opened.0, Input::Key(Key::Esc)) == (s, Flow::Continue)
            &&& step(opened.0, Input::Key(Key::Char('q'))) == (s, Flow::Continue)
            &&& step(opened.0, Input::Key(Key::Char('h'))) == (s, Flow::Continue)
        }),
{
}

/// Distinct entries of a menu open distinct screens, none of them the main one.
pub proof fn lemma_entries_open_distinct_screens(i: int, j: int)
    requires
        0 <= i < MAX_ENTRIES,
        0 <= j < MAX_ENTRIES,
        i != j,
    ensures
        screen_for(i) != Screen::Main,
        screen_for(i) != screen_for(j),
{
}

impl App {
    /// What a well-formed menu's state satisfies.
    pub proof fn lemma_wf_state(&self)
        requires
            self.wf(),
        ensures
            valid(self.state()),
            self.state().count == self.items().len(),
    {
    }
}

} // verus!
