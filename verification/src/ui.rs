//! The pure part of the user interface: menu items and the state machine
//! that maps key presses to scheduler commands and focus changes.
//!
//! Reading the terminal and drawing are the caller's concern; this module
//! only decides, from a reduced key press and the current state, what
//! happens next.

use vstd::prelude::*;
use crate::timer::Timer;

verus! {

/// Items of the top navigation bar, in display order.
#[derive(Clone, Copy, PartialEq, Eq, Structural, Debug)]
pub enum MenuItem {
    Start,
    Pause,
    Skip,
    Reset,
    Help,
    Exit,
}

impl MenuItem {
    /// All menu items in display order.
    pub open spec fn spec_all() -> Seq<MenuItem> {
        seq![
            MenuItem::Start,
            MenuItem::Pause,
            MenuItem::Skip,
            MenuItem::Reset,
            MenuItem::Help,
            MenuItem::Exit,
        ]
    }

    /// Get all menu items in order.
    pub fn all() -> (items: Vec<MenuItem>)
        ensures
            items@ == MenuItem::spec_all(),
    {
        let items = vec![
            MenuItem::Start,
            MenuItem::Pause,
            MenuItem::Skip,
            MenuItem::Reset,
            MenuItem::Help,
            MenuItem::Exit,
        ];
        proof {
            assert(items@ =~= MenuItem::spec_all());
        }
        items
    }

    /// The display text for the menu item.
    pub fn display_text(&self) -> (r: &'static str)
        ensures
            *self is Start ==> r@ == "Start"@,
            *self is Pause ==> r@ == "Pause"@,
            *self is Skip ==> r@ == "Skip"@,
            *self is Reset ==> r@ == "Reset"@,
            *self is Help ==> r@ == "Help"@,
            *self is Exit ==> r@ == "Exit"@,
    {
        match self {
            MenuItem::Start => "Start",
            MenuItem::Pause => "Pause",
            MenuItem::Skip => "Skip",
            MenuItem::Reset => "Reset",
            MenuItem::Help => "Help",
            MenuItem::Exit => "Exit",
        }
    }

    /// The shortcut key for the menu item.
    pub fn shortcut(&self) -> (r: &'static str)
        ensures
            *self is Start ==> r@ == "Space"@,
            *self is Pause ==> r@ == "P"@,
            *self is Skip ==> r@ == "S"@,
            *self is Reset ==> r@ == "R"@,
            *self is Help ==> r@ == "H"@,
            *self is Exit ==> r@ == "Q"@,
    {
        match self {
            MenuItem::Start => "Space",
            MenuItem::Pause => "P",
            MenuItem::Skip => "S",
            MenuItem::Reset => "R",
            MenuItem::Help => "H",
            MenuItem::Exit => "Q",
        }
    }

    /// The item after this one in display order, wrapping around.
    pub open spec fn spec_next(self) -> MenuItem {
        match self {
            MenuItem::Start => MenuItem::Pause,
            MenuItem::Pause => MenuItem::Skip,
            MenuItem::Skip => MenuItem::Reset,
            MenuItem::Reset => MenuItem::Help,
            MenuItem::Help => MenuItem::Exit,
            MenuItem::Exit => MenuItem::Start,
        }
    }

    /// The item before this one in display order, wrapping around.
    pub open spec fn spec_prev(self) -> MenuItem {
        match self {
            MenuItem::Start => MenuItem::Exit,
            MenuItem::Pause => MenuItem::Start,
            MenuItem::Skip => MenuItem::Pause,
            MenuItem::Reset => MenuItem::Skip,
            MenuItem::Help => MenuItem::Reset,
            MenuItem::Exit => MenuItem::Help,
        }
    }
}

/// A key press, reduced to what the menu logic distinguishes.
#[derive(Clone, Copy, PartialEq, Eq, Structural, Debug)]
pub enum KeyInput {
    Tab,
    Left,
    Right,
    Enter,
    Escape,
    Character(char),
    Other,
}

/// The interface state the key handling works on: quit and help flags,
/// whether the clock is hidden, and the focused menu item.
#[derive(Clone, Copy, PartialEq, Eq, Structural, Debug)]
pub struct UiState {
    pub should_quit: bool,
    pub show_help: bool,
    pub hide_clock: bool,
    /// Currently focused menu item.
    pub focused_menu_item: MenuItem,
}

impl UiState {
    /// A fresh interface state: not quitting, help hidden, focus on Start.
    pub fn new(hide_clock: bool) -> (ui: UiState)
        ensures
            ui == (UiState {
                should_quit: false,
                show_help: false,
                hide_clock,
                focused_menu_item: MenuItem::Start,
            }),
    {
        UiState { should_quit: false, show_help: false, hide_clock, focused_menu_item: MenuItem::Start }
    }

    /// The focus after following the scheduler's run state: Start gives way
    /// to Pause while running, Pause gives way to Start otherwise.
    pub open spec fn spec_focus_for_timer(self, timer: Timer) -> UiState {
        if self.focused_menu_item is Start && timer.state is Running {
            UiState { focused_menu_item: MenuItem::Pause, ..self }
        } else if self.focused_menu_item is Pause && !(timer.state is Running) {
            UiState { focused_menu_item: MenuItem::Start, ..self }
        } else {
            self
        }
    }

    /// Follow the scheduler's run state with the focused menu item.
    pub fn update_focus_based_on_timer_state(&mut self, timer: &Timer)
        ensures
            *final(self) == old(self).spec_focus_for_timer(*timer),
    {
        match self.focused_menu_item {
            MenuItem::Start => {
                if timer.is_running() {
                    self.focused_menu_item = MenuItem::Pause;
                }
            },
            MenuItem::Pause => {
                if !timer.is_running() {
                    self.focused_menu_item = MenuItem::Start;
                }
            },
            _ => {},
        }
    }

    /// Move focus to the next menu item.
    pub fn next_menu_item(&mut self)
        ensures
            *final(self) == (UiState {
                focused_menu_item: old(self).focused_menu_item.spec_next(),
                ..*old(self)
            }),
    {
        self.focused_menu_item = match self.focused_menu_item {
            MenuItem::Start => MenuItem::Pause,
            MenuItem::Pause => MenuItem::Skip,
            MenuItem::Skip => MenuItem::Reset,
            MenuItem::Reset => MenuItem::Help,
            MenuItem::Help => MenuItem::Exit,
            MenuItem::Exit => MenuItem::Start,
        };
    }

    /// Move focus to the previous menu item.
    pub fn prev_menu_item(&mut self)
        ensures
            *final(self) == (UiState {
                focused_menu_item: old(self).focused_menu_item.spec_prev(),
                ..*old(self)
            }),
    {
        self.focused_menu_item = match self.focused_menu_item {
            MenuItem::Start => MenuItem::Exit,
            MenuItem::Pause => MenuItem::Start,
            MenuItem::Skip => MenuItem::Pause,
            MenuItem::Reset => MenuItem::Skip,
            MenuItem::Help => MenuItem::Reset,
            MenuItem::Exit => MenuItem::Help,
        };
    }

    /// The interface state, scheduler and quit signal after executing the
    /// focused menu item at `now_ms`.
    pub open spec fn spec_execute(self, t: Timer, now_ms: u64) -> (UiState, Timer, bool) {
        match self.focused_menu_item {
            MenuItem::Start => {
                if t.state is Stopped || t.state is Paused {
                    let t1 = t.spec_toggled(now_ms);
                    let ui1 = if t1.state is Running {
                        UiState { focused_menu_item: MenuItem::Pause, ..self }
                    } else {
                        self
                    };
                    (ui1, t1, false)
                } else {
                    (self, t, false)
                }
            },
            MenuItem::Pause => {
                if t.state is Running {
                    let t1 = t.spec_toggled(now_ms);
                    let ui1 = if t1.state is Paused {
                        UiState { focused_menu_item: MenuItem::Start, ..self }
                    } else {
                        self
                    };
                    (ui1, t1, false)
                } else {
                    (self, t, false)
                }
            },
            MenuItem::Skip => (
                UiState { focused_menu_item: MenuItem::Start, ..self },
                t.spec_completed(),
                false,
            ),
            MenuItem::Reset => (
                UiState { focused_menu_item: MenuItem::Start, ..self },
                t.spec_reset(),
                false,
            ),
            MenuItem::Help => (UiState { show_help: !self.show_help, ..self }, t, false),
            MenuItem::Exit => (UiState { should_quit: true, ..self }, t, true),
        }
    }

    /// Execute the currently focused menu item, driving the scheduler at
    /// `now_ms`. Returns whether the application should quit.
    pub fn execute_focused_item(&mut self, timer: &mut Timer, now_ms: u64) -> (quit: bool)
        requires
            old(timer).wf(),
            old(timer).current_session is Work ==> old(timer).pomodoros_completed < u32::MAX,
        ensures
            final(timer).wf(),
            (*final(self), *final(timer), quit) == old(self).spec_execute(*old(timer), now_ms),
    {
        match self.focused_menu_item {
            MenuItem::Start => {
                if timer.is_stopped() || timer.is_paused() {
                    timer.toggle_pause(now_ms);
                    if timer.is_running() {
                        self.focused_menu_item = MenuItem::Pause;
                    }
                }
                false
            },
            MenuItem::Pause => {
                if timer.is_running() {
                    timer.toggle_pause(now_ms);
                    if timer.is_paused() {
                        self.focused_menu_item = MenuItem::Start;
                    }
                }
                false
            },
            MenuItem::Skip => {
                timer.skip_session();
                self.focused_menu_item = MenuItem::Start;
                false
            },
            MenuItem::Reset => {
                timer.reset();
                self.focused_menu_item = MenuItem::Start;
                false
            },
            MenuItem::Help => {
                self.show_help = !self.show_help;
                false
            },
            MenuItem::Exit => {
                self.should_quit = true;
                true
            },
        }
    }

    /// The interface state, scheduler and quit signal after one key press at
    /// `now_ms`. While help is shown, any key closes it and nothing else
    /// happens.
    pub open spec fn spec_process_key(self, t: Timer, key: KeyInput, now_ms: u64) -> (
        UiState,
        Timer,
        bool,
    ) {
        if self.show_help {
            (UiState { show_help: false, ..self }, t, false)
        } else {
            match key {
                KeyInput::Tab | KeyInput::Right => (
                    UiState { focused_menu_item: self.focused_menu_item.spec_next(), ..self },
                    t,
                    false,
                ),
                KeyInput::Left => (
                    UiState { focused_menu_item: self.focused_menu_item.spec_prev(), ..self },
                    t,
                    false,
                ),
                KeyInput::Enter => self.spec_execute(t, now_ms),
                KeyInput::Escape => (UiState { should_quit: true, ..self }, t, true),
                KeyInput::Character(c) => {
                    if c == ' ' {
                        self.spec_execute(t, now_ms)
                    } else if c == 'q' {
                        (UiState { should_quit: true, ..self }, t, true)
                    } else if c == 'p' {
                        let t1 = t.spec_toggled(now_ms);
                        let focus = if t1.state is Running {
                            MenuItem::Pause
                        } else {
                            MenuItem::Start
                        };
                        (UiState { focused_menu_item: focus, ..self }, t1, false)
                    } else if c == 's' {
                        (
                            UiState { focused_menu_item: MenuItem::Start, ..self },
                            t.spec_completed(),
                            false,
                        )
                    } else if c == 'r' {
                        (
                            UiState { focused_menu_item: MenuItem::Start, ..self },
                            t.spec_reset(),
                            false,
                        )
                    } else if c == 'h' || c == '?' {
                        (UiState { show_help: true, ..self }, t, false)
                    } else {
                        (self, t, false)
                    }
                },
                KeyInput::Other => (self, t, false),
            }
        }
    }

    /// Process one key press, driving the scheduler at `now_ms`. Returns
    /// whether the application should quit.
    pub fn process_key_event(&mut self, key: KeyInput, timer: &mut Timer, now_ms: u64) -> (quit:
        bool)
        requires
            old(timer).wf(),
            old(timer).current_session is Work ==> old(timer).pomodoros_completed < u32::MAX,
        ensures
            final(timer).wf(),
            (*final(self), *final(timer), quit) == old(self).spec_process_key(
                *old(timer),
                key,
                now_ms,
            ),
    {
        if self.show_help {
            self.show_help = false;
            return false;
        }
        match key {
            KeyInput::Tab | KeyInput::Right => {
                self.next_menu_item();
                false
            },
            KeyInput::Left => {
                self.prev_menu_item();
                false
            },
            KeyInput::Enter => self.execute_focused_item(timer, now_ms),
            KeyInput::Escape => {
                self.should_quit = true;
                true
            },
            KeyInput::Character(c) => {
                if c == ' ' {
                    self.execute_focused_item(timer, now_ms)
                } else if c == 'q' {
                    self.should_quit = true;
                    true
                } else if c == 'p' {
                    timer.toggle_pause(now_ms);
                    if timer.is_running() {
                        self.focused_menu_item = MenuItem::Pause;
                    } else {
                        self.focused_menu_item = MenuItem::Start;
                    }
                    false
                } else if c == 's' {
                    timer.skip_session();
                    self.focused_menu_item = MenuItem::Start;
                    false
                } else if c == 'r' {
                    timer.reset();
                    self.focused_menu_item = MenuItem::Start;
                    false
                } else if c == 'h' || c == '?' {
                    self.show_help = true;
                    false
                } else {
                    false
                }
            },
            KeyInput::Other => false,
        }
    }
}

} // verus!
