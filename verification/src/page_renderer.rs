//! The overlay-page state machine: start page, help and general-info pages,
//! and the end-of-round pages. Drawing the pages is left to the windowing
//! shell; this module only decides which page is open.

use vstd::prelude::*;

verus! {

use crate::guess::InputEvent;

/// Which overlay page the renderer is on.
#[derive(PartialEq, Eq, Structural, Debug, Clone, Copy)]
pub enum MenuState {
    Start,
    PausedHelp,
    PausedGeneral,
    GameWon,
    GameOver,
}

/// Tracks whether an overlay page is open, which one, and which page to
/// fall back to when the help pages are left.
#[derive(PartialEq, Eq, Structural, Debug, Clone, Copy)]
pub struct PageRenderer {
    pub open: bool,
    pub menu_state: MenuState,
    pub last_significant_state: MenuState,
}

/// Effect of the return action: the general-info page backs out to help;
/// the help page closes if it was opened directly, and otherwise backs out
/// to the page it covered; every other page ignores it.
pub open spec fn returns_or_closes(pre: PageRenderer, post: PageRenderer) -> bool {
    if pre.menu_state == MenuState::PausedGeneral {
        post == PageRenderer { menu_state: MenuState::PausedHelp, ..pre }
    } else if pre.menu_state == MenuState::PausedHelp {
        if pre.last_significant_state == MenuState::PausedHelp {
            post == PageRenderer { open: false, ..pre }
        } else {
            post == PageRenderer { menu_state: pre.last_significant_state, ..pre }
        }
    } else {
        post == pre
    }
}

/// One step of the page state machine, and the value the step reports:
/// whether closing the page should also leave a finished round on screen.
pub open spec fn page_steps(pre: PageRenderer, post: PageRenderer, event: InputEvent) -> bool {
    match event {
        InputEvent::StartOrClose => {
            if pre.menu_state == MenuState::GameOver || pre.menu_state == MenuState::GameWon
                || pre.menu_state == MenuState::Start {
                post == PageRenderer { open: false, ..pre }
            } else {
                post == pre
            }
        },
        InputEvent::Submit => returns_or_closes(pre, post),
        InputEvent::OpenHelp => {
            if pre.menu_state != MenuState::PausedGeneral {
                post == PageRenderer { menu_state: MenuState::PausedHelp, ..pre }
            } else {
                post == pre
            }
        },
        InputEvent::OpenGeneral => {
            if pre.menu_state == MenuState::PausedHelp {
                post == PageRenderer { menu_state: MenuState::PausedGeneral, ..pre }
            } else {
                post == pre
            }
        },
        _ => post == pre,
    }
}

impl PageRenderer {
    /// A renderer sitting on the start page, open or closed as asked.
    pub fn new(open: bool) -> (r: PageRenderer)
        ensures
            r.open == open,
            r.menu_state == MenuState::Start,
            r.last_significant_state == MenuState::Start,
    {
        PageRenderer { open, menu_state: MenuState::Start, last_significant_state: MenuState::Start }
    }

    /// Feeds one input event to the open page. Reports whether the event
    /// closed an end-of-round or start page over a finished round.
    pub fn key_pressed(&mut self, event: InputEvent) -> (r: bool)
        ensures
            page_steps(*old(self), *final(self), event),
            r == (event == InputEvent::StartOrClose && (old(self).menu_state == MenuState::GameOver
                || old(self).menu_state == MenuState::GameWon)),
    {
        match event {
            InputEvent::StartOrClose => {
                if self.menu_state == MenuState::GameOver || self.menu_state == MenuState::GameWon
                    || self.menu_state == MenuState::Start {
                    self.open = false;
                    return self.menu_state == MenuState::GameOver || self.menu_state
                        == MenuState::GameWon;
                }
            },
            InputEvent::Submit => self.return_or_close(),
            InputEvent::OpenHelp => {
                if self.menu_state != MenuState::PausedGeneral {
                    self.menu_state = MenuState::PausedHelp;
                }
            },
            InputEvent::OpenGeneral => {
                if self.menu_state == MenuState::PausedHelp {
                    self.menu_state = MenuState::PausedGeneral;
                }
            },
            _ => {},
        }
        false
    }

    /// Whether an overlay page currently covers the board.
    pub fn is_open(&self) -> (r: bool)
        ensures
            r == self.open,
    {
        self.open
    }

    /// Opens the given page and remembers it as the page to fall back to.
    pub fn open(&mut self, state: MenuState)
        ensures
            final(self).open,
            final(self).menu_state == state,
            final(self).last_significant_state == state,
    {
        self.open = true;
        self.menu_state = state;
        self.last_significant_state = state;
    }

    /// Backs out of the help pages one level, per `returns_or_closes`.
    fn return_or_close(&mut self)
        ensures
            returns_or_closes(*old(self), *final(self)),
    {
        match &self.menu_state {
            MenuState::PausedGeneral => self.menu_state = MenuState::PausedHelp,
            MenuState::PausedHelp => {
                if self.last_significant_state == MenuState::PausedHelp {
                    self.open = false;
                } else {
                    self.menu_state = self.last_significant_state;
                }
            },
            _ => {},
        }
    }
}

} // verus!
