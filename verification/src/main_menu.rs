//! The main menu: three choices and a movable selection.

use vstd::prelude::*;
use crate::menu::Menu;
use crate::stage::StageData;

verus! {

/// A main menu choice.
#[derive(Clone, Copy, Debug, PartialEq, Eq, Structural)]
pub enum Choice {
    NewGame,
    Credits,
    Exit,
}

impl Choice {
    /// The choice after this one in display order, or `None` at the last.
    pub fn next(self) -> (r: Option<Choice>)
        ensures
            r == match self {
                Choice::NewGame => Some(Choice::Credits),
                Choice::Credits => Some(Choice::Exit),
                Choice::Exit => None::<Choice>,
            },
    {
        match self {
            Choice::NewGame => Some(Choice::Credits),
            Choice::Credits => Some(Choice::Exit),
            Choice::Exit => None,
        }
    }

    /// The choice before this one in display order, or `None` at the
    /// first.
    pub fn previous(self) -> (r: Option<Choice>)
        ensures
            r == match self {
                Choice::NewGame => None::<Choice>,
                Choice::Credits => Some(Choice::NewGame),
                Choice::Exit => Some(Choice::Credits),
            },
    {
        match self {
            Choice::NewGame => None,
            Choice::Credits => Some(Choice::NewGame),
            Choice::Exit => Some(Choice::Credits),
        }
    }

    /// Every choice, in display order.
    pub fn all() -> (r: Vec<Choice>)
        ensures
            r@ == seq![Choice::NewGame, Choice::Credits, Choice::Exit],
    {
        let mut all: Vec<Choice> = Vec::new();
        all.push(Choice::NewGame);
        all.push(Choice::Credits);
        all.push(Choice::Exit);
        proof {
            assert(all@ =~= seq![Choice::NewGame, Choice::Credits, Choice::Exit]);
        }
        all
    }
}

/// The main menu state: the selected choice, and whether the application
/// should exit.
#[derive(Debug)]
pub struct MainMenu {
    pub selected: Choice,
    pub should_exit: bool,
}

impl MainMenu {
    /// A fresh menu: the first choice selected, not exiting.
    pub fn new() -> (r: MainMenu)
        ensures
            r.selected == Choice::NewGame,
            !r.should_exit,
    {
        MainMenu { selected: Choice::NewGame, should_exit: false }
    }
}

impl Default for MainMenu {
    /// A fresh menu: the first choice selected, not exiting.
    fn default() -> (r: MainMenu)
        ensures
            r.selected == Choice::NewGame,
            !r.should_exit,
    {
        MainMenu::new()
    }
}

impl Menu for MainMenu {
    type Item = Choice;

    fn items(&self) -> Vec<Choice> {
        Choice::all()
    }

    fn select_next(&mut self) {
        match self.selected.next() {
            Some(choice) => {
                self.selected = choice;
            },
            None => {},
        }
    }

    fn select_previous(&mut self) {
        match self.selected.previous() {
            Some(choice) => {
                self.selected = choice;
            },
            None => {},
        }
    }

    fn is_selected(&self, item: &Choice) -> bool {
        self.selected == *item
    }

    fn selected(&self) -> Choice {
        self.selected
    }
}

impl StageData for MainMenu {

}

/// A restartable walk over the menu choices in display order.
pub struct MainMenuIterator {
    position: usize,
}

impl MainMenuIterator {
    /// How many choices have been yielded so far.
    pub closed spec fn spec_position(self) -> int {
        self.position as int
    }

    /// A fresh walk, starting at the first choice.
    pub fn new() -> (r: MainMenuIterator)
        ensures
            r.spec_position() == 0,
    {
        MainMenuIterator { position: 0 }
    }

    /// The next choice in display order, or `None` once all three have
    /// been yielded.
    pub fn next(&mut self) -> (r: Option<Choice>)
        ensures
            final(self).spec_position() == if old(self).spec_position() < 3 {
                old(self).spec_position() + 1
            } else {
                old(self).spec_position()
            },
            r == if old(self).spec_position() == 0 {
                Some(Choice::NewGame)
            } else if old(self).spec_position() == 1 {
                Some(Choice::Credits)
            } else if old(self).spec_position() == 2 {
                Some(Choice::Exit)
            } else {
                None::<Choice>
            },
    {
        let r = match self.position {
            0 => Some(Choice::NewGame),
            1 => Some(Choice::Credits),
            2 => Some(Choice::Exit),
            _ => None,
        };
        if self.position < 3 {
            self.position = self.position + 1;
        }
        r
    }
}

} // verus!
