//! The key events of a session, one at a time.

use vstd::prelude::*;
use vstd::string::*;
use crate::app::{App, AppView, NO_GAME};
use crate::fetch::is_shuffle_of;
use crate::puzzle::{kind_of, GameKind};

verus! {

/// What the user did.
#[derive(Clone, Copy, PartialEq, Eq, Debug, Structural)]
pub enum Event {
    /// A character key; the tilde asks to leave.
    Char(char),
    Backspace,
    Enter,
    Left,
    Right,
    Up,
    Down,
}

/// The key that asks to leave.
pub const QUIT_KEY: char = '~';

impl AppView {
    /// The session after an event. The tilde asks to leave; any other
    /// character is typed.
    pub open spec fn handle(self, event: Event, order: Seq<Seq<char>>) -> AppView {
        match event {
            Event::Char(c) => if c == QUIT_KEY {
                self.quit()
            } else {
                self.key(c)
            },
            Event::Backspace => self.backspace(),
            Event::Enter => self.enter(),
            Event::Left => self.left(order),
            Event::Right => self.right(order),
            Event::Up => self.up(order),
            Event::Down => self.down(order),
        }
    }

    /// Whether an event changes the tab or the day.
    pub open spec fn navigates(event: Event) -> bool {
        event is Left || event is Right || event is Up || event is Down
    }

    /// The session when the program starts: one that has no puzzle yet asks
    /// the cache for the puzzle of its tab and day.
    pub open spec fn start(self, order: Seq<Seq<char>>) -> AppView {
        if self.game_tag == NO_GAME as int {
            self.open_cached(order)
        } else {
            self
        }
    }
}

impl App {
    /// Whether the session can take an event: there is a tab to step to, and
    /// the day after or before can still be counted.
    pub open spec fn handles(&self, event: Event) -> bool {
        match event {
            Event::Left => self.page.can_prev(),
            Event::Right => self.page.can_next(),
            Event::Up => self.date.days < i32::MAX,
            Event::Down => self.date.days > i32::MIN,
            _ => true,
        }
    }

    /// Whether the session can take an event.
    pub fn can_handle(&self, event: Event) -> (r: bool)
        ensures
            r == self.handles(event),
    {
        let count = self.page.values.len();
        match event {
            Event::Left => self.page.index != 0 || (0 < count && count <= 256),
            Event::Right => 0 < count && count <= 255 && self.page.index < 255,
            Event::Up => self.date.days < i32::MAX,
            Event::Down => self.date.days > i32::MIN,
            _ => true,
        }
    }

    /// Deals with one event. Returns the address to ask where the event
    /// opened a tab or day for which the cache has no puzzle.
    pub fn handle(&mut self, event: Event) -> (r: Option<String>)
        requires
            old(self).handles(event),
        ensures
            final(self).page.values == old(self).page.values,
            !(event is Left || event is Right) ==> final(self).page == old(self).page,
            final(self)@ == old(self)@.handle(event, final(self)@.word_order),
            old(self).page.wf() ==> final(self).page.wf(),
            match r {
                Some(url) => AppView::navigates(event) && final(self)@.request() == Some(url@),
                None => AppView::navigates(event) ==> final(self)@.request() is None,
            },
            r is None && AppView::navigates(event) && kind_of(final(self)@.tab) == Some(
                GameKind::WordGroup,
            ) ==> is_shuffle_of(final(self)@.word_order, final(self)@.puzzle),
    {
        match event {
            Event::Char(c) => {
                if c == QUIT_KEY {
                    self.quit();
                } else {
                    self.key(c);
                }
                None
            },
            Event::Backspace => {
                self.backspace();
                None
            },
            Event::Enter => {
                self.enter();
                None
            },
            Event::Left => self.left(),
            Event::Right => self.right(),
            Event::Up => self.up(),
            Event::Down => self.down(),
        }
    }

    /// Prepares the session when the program starts: one that has no puzzle
    /// yet loads the puzzle of its tab and day from the cache and describes
    /// it, or returns the address to ask.
    pub fn start(&mut self) -> (r: Option<String>)
        ensures
            final(self).page == old(self).page,
            final(self)@ == old(self)@.start(final(self)@.word_order),
            match r {
                Some(url) => old(self)@.game_tag == NO_GAME && old(self)@.request() == Some(url@),
                None => old(self)@.game_tag == NO_GAME ==> old(self)@.request() is None,
            },
            r is None && old(self)@.game_tag == NO_GAME && kind_of(old(self)@.tab) == Some(
                GameKind::WordGroup,
            ) ==> is_shuffle_of(final(self)@.word_order, final(self)@.puzzle),
    {
        if self.current_game.0 == NO_GAME {
            self.open_cached()
        } else {
            None
        }
    }
}

} // verus!
