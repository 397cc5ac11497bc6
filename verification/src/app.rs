//! The state of a session and its plain model.
//!
//! [`App`] is the value that a program keeps between key presses. [`AppView`]
//! is the same state as mathematical sequences and integers; every
//! transition of the session is a function on it, and the methods of `App`
//! are shown to compute those functions.

use vstd::prelude::*;
use vstd::string::*;
use crate::date::Date;
use crate::puzzle::{empty_puzzle, max_guess_len, GameKind, Puzzle, PuzzleView};
use crate::tabs::Tabber;
use crate::text::texts;

verus! {

/// The tag of a session that has no puzzle yet.
pub const NO_GAME: u8 = 255;

/// The state of a session.
#[derive(Debug, PartialEq, Eq)]
pub struct App {
    /// The tab that is shown.
    pub page: Tabber,
    /// Set when the user asked to leave.
    pub should_quit: bool,
    /// The puzzle documents fetched so far, each with its tab and its day.
    pub game_cache: Vec<(u8, Date, String)>,
    /// The day whose puzzles are played.
    pub date: Date,
    /// The tab whose puzzle is loaded, and that puzzle.
    pub current_game: (u8, Puzzle),
    /// The guess being typed.
    pub guess_buffer: Vec<char>,
    /// The guesses submitted so far.
    pub guesses: Vec<String>,
    /// The log shown under the description.
    pub lines: Vec<String>,
    /// The words that the guessing game accepts.
    pub words: Vec<String>,
    /// The description of the puzzle.
    pub game_string: Vec<String>,
    /// Whether the puzzle is solved.
    pub game_complete: bool,
    /// The words of the grouping game in the order in which they are shown.
    pub word_order: Vec<String>,
    /// The words of the groups found so far.
    pub used_words: Vec<String>,
    /// The hidden words found so far.
    pub found_words: Vec<String>,
    /// How many hidden words the puzzle has.
    pub needed_words: usize,
}

/// A session as plain values.
pub struct AppView {
    pub tab: int,
    pub tabs: Seq<Seq<char>>,
    pub should_quit: bool,
    pub cache: Seq<(int, int, Seq<char>)>,
    pub date: int,
    pub game_tag: int,
    pub puzzle: PuzzleView,
    pub buffer: Seq<char>,
    pub guesses: Seq<Seq<char>>,
    pub lines: Seq<Seq<char>>,
    pub words: Seq<Seq<char>>,
    pub description: Seq<Seq<char>>,
    pub complete: bool,
    pub word_order: Seq<Seq<char>>,
    pub used_words: Seq<Seq<char>>,
    pub found_words: Seq<Seq<char>>,
    pub needed_words: nat,
}

/// The entries of a cache as plain values: tab, day and document text.
pub open spec fn cache_view(cache: Seq<(u8, Date, String)>) -> Seq<(int, int, Seq<char>)> {
    Seq::new(cache.len(), |i: int| (cache[i].0 as int, cache[i].1.days as int, cache[i].2@))
}

impl View for App {
    type V = AppView;

    open spec fn view(&self) -> AppView {
        AppView {
            tab: self.page.index as int,
            tabs: texts(self.page.values@),
            should_quit: self.should_quit,
            cache: cache_view(self.game_cache@),
            date: self.date.days as int,
            game_tag: self.current_game.0 as int,
            puzzle: self.current_game.1@,
            buffer: self.guess_buffer@,
            guesses: texts(self.guesses@),
            lines: texts(self.lines@),
            words: texts(self.words@),
            description: texts(self.game_string@),
            complete: self.game_complete,
            word_order: texts(self.word_order@),
            used_words: texts(self.used_words@),
            found_words: texts(self.found_words@),
            needed_words: self.needed_words as nat,
        }
    }
}

/// The session of a first run: the first of three tabs, nothing cached,
/// nothing typed, no puzzle.
pub open spec fn initial(date: int, words: Seq<Seq<char>>) -> AppView {
    AppView {
        tab: 0,
        tabs: seq!["Wordle"@, "Connections"@, "Strands"@],
        should_quit: false,
        cache: Seq::empty(),
        date,
        game_tag: NO_GAME as int,
        puzzle: empty_puzzle(),
        buffer: Seq::empty(),
        guesses: Seq::empty(),
        lines: Seq::empty(),
        words,
        description: Seq::empty(),
        complete: false,
        word_order: Seq::empty(),
        used_words: Seq::empty(),
        found_words: Seq::empty(),
        needed_words: 0,
    }
}

impl AppView {
    /// A character is typed: it joins the guess unless the guess has the
    /// length that the tab's game allows.
    pub open spec fn key(self, c: char) -> AppView {
        if self.buffer.len() != max_guess_len(self.tab) {
            AppView { buffer: self.buffer.push(c), ..self }
        } else {
            self
        }
    }

    /// The last typed character is taken back, if there is one.
    pub open spec fn backspace(self) -> AppView {
        if self.buffer.len() > 0 {
            AppView { buffer: self.buffer.drop_last(), ..self }
        } else {
            self
        }
    }

    /// All that belongs to the puzzle being played is forgotten.
    pub open spec fn clear_state(self) -> AppView {
        AppView {
            buffer: Seq::empty(),
            guesses: Seq::empty(),
            lines: Seq::empty(),
            description: Seq::empty(),
            used_words: Seq::empty(),
            word_order: Seq::empty(),
            found_words: Seq::empty(),
            needed_words: 0,
            ..self
        }
    }

    /// The user asks to leave.
    pub open spec fn quit(self) -> AppView {
        AppView { should_quit: true, ..self }
    }
}

/// The longest guess that a tab lets one type.
pub fn max_len(tab: u8) -> (r: usize)
    ensures
        r == max_guess_len(tab as int),
{
    match GameKind::of_tab(tab) {
        Some(GameKind::WordGuess) => 5,
        Some(GameKind::WordGroup) => 4,
        Some(GameKind::WordFind) => 20,
        None => 1,
    }
}

impl App {
    /// The session of a first run on the given day, with the given list of
    /// words that the guessing game accepts.
    pub fn new(date: Date, words: Vec<String>) -> (r: App)
        ensures
            r@ == initial(date.days as int, texts(words@)),
            r.page.wf(),
    {
        let mut values: Vec<String> = Vec::new();
        values.push(String::from_str("Wordle"));
        values.push(String::from_str("Connections"));
        values.push(String::from_str("Strands"));
        let r = App {
            page: Tabber { index: 0, values },
            should_quit: false,
            game_cache: Vec::new(),
            date,
            current_game: (NO_GAME, Puzzle::empty()),
            guess_buffer: Vec::new(),
            guesses: Vec::new(),
            lines: Vec::new(),
            words,
            game_string: Vec::new(),
            game_complete: false,
            word_order: Vec::new(),
            used_words: Vec::new(),
            found_words: Vec::new(),
            needed_words: 0,
        };
        proof {
            let v = r@;
            let w = initial(date.days as int, texts(words@));
            assert(v.tabs =~= w.tabs);
            assert(v.cache =~= w.cache);
            assert(v.guesses =~= w.guesses);
            assert(v.lines =~= w.lines);
            assert(v.description =~= w.description);
            assert(v.word_order =~= w.word_order);
            assert(v.used_words =~= w.used_words);
            assert(v.found_words =~= w.found_words);
        }
        r
    }

    /// A character is typed.
    pub fn key(&mut self, c: char)
        ensures
            final(self).page == old(self).page,
            final(self)@ == old(self)@.key(c),
    {
        let max = max_len(self.page.index);
        if self.guess_buffer.len() != max {
            self.guess_buffer.push(c);
        }
    }

    /// The last typed character is taken back.
    pub fn backspace(&mut self)
        ensures
            final(self).page == old(self).page,
            final(self)@ == old(self)@.backspace(),
    {
        if self.guess_buffer.len() > 0 {
            self.guess_buffer.pop();
        }
    }

    /// Forgets all that belongs to the puzzle being played: the guess, the
    /// history, the log, the description and what was found.
    pub fn clear_state(&mut self)
        ensures
            final(self).page == old(self).page,
            final(self)@ == old(self)@.clear_state(),
    {
        self.guess_buffer.clear();
        self.guesses.clear();
        self.lines.clear();
        self.game_string.clear();
        self.used_words.clear();
        self.word_order.clear();
        self.found_words.clear();
        self.needed_words = 0;
        proof {
            let v = self@;
            let w = old(self)@.clear_state();
            assert(v.guesses =~= w.guesses);
            assert(v.lines =~= w.lines);
            assert(v.description =~= w.description);
            assert(v.word_order =~= w.word_order);
            assert(v.used_words =~= w.used_words);
            assert(v.found_words =~= w.found_words);
        }
    }

    /// The user asks to leave.
    pub fn quit(&mut self)
        ensures
            final(self).page == old(self).page,
            final(self)@ == old(self)@.quit(),
    {
        self.should_quit = true;
    }
}

} // verus!
