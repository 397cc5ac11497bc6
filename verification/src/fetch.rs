//! Finding the puzzle of the active tab and day, and moving between tabs
//! and days.
//!
//! The session never talks to the network. It looks into its cache; where
//! the cache has nothing it names the address to ask, and the program brings
//! back what the server said, which the session then takes in.

use vstd::prelude::*;
use vstd::string::*;
use crate::app::{cache_view, App, AppView};
use crate::date::date_text;
use crate::describe::all_words;
use crate::json::{parse, parsed};
use crate::puzzle::{decoded, empty_puzzle, kind_of, reports_error, GameKind, Puzzle, PuzzleView};
use crate::tabs::{next_index, prev_index};
use crate::text::{concat3, push_line};

verus! {

/// What came of a request to the server.
#[derive(Debug, PartialEq, Eq)]
pub enum Fetched {
    /// The server answered with this text.
    Body(String),
    /// The request failed.
    Failed,
}

/// Why an answer of the server brought no puzzle.
#[derive(Clone, Copy, PartialEq, Eq, Debug, Structural)]
pub enum FetchError {
    /// The request failed.
    NetworkFailure,
    /// The body is no JSON document.
    MalformedResponse,
    /// The document carries the server's error mark.
    ServerError,
}

/// What the cache says of the puzzle of the active tab and day.
#[derive(Debug, PartialEq, Eq)]
pub enum Download {
    /// The cache holds the puzzle of this tab.
    Cached(u8, Puzzle),
    /// The cache holds nothing: the puzzle is to be asked for at this address.
    Request(String),
}

/// The document text of the first cache entry, from position `from` on, that
/// was stored for the given tab and day.
pub open spec fn cached_from(
    cache: Seq<(int, int, Seq<char>)>,
    tab: int,
    date: int,
    from: int,
) -> Option<Seq<char>>
    decreases cache.len() - from,
{
    if from < 0 || from >= cache.len() {
        None
    } else if cache[from].0 == tab && cache[from].1 == date {
        Some(cache[from].2)
    } else {
        cached_from(cache, tab, date, from + 1)
    }
}

/// The puzzle that a cached text holds; the empty puzzle where the text is
/// no JSON document.
pub open spec fn puzzle_of_text(raw: Seq<char>) -> PuzzleView {
    match parsed(raw) {
        Some(doc) => decoded(doc),
        None => empty_puzzle(),
    }
}

/// Why an answer of the server brings no puzzle, if it brings none.
pub open spec fn failure(outcome: Fetched) -> Option<FetchError> {
    match outcome {
        Fetched::Body(text) => match parsed(text@) {
            Some(doc) => if reports_error(doc) {
                Some(FetchError::ServerError)
            } else {
                None
            },
            None => Some(FetchError::MalformedResponse),
        },
        Fetched::Failed => Some(FetchError::NetworkFailure),
    }
}

/// The address under which the puzzles of a tab's game are kept.
pub open spec fn base_url(tab: int) -> Seq<char> {
    match kind_of(tab) {
        Some(GameKind::WordGuess) => "https://www.nytimes.com/svc/wordle/v2/"@,
        Some(GameKind::WordGroup) => "https://www.nytimes.com/svc/connections/v2/"@,
        Some(GameKind::WordFind) => "https://www.nytimes.com/svc/strands/v2/"@,
        None => Seq::empty(),
    }
}

/// The address of the puzzle of a tab and a day.
pub open spec fn request_url(tab: int, date: int) -> Seq<char> {
    base_url(tab) + date_text(date) + ".json"@
}

/// The order holds the words of the puzzle's groups, each as often as they do.
pub open spec fn is_shuffle_of(order: Seq<Seq<char>>, puzzle: PuzzleView) -> bool {
    order.to_multiset() == all_words(puzzle.categories).to_multiset()
}

impl AppView {
    /// The cached document text for the active tab and day.
    pub open spec fn cached(self) -> Option<Seq<char>> {
        cached_from(self.cache, self.tab, self.date, 0)
    }

    /// The address to ask, where the cache has nothing for the active tab and
    /// day.
    pub open spec fn request(self) -> Option<Seq<char>> {
        match self.cached() {
            Some(_) => None,
            None => Some(request_url(self.tab, self.date)),
        }
    }

    /// The puzzle that an answer of the server brings: that of a body that is
    /// a JSON document without the error mark.
    pub open spec fn arrival(self, outcome: Fetched) -> Option<PuzzleView> {
        match outcome {
            Fetched::Body(text) => match parsed(text@) {
                Some(doc) => if reports_error(doc) {
                    None
                } else {
                    Some(decoded(doc))
                },
                None => None,
            },
            Fetched::Failed => None,
        }
    }

    /// The answer of the server is taken in. A puzzle that arrived is cached
    /// under the active tab and day, as the text that came. An answer that
    /// brings no puzzle leaves the cache as it is and is logged: a body that
    /// is no JSON with a line of its own, a failed request and a document
    /// with the error mark, which counts as a failed request, with the same
    /// line.
    pub open spec fn store(self, outcome: Fetched) -> AppView {
        match outcome {
            Fetched::Body(text) => match parsed(text@) {
                Some(doc) => if reports_error(doc) {
                    AppView { lines: self.lines.push("Failed to download game"@), ..self }
                } else {
                    AppView { cache: self.cache.push((self.tab, self.date, text@)), ..self }
                },
                None => AppView {
                    lines: self.lines.push("Failed to convert data to JSON"@),
                    ..self
                },
            },
            Fetched::Failed => AppView {
                lines: self.lines.push("Failed to download game"@),
                ..self
            },
        }
    }

    /// The cached puzzle of the active tab and day, if there is one, becomes
    /// the loaded puzzle and is described. Without one nothing changes.
    pub open spec fn open_cached(self, order: Seq<Seq<char>>) -> AppView {
        match self.cached() {
            Some(raw) => AppView {
                game_tag: self.tab,
                puzzle: puzzle_of_text(raw),
                ..self
            }.describe(order),
            None => self,
        }
    }

    /// The answer of the server is taken in; a puzzle that arrived becomes
    /// the loaded puzzle; whatever puzzle is loaded then is described.
    pub open spec fn receive(self, outcome: Fetched, order: Seq<Seq<char>>) -> AppView {
        let stored = self.store(outcome);
        match self.arrival(outcome) {
            Some(puzzle) => AppView { game_tag: self.tab, puzzle, ..stored }.describe(order),
            None => stored.describe(order),
        }
    }

    /// After a change of tab or day: the state of the old puzzle is forgotten,
    /// the puzzle counts as unsolved, and the cache is asked for the new one.
    pub open spec fn refresh(self, order: Seq<Seq<char>>) -> AppView {
        AppView { complete: false, ..self.clear_state() }.open_cached(order)
    }

    /// The tab to the left is opened.
    pub open spec fn left(self, order: Seq<Seq<char>>) -> AppView {
        AppView { tab: prev_index(self.tab, self.tabs.len() as int), ..self }.refresh(order)
    }

    /// The tab to the right is opened.
    pub open spec fn right(self, order: Seq<Seq<char>>) -> AppView {
        AppView { tab: next_index(self.tab, self.tabs.len() as int), ..self }.refresh(order)
    }

    /// The following day is opened.
    pub open spec fn up(self, order: Seq<Seq<char>>) -> AppView {
        AppView { date: self.date + 1, ..self }.refresh(order)
    }

    /// The preceding day is opened.
    pub open spec fn down(self, order: Seq<Seq<char>>) -> AppView {
        AppView { date: self.date - 1, ..self }.refresh(order)
    }
}

/// The address under which the puzzles of a tab's game are kept.
fn base_of(tab: u8) -> (r: String)
    ensures
        r@ == base_url(tab as int),
{
    match GameKind::of_tab(tab) {
        Some(GameKind::WordGuess) => String::from_str("https://www.nytimes.com/svc/wordle/v2/"),
        Some(GameKind::WordGroup) => String::from_str(
            "https://www.nytimes.com/svc/connections/v2/",
        ),
        Some(GameKind::WordFind) => String::from_str("https://www.nytimes.com/svc/strands/v2/"),
        None => String::new(),
    }
}

/// Decodes the puzzle that a document text holds; a text that is no JSON
/// document gives the empty puzzle.
pub fn puzzle_from_text(raw: &str) -> (r: Puzzle)
    ensures
        r@ == puzzle_of_text(raw@),
{
    match parse(raw) {
        Some(doc) => Puzzle::decode(&doc),
        None => Puzzle::empty(),
    }
}

impl App {
    /// Looks the puzzle of the active tab and day up in the cache. The first
    /// entry for them is decoded and returned; without one, the address to
    /// ask is returned.
    pub fn download(&self) -> (r: Download)
        ensures
            match self@.cached() {
                Some(raw) => r matches Download::Cached(tag, puzzle) && tag == self.page.index
                    && puzzle@ == puzzle_of_text(raw),
                None => r matches Download::Request(url) && url@ == request_url(
                    self@.tab,
                    self@.date,
                ),
            },
    {
        let ghost cache = self@.cache;
        let ghost tab = self@.tab;
        let ghost date = self@.date;
        let mut i: usize = 0;
        while i < self.game_cache.len()
            invariant
                i <= self.game_cache.len(),
                cache == cache_view(self.game_cache@),
                tab == self.page.index as int,
                date == self.date.days as int,
                cached_from(cache, tab, date, 0) == cached_from(cache, tab, date, i as int),
            decreases self.game_cache.len() - i,
        {
            if self.game_cache[i].0 == self.page.index && self.game_cache[i].1.days
                == self.date.days {
                assert(cached_from(cache, tab, date, i as int) == Some(cache[i as int].2));
                let puzzle = puzzle_from_text(self.game_cache[i].2.as_str());
                return Download::Cached(self.game_cache[i].0, puzzle);
            }
            i += 1;
        }
        let base = base_of(self.page.index);
        let day = self.date.text();
        Download::Request(concat3(base.as_str(), day.as_str(), ".json"))
    }

    /// Takes in the answer of the server and returns the puzzle that it
    /// brought with the active tab, or why it brought none.
    pub fn store(&mut self, outcome: Fetched) -> (r: Result<(u8, Puzzle), FetchError>)
        ensures
            final(self).page == old(self).page,
            final(self)@ == old(self)@.store(outcome),
            match r {
                Ok((tag, puzzle)) => failure(outcome) is None && tag == old(self).page.index
                    && old(self)@.arrival(outcome) == Some(puzzle@),
                Err(error) => failure(outcome) == Some(error) && old(self)@.arrival(outcome)
                    is None,
            },
    {
        match outcome {
            Fetched::Body(text) => match parse(text.as_str()) {
                Some(doc) => {
                    if Puzzle::is_error(&doc) {
                        push_line(&mut self.lines, String::from_str("Failed to download game"));
                        return Err(FetchError::ServerError);
                    }
                    let puzzle = Puzzle::decode(&doc);
                    self.game_cache.push((self.page.index, self.date, text));
                    assert(self@.cache =~= old(self)@.cache.push(
                        (old(self)@.tab, old(self)@.date, text@),
                    ));
                    Ok((self.page.index, puzzle))
                },
                None => {
                    push_line(&mut self.lines, String::from_str("Failed to convert data to JSON"));
                    Err(FetchError::MalformedResponse)
                },
            },
            Fetched::Failed => {
                push_line(&mut self.lines, String::from_str("Failed to download game"));
                Err(FetchError::NetworkFailure)
            },
        }
    }

    /// Loads the puzzle of the active tab and day from the cache and
    /// describes it. Where the cache has nothing, the session stays as it is
    /// and the address to ask is returned.
    pub fn open_cached(&mut self) -> (r: Option<String>)
        ensures
            final(self).page == old(self).page,
            final(self)@ == old(self)@.open_cached(final(self)@.word_order),
            match r {
                Some(url) => old(self)@.request() == Some(url@),
                None => old(self)@.request() is None,
            },
            r is None && kind_of(old(self)@.tab) == Some(GameKind::WordGroup) ==> is_shuffle_of(
                final(self)@.word_order,
                final(self)@.puzzle,
            ),
    {
        match self.download() {
            Download::Cached(tag, puzzle) => {
                self.current_game = (tag, puzzle);
                self.generate_game_string();
                None
            },
            Download::Request(url) => Some(url),
        }
    }

    /// Takes in the answer of the server, loads the puzzle that it brought,
    /// if any, and describes the puzzle that is loaded then.
    pub fn receive(&mut self, outcome: Fetched)
        ensures
            final(self).page == old(self).page,
            final(self)@ == old(self)@.receive(outcome, final(self)@.word_order),
            kind_of(old(self)@.tab) == Some(GameKind::WordGroup) ==> is_shuffle_of(
                final(self)@.word_order,
                final(self)@.puzzle,
            ),
    {
        match self.store(outcome) {
            Ok(game) => {
                self.current_game = game;
            },
            Err(_) => {},
        }
        self.generate_game_string();
    }

    /// Forgets the old puzzle and loads the one of the active tab and day.
    fn refresh(&mut self) -> (r: Option<String>)
        ensures
            final(self).page == old(self).page,
            final(self)@ == old(self)@.refresh(final(self)@.word_order),
            match r {
                Some(url) => final(self)@.request() == Some(url@),
                None => final(self)@.request() is None,
            },
            r is None && kind_of(old(self)@.tab) == Some(GameKind::WordGroup) ==> is_shuffle_of(
                final(self)@.word_order,
                final(self)@.puzzle,
            ),
    {
        self.clear_state();
        self.game_complete = false;
        self.open_cached()
    }

    /// Opens the tab to the left. Returns the address to ask where the cache
    /// has no puzzle for it.
    pub fn left(&mut self) -> (r: Option<String>)
        requires
            old(self).page.can_prev(),
        ensures
            old(self).page.wf() ==> final(self).page.wf(),
            old(self).page.index < old(self).page.values@.len() ==> final(self).page.index
                < final(self).page.values@.len(),
            final(self).page.values == old(self).page.values,
            final(self)@ == old(self)@.left(final(self)@.word_order),
            match r {
                Some(url) => final(self)@.request() == Some(url@),
                None => final(self)@.request() is None,
            },
            r is None && kind_of(final(self)@.tab) == Some(GameKind::WordGroup) ==> is_shuffle_of(
                final(self)@.word_order,
                final(self)@.puzzle,
            ),
    {
        self.page.prev();
        self.refresh()
    }

    /// Opens the tab to the right. Returns the address to ask where the cache
    /// has no puzzle for it.
    pub fn right(&mut self) -> (r: Option<String>)
        requires
            old(self).page.can_next(),
        ensures
            final(self).page.wf(),
            final(self).page.values == old(self).page.values,
            final(self)@ == old(self)@.right(final(self)@.word_order),
            match r {
                Some(url) => final(self)@.request() == Some(url@),
                None => final(self)@.request() is None,
            },
            r is None && kind_of(final(self)@.tab) == Some(GameKind::WordGroup) ==> is_shuffle_of(
                final(self)@.word_order,
                final(self)@.puzzle,
            ),
    {
        self.page.next();
        self.refresh()
    }

    /// Opens the following day. Returns the address to ask where the cache
    /// has no puzzle for it.
    pub fn up(&mut self) -> (r: Option<String>)
        requires
            old(self).date.days < i32::MAX,
        ensures
            final(self).page == old(self).page,
            final(self)@ == old(self)@.up(final(self)@.word_order),
            match r {
                Some(url) => final(self)@.request() == Some(url@),
                None => final(self)@.request() is None,
            },
            r is None && kind_of(final(self)@.tab) == Some(GameKind::WordGroup) ==> is_shuffle_of(
                final(self)@.word_order,
                final(self)@.puzzle,
            ),
    {
        self.date = self.date.next_day();
        self.refresh()
    }

    /// Opens the preceding day. Returns the address to ask where the cache
    /// has no puzzle for it.
    pub fn down(&mut self) -> (r: Option<String>)
        requires
            old(self).date.days > i32::MIN,
        ensures
            final(self).page == old(self).page,
            final(self)@ == old(self)@.down(final(self)@.word_order),
            match r {
                Some(url) => final(self)@.request() == Some(url@),
                None => final(self)@.request() is None,
            },
            r is None && kind_of(final(self)@.tab) == Some(GameKind::WordGroup) ==> is_shuffle_of(
                final(self)@.word_order,
                final(self)@.puzzle,
            ),
    {
        self.date = self.date.prev_day();
        self.refresh()
    }
}

} // verus!
