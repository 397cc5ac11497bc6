//! What holds of every session, proved from the transitions.

use vstd::prelude::*;
use crate::app::AppView;
use crate::fetch::{cached_from, failure, puzzle_of_text, Fetched};
use crate::group::{any_used, has_repeat, words_for};
use crate::puzzle::{kind_of, max_guess_len, may_submit, GameKind};
use crate::text::lowercase_of;

verus! {

/// The guess being typed is no longer than the tab's game allows.
pub open spec fn buffer_fits(s: AppView) -> bool {
    s.buffer.len() <= max_guess_len(s.tab)
}

/// A guess that fits keeps fitting when a character is typed or taken back
/// and when it is submitted; after a change of tab or day the guess is empty.
pub proof fn lemma_buffer_stays_bounded(s: AppView, c: char, order: Seq<Seq<char>>)
    requires
        buffer_fits(s),
    ensures
        buffer_fits(s.key(c)),
        buffer_fits(s.backspace()),
        buffer_fits(s.enter()),
        s.left(order).buffer.len() == 0,
        s.right(order).buffer.len() == 0,
        s.up(order).buffer.len() == 0,
        s.down(order).buffer.len() == 0,
{
}

/// A solved puzzle stays solved while one types, submits, asks to leave or
/// takes in an answer of the server.
pub proof fn lemma_complete_stays(s: AppView, c: char, outcome: Fetched, order: Seq<Seq<char>>)
    requires
        s.complete,
    ensures
        s.key(c).complete,
        s.backspace().complete,
        s.enter().complete,
        s.quit().complete,
        s.receive(outcome, order).complete,
{
}

/// A change of tab or day leaves the puzzle unsolved.
pub proof fn lemma_navigation_resets(s: AppView, order: Seq<Seq<char>>)
    ensures
        !s.left(order).complete,
        !s.right(order).complete,
        !s.up(order).complete,
        !s.down(order).complete,
        s.left(order).guesses.len() == 0,
        s.right(order).guesses.len() == 0,
        s.up(order).guesses.len() == 0,
        s.down(order).guesses.len() == 0,
        s.left(order).used_words.len() == 0,
        s.right(order).used_words.len() == 0,
        s.up(order).used_words.len() == 0,
        s.down(order).used_words.len() == 0,
        s.left(order).found_words.len() == 0,
        s.right(order).found_words.len() == 0,
        s.up(order).found_words.len() == 0,
        s.down(order).found_words.len() == 0,
{
}

/// The session with the puzzle counted as solved.
pub open spec fn solved(s: AppView) -> AppView {
    AppView { complete: true, ..s }
}

/// The session with the given guess typed.
pub open spec fn typed(s: AppView, guess: Seq<char>) -> AppView {
    AppView { buffer: guess, ..s }
}

/// The session after a submitted guess that entered the history and emptied
/// the buffer and did nothing else.
pub open spec fn only_noted(s: AppView) -> AppView {
    AppView { guesses: s.guesses.push(s.buffer), buffer: Seq::empty(), ..s }
}

/// The session after a submitted guess that entered the history and did
/// nothing else, the buffer being kept for correction.
pub open spec fn only_kept(s: AppView) -> AppView {
    AppView { guesses: s.guesses.push(s.buffer), ..s }
}

/// The session with the given description.
pub open spec fn with_description(s: AppView, description: Seq<Seq<char>>) -> AppView {
    AppView { description, ..s }
}

/// The guessing game has no guard on a solved puzzle: a guess submitted
/// after the puzzle is solved is dealt with as one submitted before.
pub proof fn lemma_enter_ignores_completion(s: AppView)
    requires
        kind_of(s.tab) == Some(GameKind::WordGuess),
    ensures
        solved(s).enter() == solved(s.enter()),
{
}

/// Submitting a guess only adds to the used words and to the found words.
pub proof fn lemma_words_only_grow(s: AppView)
    ensures
        s.used_words.is_prefix_of(s.enter().used_words),
        s.found_words.is_prefix_of(s.enter().found_words),
        s.guesses.is_prefix_of(s.enter().guesses),
{
    let t = s.enter();
    assert(s.used_words.is_prefix_of(t.used_words));
    assert(s.found_words.is_prefix_of(t.found_words));
    assert(s.guesses.is_prefix_of(t.guesses));
}

/// Where a guess of the hidden-word game solves the puzzle, as many words
/// are found as the puzzle needs; where a guess of the grouping game solves
/// it, sixteen words are used.
pub proof fn lemma_completion_counts(s: AppView)
    requires
        !s.complete,
        s.enter().complete,
    ensures
        kind_of(s.tab) == Some(GameKind::WordFind) ==> s.enter().found_words.len()
            == s.needed_words,
        kind_of(s.tab) == Some(GameKind::WordGroup) ==> s.enter().used_words.len() == 16,
        kind_of(s.tab) == Some(GameKind::WordGuess) ==> s.buffer == s.puzzle.solution,
        kind_of(s.tab) is Some,
{
}

/// After a guess of the hidden-word game that was not found before, whatever
/// it matched, the puzzle is solved exactly if it was solved already or as
/// many words are found as it needs; the buffer is empty.
pub proof fn lemma_find_completion(s: AppView)
    requires
        kind_of(s.tab) == Some(GameKind::WordFind),
        s.buffer.len() >= 4,
        !s.found_words.contains(lowercase_of(s.buffer)),
    ensures
        s.enter().complete == (s.complete || s.enter().found_words.len() == s.needed_words),
        s.enter().buffer.len() == 0,
{
}

/// The spangram is taken once. Submitted while it is not yet found, in any
/// mix of upper and lower case, it is logged and becomes found. Typed and
/// submitted again, it only enters the history and empties the buffer.
pub proof fn lemma_spangram_once(s: AppView, guess: Seq<char>)
    requires
        kind_of(s.tab) == Some(GameKind::WordFind),
        s.buffer == guess,
        guess.len() >= 4,
        lowercase_of(guess) == lowercase_of(s.puzzle.spangram),
        !s.found_words.contains(lowercase_of(guess)),
    ensures
        ({
            let first = s.enter();
            let again = typed(first, guess).enter();
            &&& first.found_words == s.found_words.push(lowercase_of(guess))
            &&& first.lines.len() > s.lines.len()
            &&& first.lines[s.lines.len() as int] == lowercase_of(guess) + " is the Spangram!"@
            &&& again == only_noted(typed(first, guess))
        }),
{
    let folded = lowercase_of(guess);
    let first = s.enter();
    assert(first.found_words == s.found_words.push(folded));
    assert(first.found_words[s.found_words.len() as int] == folded);
    assert(first.found_words.contains(folded));
}

/// A word that is found is not taken again: submitting it changes the
/// history and the buffer and nothing else.
pub proof fn lemma_found_word_rejected(s: AppView)
    requires
        kind_of(s.tab) == Some(GameKind::WordFind),
        s.buffer.len() >= 4,
        s.found_words.contains(lowercase_of(s.buffer)),
    ensures
        s.enter() == only_noted(s),
{
}

/// A guess that cannot be taken leaves the buffer as it is, so that it can
/// be corrected: one of the wrong length changes nothing at all; a word that
/// the guessing game does not know, and a guess of the grouping game that
/// names a label twice or a word that is used, only enter the history.
pub proof fn lemma_rejected_guess_keeps_buffer(s: AppView)
    ensures
        !may_submit(s.tab, s.buffer.len()) ==> s.enter() == s,
        kind_of(s.tab) == Some(GameKind::WordGuess) && s.buffer.len() == 5 && !s.words.contains(
            s.buffer,
        ) ==> s.enter() == only_kept(s),
        kind_of(s.tab) == Some(GameKind::WordGroup) && s.buffer.len() == 4 && has_repeat(s.buffer)
            ==> s.enter() == only_kept(s),
        kind_of(s.tab) == Some(GameKind::WordGroup) && s.buffer.len() == 4 && any_used(
            s.used_words,
            words_for(s.word_order, s.buffer),
        ) ==> s.enter() == only_kept(s),
{
}

/// Describing the same puzzle again in the same order changes nothing: the
/// description, the order and the number of words to find stay as the first
/// time. On a tab with a game, what the description held before does not
/// matter.
pub proof fn lemma_description_idempotent(
    s: AppView,
    order: Seq<Seq<char>>,
    before: Seq<Seq<char>>,
)
    ensures
        s.describe(order).describe(order) == s.describe(order),
        kind_of(s.tab) is Some ==> with_description(s, before).describe(order) == s.describe(
            order,
        ),
        kind_of(s.tab) is None ==> s.describe(order) == s,
{
}

/// The day after and then the day before is the day one started from, and
/// so is the day before and then the day after.
pub proof fn lemma_up_down_returns(s: AppView, first: Seq<Seq<char>>, second: Seq<Seq<char>>)
    ensures
        s.up(first).down(second).date == s.date,
        s.down(first).up(second).date == s.date,
        s.up(first).tab == s.tab,
        s.down(first).tab == s.tab,
{
}

/// Moving between tabs and days leaves the cache as it is.
pub proof fn lemma_navigation_keeps_cache(s: AppView, order: Seq<Seq<char>>)
    ensures
        s.left(order).cache == s.cache,
        s.right(order).cache == s.cache,
        s.up(order).cache == s.cache,
        s.down(order).cache == s.cache,
        s.enter().cache == s.cache,
{
}

/// Looking up in a cache with one more entry at its end finds what was found
/// before; where nothing was found, it finds the new entry if that is for
/// the tab and day asked for.
pub proof fn lemma_cached_after_push(
    cache: Seq<(int, int, Seq<char>)>,
    entry: (int, int, Seq<char>),
    tab: int,
    date: int,
    from: int,
)
    requires
        0 <= from <= cache.len(),
    ensures
        cached_from(cache.push(entry), tab, date, from) == match cached_from(
            cache,
            tab,
            date,
            from,
        ) {
            Some(text) => Some(text),
            None => if entry.0 == tab && entry.1 == date {
                Some(entry.2)
            } else {
                None
            },
        },
    decreases cache.len() - from,
{
    let longer = cache.push(entry);
    if from < cache.len() {
        assert(longer[from] == cache[from]);
        lemma_cached_after_push(cache, entry, tab, date, from + 1);
    } else {
        assert(longer[from] == entry);
        assert(cached_from(longer, tab, date, from + 1) is None);
    }
}

/// The cache only grows, and only by a puzzle that arrived: an answer that
/// brings no puzzle leaves it as it is, so that one can ask again, and adds
/// one line to the log. A puzzle
/// that arrived while the cache had none for the tab and day is found there
/// afterwards, as it came.
pub proof fn lemma_store_fills_cache(s: AppView, outcome: Fetched)
    ensures
        s.cache.is_prefix_of(s.store(outcome).cache),
        s.arrival(outcome) is None <==> failure(outcome) is Some,
        s.arrival(outcome) is None ==> s.store(outcome).cache == s.cache,
        s.arrival(outcome) is None ==> s.store(outcome).lines.len() == s.lines.len() + 1
            && s.lines.is_prefix_of(s.store(outcome).lines),
        s.arrival(outcome) is Some ==> s.store(outcome).lines == s.lines,
        s.arrival(outcome) is Some ==> s.store(outcome).cached() is Some,
        s.arrival(outcome) is Some && s.cached() is None ==> outcome is Body && s.store(
            outcome,
        ).cached() == Some(outcome->Body_0@) && s.arrival(outcome) == Some(
            puzzle_of_text(outcome->Body_0@),
        ),
        s.cached() is Some ==> s.store(outcome).cached() == s.cached(),
{
    let t = s.store(outcome);
    assert(s.cache.is_prefix_of(t.cache));
    match outcome {
        Fetched::Body(text) => {
            lemma_cached_after_push(s.cache, (s.tab, s.date, text@), s.tab, s.date, 0);
        },
        Fetched::Failed => {},
    }
}

} // verus!
