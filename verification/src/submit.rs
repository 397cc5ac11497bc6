//! What happens when a guess is submitted.

use vstd::prelude::*;
use vstd::string::*;
use crate::app::{App, AppView};
use crate::find::{evaluate_find, find_result, FindResult};
use crate::group::{
    any_used, any_word_used, evaluate, has_repeat, has_repeated_label, select_words, status_of,
    status_text, words_for, MatchStatus,
};
use crate::puzzle::{kind_of, may_submit, GameKind};
use crate::score::{calc_game, paint, painted, tags};
use crate::text::{
    chars_of_text, concat2, concat3, join_with, joined, list_contains, lowercase, lowercase_of,
    push_line, push_lines, text_of_chars,
};

verus! {

/// The log line of the guessing game: the guess and its coloured verdicts.
pub open spec fn guess_line(guess: Seq<char>, solution: Seq<char>) -> Seq<char> {
    guess + ", "@ + painted(tags(solution, guess), guess.len() as int)
}

/// The log line of the grouping game: the chosen words and the verdict.
pub open spec fn group_line(words: Seq<Seq<char>>, status: MatchStatus) -> Seq<char> {
    joined(words, ", "@) + " - "@ + status_text(status)
}

impl AppView {
    /// A guess of the guessing game, already in the history. A guess that is
    /// not in the word list changes nothing more. Any other is scored and
    /// logged, and the guess that equals the solution completes the puzzle.
    pub open spec fn submit_guess(self, guess: Seq<char>) -> AppView {
        if !self.words.contains(guess) {
            self
        } else {
            let logged = self.lines.push(guess_line(guess, self.puzzle.solution));
            if guess == self.puzzle.solution {
                AppView {
                    lines: logged.push("Game complete!"@),
                    complete: true,
                    buffer: Seq::empty(),
                    ..self
                }
            } else {
                AppView { lines: logged, buffer: Seq::empty(), ..self }
            }
        }
    }

    /// A guess of the grouping game, already in the history. A guess that
    /// names a label twice, or a word of a group found earlier, changes
    /// nothing more. Any other is evaluated and logged; the words of a
    /// correct guess become used, and the guess with which the used words
    /// reach sixteen completes the puzzle.
    pub open spec fn submit_group(self, labels: Seq<char>) -> AppView {
        let words = words_for(self.word_order, labels);
        if has_repeat(labels) || any_used(self.used_words, words) {
            self
        } else {
            let status = status_of(self.puzzle.categories, words);
            let logged = self.lines.push(group_line(words, status));
            let used = if status == MatchStatus::Correct {
                self.used_words + words
            } else {
                self.used_words
            };
            if status == MatchStatus::Correct && used.len() == 16 {
                AppView {
                    lines: logged.push("Game complete!"@),
                    used_words: used,
                    complete: true,
                    buffer: Seq::empty(),
                    ..self
                }
            } else {
                AppView { lines: logged, used_words: used, buffer: Seq::empty(), ..self }
            }
        }
    }

    /// A guess of the hidden-word game, already in the history. The guess is
    /// put in lower case. One that was found before only empties the buffer.
    /// The spangram and the theme words are logged and become found. After
    /// any guess that was not found before, whatever it matched, the puzzle
    /// is complete if as many words are found as it needs.
    pub open spec fn submit_find(self, guess: Seq<char>) -> AppView {
        let folded = lowercase_of(guess);
        if self.found_words.contains(folded) {
            AppView { buffer: Seq::empty(), ..self }
        } else {
            let result = find_result(folded, self.puzzle.spangram, self.puzzle.theme_words);
            let logged = match result {
                FindResult::SpangramMatch => self.lines.push(folded + " is the Spangram!"@),
                FindResult::ThemeMatch => self.lines.push(folded + " is a theme word!"@),
                FindResult::NoMatch => self.lines,
            };
            let found = match result {
                FindResult::NoMatch => self.found_words,
                _ => self.found_words.push(folded),
            };
            if found.len() == self.needed_words {
                AppView {
                    lines: logged.push("Game complete!"@),
                    found_words: found,
                    complete: true,
                    buffer: Seq::empty(),
                    ..self
                }
            } else {
                AppView { lines: logged, found_words: found, buffer: Seq::empty(), ..self }
            }
        }
    }

    /// A guess on a tab that has no game, already in the history.
    pub open spec fn submit_unknown(self, guess: Seq<char>) -> AppView {
        AppView {
            lines: self.lines.push("Unknown Game Guess "@ + guess),
            buffer: Seq::empty(),
            ..self
        }
    }

    /// The guess is submitted. Nothing happens unless its length suits the
    /// tab's game. Otherwise the guess enters the history and the game of the
    /// tab deals with it.
    pub open spec fn enter(self) -> AppView {
        if !may_submit(self.tab, self.buffer.len()) {
            self
        } else {
            let guess = self.buffer;
            let noted = AppView { guesses: self.guesses.push(guess), ..self };
            match kind_of(self.tab) {
                Some(GameKind::WordGuess) => noted.submit_guess(guess),
                Some(GameKind::WordGroup) => noted.submit_group(guess),
                Some(GameKind::WordFind) => noted.submit_find(guess),
                None => noted.submit_unknown(guess),
            }
        }
    }
}

/// What the log says of a verdict of the grouping game.
fn status_label(status: MatchStatus) -> (r: String)
    ensures
        r@ == status_text(status),
{
    match status {
        MatchStatus::Incorrect => String::from_str("More than one away"),
        MatchStatus::OneAway => String::from_str("One away"),
        MatchStatus::Correct => String::from_str("Correct!"),
    }
}

impl App {
    /// Deals with a five-letter guess that is already in the history.
    pub fn enter_word_guess(&mut self, guess: &String)
        requires
            guess@.len() == 5,
        ensures
            final(self).page == old(self).page,
            final(self)@ == old(self)@.submit_guess(guess@),
    {
        if !list_contains(&self.words, guess) {
            return ;
        }
        let verdicts = calc_game(self.current_game.1.solution.as_str(), guess.as_str());
        let line = concat3(guess.as_str(), ", ", paint(&verdicts).as_str());
        push_line(&mut self.lines, line);
        if *guess == self.current_game.1.solution {
            push_line(&mut self.lines, String::from_str("Game complete!"));
            self.game_complete = true;
        }
        self.guess_buffer.clear();
    }

    /// Deals with a guess of the grouping game that is already in the history.
    pub fn enter_group(&mut self, guess: &String)
        ensures
            final(self).page == old(self).page,
            final(self)@ == old(self)@.submit_group(guess@),
    {
        let labels = chars_of_text(guess.as_str());
        if has_repeated_label(&labels) {
            return ;
        }
        let words = select_words(&self.word_order, &labels);
        if any_word_used(&self.used_words, &words) {
            return ;
        }
        let status = evaluate(&self.current_game.1.categories, &words);
        let line = concat3(
            join_with(&words, ", ").as_str(),
            " - ",
            status_label(status).as_str(),
        );
        push_line(&mut self.lines, line);
        match status {
            MatchStatus::Correct => {
                push_lines(&mut self.used_words, &words);
                if self.used_words.len() == 16 {
                    self.game_complete = true;
                    push_line(&mut self.lines, String::from_str("Game complete!"));
                }
            },
            _ => {},
        }
        self.guess_buffer.clear();
    }

    /// Deals with a guess of the hidden-word game that is already in the
    /// history.
    pub fn enter_find(&mut self, guess: &String)
        ensures
            final(self).page == old(self).page,
            final(self)@ == old(self)@.submit_find(guess@),
    {
        let folded = lowercase(guess.as_str());
        if list_contains(&self.found_words, &folded) {
            self.guess_buffer.clear();
            return ;
        }
        let result = evaluate_find(
            &folded,
            &self.current_game.1.spangram,
            &self.current_game.1.theme_words,
        );
        match result {
            FindResult::SpangramMatch => {
                push_line(&mut self.lines, concat2(folded.as_str(), " is the Spangram!"));
                push_line(&mut self.found_words, folded);
            },
            FindResult::ThemeMatch => {
                push_line(&mut self.lines, concat2(folded.as_str(), " is a theme word!"));
                push_line(&mut self.found_words, folded);
            },
            FindResult::NoMatch => {},
        }
        if self.found_words.len() == self.needed_words {
            self.game_complete = true;
            push_line(&mut self.lines, String::from_str("Game complete!"));
        }
        self.guess_buffer.clear();
    }

    /// Deals with a guess on a tab that has no game.
    pub fn enter_unknown(&mut self, guess: &String)
        ensures
            final(self).page == old(self).page,
            final(self)@ == old(self)@.submit_unknown(guess@),
    {
        push_line(&mut self.lines, concat2("Unknown Game Guess ", guess.as_str()));
        self.guess_buffer.clear();
    }

    /// The guess is submitted.
    pub fn enter(&mut self)
        ensures
            final(self).page == old(self).page,
            final(self)@ == old(self)@.enter(),
    {
        let kind = GameKind::of_tab(self.page.index);
        let len = self.guess_buffer.len();
        let ready = match kind {
            Some(GameKind::WordGuess) => len == 5,
            Some(GameKind::WordGroup) => len == 4,
            Some(GameKind::WordFind) => len >= 4,
            None => true,
        };
        if !ready {
            return ;
        }
        let guess = text_of_chars(&self.guess_buffer);
        push_line(&mut self.guesses, guess.clone());
        match kind {
            Some(GameKind::WordGuess) => self.enter_word_guess(&guess),
            Some(GameKind::WordGroup) => self.enter_group(&guess),
            Some(GameKind::WordFind) => self.enter_find(&guess),
            None => self.enter_unknown(&guess),
        }
    }
}

} // verus!
