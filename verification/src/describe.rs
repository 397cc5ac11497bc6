//! The description of the puzzle on the active tab.

use vstd::prelude::*;
use vstd::string::*;
use crate::app::{App, AppView};
use crate::group::{label, label_at};
use crate::puzzle::{groups, kind_of, Category, GameKind};
use crate::text::{concat2, decimal, decimal_text, push_char, push_line, push_lines, texts};

verus! {

/// The words of the first `n` groups, group after group.
pub open spec fn pooled(categories: Seq<Seq<Seq<char>>>, n: int) -> Seq<Seq<char>>
    decreases n,
{
    if n <= 0 || n > categories.len() {
        Seq::empty()
    } else {
        pooled(categories, n - 1) + categories[n - 1]
    }
}

/// The words of all groups, group after group.
pub open spec fn all_words(categories: Seq<Seq<Seq<char>>>) -> Seq<Seq<char>> {
    pooled(categories, categories.len() as int)
}

/// The line that shows the word at a place of the order under its label.
pub open spec fn label_line(order: Seq<Seq<char>>, place: int) -> Seq<char> {
    seq![label_at(place)] + ". "@ + order[place]
}

/// The lines that show the words under their labels. There are twenty-six
/// labels: words after the twenty-sixth get no line.
pub open spec fn labelled(order: Seq<Seq<char>>) -> Seq<Seq<char>> {
    Seq::new(
        if order.len() < 26 {
            order.len()
        } else {
            26
        },
        |place: int| label_line(order, place),
    )
}

/// The number of hidden words of a puzzle with the given number of theme
/// words: one more, for the spangram, as far as the machine can count.
pub open spec fn needed_count(theme_words: nat) -> nat {
    if theme_words < usize::MAX {
        theme_words + 1
    } else {
        theme_words
    }
}

impl AppView {
    /// The description becomes that of the loaded puzzle, whatever it held
    /// before. On the grouping tab the words are shown in the given order,
    /// which becomes the order of the session; on the hidden-word tab the
    /// number of words to find is set. On a tab without a game nothing
    /// changes.
    pub open spec fn describe(self, order: Seq<Seq<char>>) -> AppView {
        match kind_of(self.tab) {
            Some(GameKind::WordGuess) => AppView {
                description: seq![
                    "Wordle: Guess a five letter word to win the game."@,
                    Seq::empty(),
                ],
                ..self
            },
            Some(GameKind::WordGroup) => AppView {
                word_order: order,
                description: seq![
                    "Connections: Group words by a common thread."@,
                    Seq::empty(),
                ] + labelled(order) + seq![Seq::empty()],
                ..self
            },
            Some(GameKind::WordFind) => {
                let needed = needed_count(self.puzzle.theme_words.len());
                AppView {
                    needed_words: needed,
                    description: seq![
                        "Strands: Uncover words."@,
                        "Clue: "@ + self.puzzle.clue,
                        "Theme words: "@ + decimal_text(needed),
                        Seq::empty(),
                    ] + self.puzzle.starting_board + seq![Seq::empty()],
                    ..self
                }
            },
            None => self,
        }
    }
}

/// Calls `rand::seq::SliceRandom::shuffle` with the generator of
/// `rand::thread_rng`. Which order comes out is left open; the shuffle only
/// swaps elements, so the list holds the same strings as before, each as
/// often as before.
#[verifier::external_body]
fn shuffle(words: &mut Vec<String>)
    ensures
        texts(final(words)@).to_multiset() == texts(old(words)@).to_multiset(),
{
    rand::seq::SliceRandom::shuffle(words.as_mut_slice(), &mut rand::thread_rng());
}

/// The words of all groups, group after group.
pub fn pool(categories: &Vec<Category>) -> (r: Vec<String>)
    ensures
        texts(r@) == all_words(groups(categories@)),
{
    let mut r: Vec<String> = Vec::new();
    let mut i: usize = 0;
    assert(texts(r@) =~= pooled(groups(categories@), 0));
    while i < categories.len()
        invariant
            i <= categories.len(),
            texts(r@) == pooled(groups(categories@), i as int),
        decreases categories.len() - i,
    {
        push_lines(&mut r, &categories[i].cards);
        assert(groups(categories@)[i as int] == texts(categories@[i as int].cards@));
        i += 1;
    }
    r
}

/// The lines that show the words under their labels.
pub fn label_lines(order: &Vec<String>) -> (r: Vec<String>)
    ensures
        texts(r@) == labelled(texts(order@)),
{
    let mut r: Vec<String> = Vec::new();
    let mut i: usize = 0;
    while i < order.len() && i < 26
        invariant
            i <= order.len(),
            i <= 26,
            r@.len() == i,
            forall|k: int| 0 <= k < i ==> r@[k]@ == label_line(texts(order@), k),
        decreases order.len() - i,
    {
        let mut line = String::new();
        push_char(&mut line, label(i));
        line.append(". ");
        line.append(order[i].as_str());
        assert(line@ =~= label_line(texts(order@), i as int));
        r.push(line);
        i += 1;
    }
    assert(texts(r@) =~= labelled(texts(order@)));
    r
}

impl App {
    /// Writes the description of the loaded puzzle anew, with the words of
    /// the grouping game in the given order.
    pub fn generate_game_string_with(&mut self, order: Vec<String>)
        ensures
            final(self).page == old(self).page,
            final(self)@ == old(self)@.describe(texts(order@)),
    {
        let kind = GameKind::of_tab(self.page.index);
        if kind.is_none() {
            return ;
        }
        self.game_string.clear();
        assert(texts(self.game_string@) =~= Seq::empty());
        if let Some(GameKind::WordGuess) = kind {
            push_line(
                &mut self.game_string,
                String::from_str("Wordle: Guess a five letter word to win the game."),
            );
            push_line(&mut self.game_string, String::new());
            assert(self@.description =~= old(self)@.describe(texts(order@)).description);
        } else if let Some(GameKind::WordGroup) = kind {
            push_line(
                &mut self.game_string,
                String::from_str("Connections: Group words by a common thread."),
            );
            push_line(&mut self.game_string, String::new());
            let lines = label_lines(&order);
            push_lines(&mut self.game_string, &lines);
            push_line(&mut self.game_string, String::new());
            self.word_order = order;
            assert(self@.description =~= old(self)@.describe(texts(order@)).description);
        } else if let Some(GameKind::WordFind) = kind {
            let theme = self.current_game.1.theme_words.len();
            let needed = if theme < usize::MAX {
                theme + 1
            } else {
                theme
            };
            self.needed_words = needed;
            push_line(&mut self.game_string, String::from_str("Strands: Uncover words."));
            let clue = concat2("Clue: ", self.current_game.1.clue.as_str());
            push_line(&mut self.game_string, clue);
            let count = concat2("Theme words: ", decimal(needed).as_str());
            push_line(&mut self.game_string, count);
            push_line(&mut self.game_string, String::new());
            push_lines(&mut self.game_string, &self.current_game.1.starting_board);
            push_line(&mut self.game_string, String::new());
            assert(self@.description =~= old(self)@.describe(texts(order@)).description);
        }
    }

    /// Writes the description of the loaded puzzle anew. The words of the
    /// grouping game are shown in a random order:
    /// whatever the order, it holds the words of the puzzle's groups, each as
    /// often as the groups hold it.
    pub fn generate_game_string(&mut self)
        ensures
            final(self).page == old(self).page,
            final(self)@ == old(self)@.describe(final(self)@.word_order),
            kind_of(old(self)@.tab) == Some(GameKind::WordGroup)
                ==> final(self)@.word_order.to_multiset() == all_words(
                old(self)@.puzzle.categories,
            ).to_multiset(),
    {
        if let Some(GameKind::WordGroup) = GameKind::of_tab(self.page.index) {
            let mut words = pool(&self.current_game.1.categories);
            shuffle(&mut words);
            self.generate_game_string_with(words);
        } else {
            self.generate_game_string_with(Vec::new());
        }
    }
}

} // verus!
