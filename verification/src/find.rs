//! Evaluation of the hidden-word game.

use vstd::prelude::*;
use vstd::string::*;
use crate::text::{lowercase, lowercase_of, texts};

verus! {

/// What a guess turned out to be.
#[derive(Clone, Copy, PartialEq, Eq, Debug, Structural)]
pub enum FindResult {
    /// The guess is the spangram.
    SpangramMatch,
    /// The guess is a theme word, and not the spangram.
    ThemeMatch,
    /// The guess is neither.
    NoMatch,
}

/// Whether the guess is one of the theme words, case aside.
pub open spec fn is_theme_word(guess: Seq<char>, theme_words: Seq<Seq<char>>) -> bool {
    exists|i: int| 0 <= i < theme_words.len() && lowercase_of(#[trigger] theme_words[i]) == guess
}

/// The verdict on a guess that has been put in lower case. The spangram and
/// the theme words are put in lower case before they are compared.
pub open spec fn find_result(
    guess: Seq<char>,
    spangram: Seq<char>,
    theme_words: Seq<Seq<char>>,
) -> FindResult {
    if lowercase_of(spangram) == guess {
        FindResult::SpangramMatch
    } else if is_theme_word(guess, theme_words) {
        FindResult::ThemeMatch
    } else {
        FindResult::NoMatch
    }
}

/// Compares a guess in lower case with the spangram and the theme words.
pub fn evaluate_find(guess: &String, spangram: &String, theme_words: &Vec<String>) -> (r:
    FindResult)
    ensures
        r == find_result(guess@, spangram@, texts(theme_words@)),
{
    let folded = lowercase(spangram.as_str());
    if folded == *guess {
        return FindResult::SpangramMatch;
    }
    let mut i: usize = 0;
    while i < theme_words.len()
        invariant
            i <= theme_words.len(),
            lowercase_of(spangram@) != guess@,
            forall|k: int| 0 <= k < i ==> lowercase_of(#[trigger] texts(theme_words@)[k]) != guess@,
        decreases theme_words.len() - i,
    {
        let word = lowercase(theme_words[i].as_str());
        assert(texts(theme_words@)[i as int] == theme_words@[i as int]@);
        if word == *guess {
            return FindResult::ThemeMatch;
        }
        i += 1;
    }
    FindResult::NoMatch
}

} // verus!
