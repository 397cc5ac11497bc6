//! Evaluation of the word-grouping game.
//!
//! The words of a puzzle are shown in some order, each under a letter. A guess
//! is four letters; the words under them are held against every group.

use vstd::prelude::*;
use vstd::string::*;
use crate::puzzle::{groups, Category};
use crate::text::{list_contains, texts};

verus! {

/// How close a guess of four words is to a group.
#[derive(Clone, Copy, PartialEq, Eq, Debug, Structural)]
pub enum MatchStatus {
    /// No group holds more than two of the words.
    Incorrect,
    /// Some group holds three of the words, and none holds four.
    OneAway,
    /// Some group holds four of the words.
    Correct,
}

/// The place of a label among the letters `a` to `z`.
pub open spec fn label_index(label: char) -> Option<int> {
    if 'a' <= label && label <= 'z' {
        Some(label as int - 'a' as int)
    } else {
        None
    }
}

/// The label of a place below twenty-six.
pub open spec fn label_at(place: int) -> char {
    ('a' as int + place) as char
}

/// The word under a label: the one at the label's place in the order, or
/// `Unknown` where the label is no letter or the order is too short.
pub open spec fn word_for(order: Seq<Seq<char>>, label: char) -> Seq<char> {
    match label_index(label) {
        Some(place) => if place < order.len() {
            order[place]
        } else {
            "Unknown"@
        },
        None => "Unknown"@,
    }
}

/// The words under a sequence of labels.
pub open spec fn words_for(order: Seq<Seq<char>>, labels: Seq<char>) -> Seq<Seq<char>> {
    Seq::new(labels.len(), |i: int| word_for(order, labels[i]))
}

/// Whether some label occurs twice.
pub open spec fn has_repeat(labels: Seq<char>) -> bool {
    exists|i: int, j: int| 0 <= i < j < labels.len() && labels[i] == labels[j]
}

/// Whether one of the words is in `used`.
pub open spec fn any_used(used: Seq<Seq<char>>, words: Seq<Seq<char>>) -> bool {
    exists|i: int| 0 <= i < words.len() && used.contains(#[trigger] words[i])
}

/// How many of the first `n` words are on a card of the group.
pub open spec fn hits(cards: Seq<Seq<char>>, words: Seq<Seq<char>>, n: int) -> nat
    decreases n,
{
    if n <= 0 || n > words.len() {
        0
    } else {
        let here: nat = if cards.contains(words[n - 1]) {
            1
        } else {
            0
        };
        hits(cards, words, n - 1) + here
    }
}

/// Whether some group holds exactly `count` of the words.
pub open spec fn some_group_holds(
    categories: Seq<Seq<Seq<char>>>,
    words: Seq<Seq<char>>,
    count: nat,
) -> bool {
    exists|c: int|
        0 <= c < categories.len() && #[trigger] hits(categories[c], words, words.len() as int)
            == count
}

/// The verdict on a guess: the best that any group gives.
pub open spec fn status_of(categories: Seq<Seq<Seq<char>>>, words: Seq<Seq<char>>) -> MatchStatus {
    if some_group_holds(categories, words, 4) {
        MatchStatus::Correct
    } else if some_group_holds(categories, words, 3) {
        MatchStatus::OneAway
    } else {
        MatchStatus::Incorrect
    }
}

/// What the log says of a verdict.
pub open spec fn status_text(status: MatchStatus) -> Seq<char> {
    match status {
        MatchStatus::Incorrect => "More than one away"@,
        MatchStatus::OneAway => "One away"@,
        MatchStatus::Correct => "Correct!"@,
    }
}

/// The place of a label among the letters `a` to `z`.
pub fn label_place(label: char) -> (r: Option<usize>)
    ensures
        match r {
            Some(place) => place < 26 && label_index(label) == Some(place as int),
            None => label_index(label) is None,
        },
{
    if 'a' <= label && label <= 'z' {
        Some((label as u32 - 'a' as u32) as usize)
    } else {
        None
    }
}

/// The label of a place.
pub fn label(place: usize) -> (r: char)
    requires
        place < 26,
    ensures
        r == label_at(place as int),
        label_index(r) == Some(place as int),
{
    let code: u8 = 'a' as u8 + place as u8;
    code as char
}

/// Whether some label occurs twice among the given ones.
pub fn has_repeated_label(labels: &Vec<char>) -> (r: bool)
    ensures
        r == has_repeat(labels@),
{
    let mut j: usize = 0;
    while j < labels.len()
        invariant
            j <= labels.len(),
            forall|a: int, b: int| 0 <= a < b < j ==> labels@[a] != labels@[b],
        decreases labels.len() - j,
    {
        let mut i: usize = 0;
        while i < j
            invariant
                i <= j < labels.len(),
                forall|a: int| 0 <= a < i ==> labels@[a] != labels@[j as int],
            decreases j - i,
        {
            if labels[i] == labels[j] {
                return true;
            }
            i += 1;
        }
        j += 1;
    }
    false
}

/// The words under the given labels.
pub fn select_words(order: &Vec<String>, labels: &Vec<char>) -> (r: Vec<String>)
    ensures
        texts(r@) == words_for(texts(order@), labels@),
{
    let mut r: Vec<String> = Vec::new();
    let mut i: usize = 0;
    while i < labels.len()
        invariant
            i <= labels.len(),
            r@.len() == i,
            forall|k: int| 0 <= k < i ==> r@[k]@ == word_for(texts(order@), labels@[k]),
        decreases labels.len() - i,
    {
        let word = match label_place(labels[i]) {
            Some(place) => if place < order.len() {
                order[place].clone()
            } else {
                String::from_str("Unknown")
            },
            None => String::from_str("Unknown"),
        };
        r.push(word);
        i += 1;
    }
    assert(texts(r@) =~= words_for(texts(order@), labels@));
    r
}

/// Whether one of the words is in `used`.
pub fn any_word_used(used: &Vec<String>, words: &Vec<String>) -> (r: bool)
    ensures
        r == any_used(texts(used@), texts(words@)),
{
    let mut i: usize = 0;
    while i < words.len()
        invariant
            i <= words.len(),
            forall|k: int| 0 <= k < i ==> !texts(used@).contains(#[trigger] texts(words@)[k]),
        decreases words.len() - i,
    {
        if list_contains(used, &words[i]) {
            assert(texts(words@)[i as int] == words@[i as int]@);
            return true;
        }
        assert(texts(words@)[i as int] == words@[i as int]@);
        i += 1;
    }
    false
}

/// How many of the words are on a card of the group.
pub fn count_hits(cards: &Vec<String>, words: &Vec<String>) -> (r: usize)
    ensures
        r == hits(texts(cards@), texts(words@), words@.len() as int),
{
    let mut r: usize = 0;
    let mut i: usize = 0;
    while i < words.len()
        invariant
            i <= words.len(),
            r <= i,
            r == hits(texts(cards@), texts(words@), i as int),
        decreases words.len() - i,
    {
        assert(texts(words@)[i as int] == words@[i as int]@);
        if list_contains(cards, &words[i]) {
            r += 1;
        }
        i += 1;
    }
    r
}

/// Holds a guess against every group and gives the best verdict.
pub fn evaluate(categories: &Vec<Category>, words: &Vec<String>) -> (r: MatchStatus)
    ensures
        r == status_of(groups(categories@), texts(words@)),
{
    let ghost gs = groups(categories@);
    let ghost ws = texts(words@);
    let mut three = false;
    let mut four = false;
    let mut c: usize = 0;
    while c < categories.len()
        invariant
            c <= categories.len(),
            gs == groups(categories@),
            ws == texts(words@),
            four == (exists|k: int| 0 <= k < c && #[trigger] hits(gs[k], ws, ws.len() as int) == 4),
            three == (exists|k: int|
                0 <= k < c && #[trigger] hits(gs[k], ws, ws.len() as int) == 3),
        decreases categories.len() - c,
    {
        let n = count_hits(&categories[c].cards, words);
        assert(gs[c as int] == texts(categories@[c as int].cards@));
        if n == 4 {
            four = true;
        }
        if n == 3 {
            three = true;
        }
        c += 1;
    }
    if four {
        MatchStatus::Correct
    } else if three {
        MatchStatus::OneAway
    } else {
        MatchStatus::Incorrect
    }
}

/// A guess whose `n` first words are all on the group's cards hits `n` times.
pub proof fn lemma_hits_all(cards: Seq<Seq<char>>, words: Seq<Seq<char>>, n: int)
    requires
        0 <= n <= words.len(),
        forall|i: int| 0 <= i < n ==> cards.contains(#[trigger] words[i]),
    ensures
        hits(cards, words, n) == n,
    decreases n,
{
    if n > 0 {
        lemma_hits_all(cards, words, n - 1);
    }
}

/// A guess hits a group at most once for each of its words that is on a card.
pub proof fn lemma_hits_bound(cards: Seq<Seq<char>>, words: Seq<Seq<char>>, n: int, odd: int)
    requires
        0 <= n <= words.len(),
        forall|i: int| 0 <= i < n && i != odd ==> !cards.contains(#[trigger] words[i]),
    ensures
        hits(cards, words, n) <= 1,
        !(0 <= odd < n) ==> hits(cards, words, n) == 0,
    decreases n,
{
    if n > 0 {
        lemma_hits_bound(cards, words, n - 1, odd);
    }
}

/// A guess with all words but the one at `odd` on the group's cards hits once
/// less than it has words.
pub proof fn lemma_hits_all_but_one(
    cards: Seq<Seq<char>>,
    words: Seq<Seq<char>>,
    n: int,
    odd: int,
)
    requires
        0 <= n <= words.len(),
        forall|i: int| 0 <= i < n && i != odd ==> cards.contains(#[trigger] words[i]),
        0 <= odd < words.len() ==> !cards.contains(words[odd]),
    ensures
        hits(cards, words, n) == if 0 <= odd < n {
            n - 1
        } else {
            n
        },
    decreases n,
{
    if n > 0 {
        lemma_hits_all_but_one(cards, words, n - 1, odd);
    }
}

/// No word is on the cards of two groups.
pub open spec fn groups_disjoint(categories: Seq<Seq<Seq<char>>>) -> bool {
    forall|a: int, b: int, word: Seq<char>|
        0 <= a < categories.len() && 0 <= b < categories.len() && a != b
            && #[trigger] categories[a].contains(word) ==> !#[trigger] categories[b].contains(
            word,
        )
}

/// Four words from one group are correct.
pub proof fn lemma_four_of_a_kind(
    categories: Seq<Seq<Seq<char>>>,
    words: Seq<Seq<char>>,
    group: int,
)
    requires
        0 <= group < categories.len(),
        words.len() == 4,
        forall|i: int| 0 <= i < 4 ==> categories[group].contains(#[trigger] words[i]),
    ensures
        status_of(categories, words) == MatchStatus::Correct,
{
    lemma_hits_all(categories[group], words, 4);
}

/// Three words from one group and the fourth from outside it are one away,
/// where no word belongs to two groups.
pub proof fn lemma_three_of_a_kind(
    categories: Seq<Seq<Seq<char>>>,
    words: Seq<Seq<char>>,
    group: int,
    odd: int,
)
    requires
        groups_disjoint(categories),
        0 <= group < categories.len(),
        words.len() == 4,
        0 <= odd < 4,
        forall|i: int| 0 <= i < 4 && i != odd ==> categories[group].contains(#[trigger] words[i]),
        !categories[group].contains(words[odd]),
    ensures
        status_of(categories, words) == MatchStatus::OneAway,
{
    lemma_hits_all_but_one(categories[group], words, 4, odd);
    assert forall|c: int| 0 <= c < categories.len() implies #[trigger] hits(
        categories[c],
        words,
        4,
    ) != 4 by {
        if c != group {
            assert forall|i: int| 0 <= i < 4 && i != odd implies !categories[c].contains(
                #[trigger] words[i],
            ) by {
                assert(categories[group].contains(words[i]));
            }
            lemma_hits_bound(categories[c], words, 4, odd);
        }
    }
}

/// A guess of which no group holds three or four words is incorrect.
pub proof fn lemma_otherwise_incorrect(categories: Seq<Seq<Seq<char>>>, words: Seq<Seq<char>>)
    requires
        forall|c: int|
            0 <= c < categories.len() ==> {
                let n = #[trigger] hits(categories[c], words, words.len() as int);
                n != 3 && n != 4
            },
    ensures
        status_of(categories, words) == MatchStatus::Incorrect,
{
}

} // verus!
