//! What the three games read from a puzzle document.
//!
//! A document is decoded once, where it arrives: a string that is missing or
//! is no string becomes the empty string, a list that is missing or is no
//! list becomes the empty list. The games never look at the document again.

use vstd::prelude::*;
use vstd::string::*;
use crate::json::{lookup_from, Json};
use crate::text::texts;

verus! {

/// One of the three games.
#[derive(Clone, Copy, PartialEq, Eq, Debug, Structural)]
pub enum GameKind {
    /// Guess a five-letter word.
    WordGuess,
    /// Sort sixteen words into four groups.
    WordGroup,
    /// Find the theme words hidden in a board.
    WordFind,
}

/// The game of a tab, for the three tabs that have one.
pub open spec fn kind_of(tab: int) -> Option<GameKind> {
    if tab == 0 {
        Some(GameKind::WordGuess)
    } else if tab == 1 {
        Some(GameKind::WordGroup)
    } else if tab == 2 {
        Some(GameKind::WordFind)
    } else {
        None
    }
}

/// The longest guess that a tab lets one type.
pub open spec fn max_guess_len(tab: int) -> nat {
    match kind_of(tab) {
        Some(GameKind::WordGuess) => 5,
        Some(GameKind::WordGroup) => 4,
        Some(GameKind::WordFind) => 20,
        None => 1,
    }
}

/// Whether a guess of `len` characters may be submitted on a tab: the first
/// two games want a full buffer, the third at least four characters.
pub open spec fn may_submit(tab: int, len: nat) -> bool {
    match kind_of(tab) {
        Some(GameKind::WordGuess) => len == 5,
        Some(GameKind::WordGroup) => len == 4,
        Some(GameKind::WordFind) => len >= 4,
        None => true,
    }
}

impl GameKind {
    /// The game of a tab.
    pub fn of_tab(tab: u8) -> (r: Option<GameKind>)
        ensures
            r == kind_of(tab as int),
    {
        if tab == 0 {
            Some(GameKind::WordGuess)
        } else if tab == 1 {
            Some(GameKind::WordGroup)
        } else if tab == 2 {
            Some(GameKind::WordFind)
        } else {
            None
        }
    }
}

/// A group of the word-grouping game: the words on its cards.
#[derive(Debug, PartialEq, Eq)]
pub struct Category {
    pub cards: Vec<String>,
}

impl View for Category {
    type V = Seq<Seq<char>>;

    open spec fn view(&self) -> Seq<Seq<char>> {
        texts(self.cards@)
    }
}

/// The words of a list of groups, group by group.
pub open spec fn groups(categories: Seq<Category>) -> Seq<Seq<Seq<char>>> {
    Seq::new(categories.len(), |i: int| categories[i]@)
}

/// The content of a puzzle. Each game reads its own fields; the fields of the
/// other games are empty.
#[derive(Debug, PartialEq, Eq)]
pub struct Puzzle {
    /// The word to guess.
    pub solution: String,
    /// The groups to find.
    pub categories: Vec<Category>,
    /// The hint of the hidden-word game.
    pub clue: String,
    /// The special word that spans the board.
    pub spangram: String,
    /// The other words hidden in the board.
    pub theme_words: Vec<String>,
    /// The rows of the board.
    pub starting_board: Vec<String>,
}

/// A puzzle as plain sequences.
pub struct PuzzleView {
    pub solution: Seq<char>,
    pub categories: Seq<Seq<Seq<char>>>,
    pub clue: Seq<char>,
    pub spangram: Seq<char>,
    pub theme_words: Seq<Seq<char>>,
    pub starting_board: Seq<Seq<char>>,
}

impl View for Puzzle {
    type V = PuzzleView;

    open spec fn view(&self) -> PuzzleView {
        PuzzleView {
            solution: self.solution@,
            categories: groups(self.categories@),
            clue: self.clue@,
            spangram: self.spangram@,
            theme_words: texts(self.theme_words@),
            starting_board: texts(self.starting_board@),
        }
    }
}

/// The puzzle with nothing in it.
pub open spec fn empty_puzzle() -> PuzzleView {
    PuzzleView {
        solution: Seq::empty(),
        categories: Seq::empty(),
        clue: Seq::empty(),
        spangram: Seq::empty(),
        theme_words: Seq::empty(),
        starting_board: Seq::empty(),
    }
}

/// The characters of a value that is a string; nothing for any other value.
pub open spec fn text_or_empty(value: Json) -> Seq<char> {
    match value.text() {
        Some(t) => t,
        None => Seq::empty(),
    }
}

/// The string under `key`; empty where the member is missing or no string.
pub open spec fn text_at(doc: Json, key: Seq<char>) -> Seq<char> {
    match doc.member(key) {
        Some(value) => text_or_empty(value),
        None => Seq::empty(),
    }
}

/// The list under `key`; empty where the member is missing or no list.
pub open spec fn items_at(doc: Json, key: Seq<char>) -> Seq<Json> {
    match doc.member(key) {
        Some(value) => match value.items() {
            Some(items) => items,
            None => Seq::empty(),
        },
        None => Seq::empty(),
    }
}

/// Each element of a list read as a string.
pub open spec fn texts_of(items: Seq<Json>) -> Seq<Seq<char>> {
    Seq::new(items.len(), |i: int| text_or_empty(items[i]))
}

/// The words of the first `n` cards of a list. A card is an object; its word
/// is the string under `content`. Elements that are no objects are left out.
pub open spec fn card_words(cards: Seq<Json>, n: int) -> Seq<Seq<char>>
    decreases n,
{
    if n <= 0 || n > cards.len() {
        Seq::empty()
    } else if cards[n - 1] is Object {
        card_words(cards, n - 1).push(text_at(cards[n - 1], "content"@))
    } else {
        card_words(cards, n - 1)
    }
}

/// The words of a group: those of the cards under `cards`.
pub open spec fn group_of(category: Json) -> Seq<Seq<char>> {
    let cards = items_at(category, "cards"@);
    card_words(cards, cards.len() as int)
}

/// The groups of a list of group documents.
pub open spec fn groups_of(categories: Seq<Json>) -> Seq<Seq<Seq<char>>> {
    Seq::new(categories.len(), |i: int| group_of(categories[i]))
}

/// What a puzzle document holds for the games.
pub open spec fn decoded(doc: Json) -> PuzzleView {
    PuzzleView {
        solution: text_at(doc, "solution"@),
        categories: groups_of(items_at(doc, "categories"@)),
        clue: text_at(doc, "clue"@),
        spangram: text_at(doc, "spangram"@),
        theme_words: texts_of(items_at(doc, "themeWords"@)),
        starting_board: texts_of(items_at(doc, "startingBoard"@)),
    }
}

/// Whether the document carries the server's error mark: the string `ERROR`
/// under `status`.
pub open spec fn reports_error(doc: Json) -> bool {
    match doc.member("status"@) {
        Some(value) => value.text() == Some("ERROR"@),
        None => false,
    }
}

/// An object with the one member `key`.
fn single(key: &str, value: Json) -> (r: Json)
    ensures
        r is Object,
        r.member(key@) == Some(value),
{
    let mut members: Vec<(String, Json)> = Vec::new();
    members.push((String::from_str(key), value));
    Json::Object(members)
}

/// The list of the strings of `list` as string values.
fn text_items(list: &Vec<String>) -> (r: Json)
    ensures
        r is Array,
        r.items() is Some,
        texts_of(r.items()->0) == texts(list@),
{
    let mut items: Vec<Json> = Vec::new();
    let mut i: usize = 0;
    while i < list.len()
        invariant
            i <= list.len(),
            items@.len() == i,
            forall|k: int| 0 <= k < i ==> text_or_empty(items@[k]) == list@[k]@,
        decreases list.len() - i,
    {
        items.push(Json::Text(list[i].clone()));
        i += 1;
    }
    assert(texts_of(items@) =~= texts(list@));
    Json::Array(items)
}

/// The words of a list of cards that are all objects are the strings under
/// their `content`.
proof fn lemma_card_words_of_objects(cards: Seq<Json>, words: Seq<Seq<char>>, n: int)
    requires
        0 <= n <= cards.len(),
        cards.len() == words.len(),
        forall|k: int|
            0 <= k < cards.len() ==> (#[trigger] cards[k]) is Object && text_at(
                cards[k],
                "content"@,
            ) == words[k],
    ensures
        card_words(cards, n) == words.subrange(0, n),
    decreases n,
{
    if n > 0 {
        lemma_card_words_of_objects(cards, words, n - 1);
        assert(words.subrange(0, n) =~= words.subrange(0, n - 1).push(words[n - 1]));
    } else {
        assert(words.subrange(0, 0) =~= Seq::empty());
    }
}

/// The document of a group: its words as cards under `cards`.
fn category_document(category: &Category) -> (r: Json)
    ensures
        group_of(r) == category@,
{
    let mut cards: Vec<Json> = Vec::new();
    let mut i: usize = 0;
    while i < category.cards.len()
        invariant
            i <= category.cards.len(),
            cards@.len() == i,
            forall|k: int|
                0 <= k < i ==> (#[trigger] cards@[k]) is Object && text_at(
                    cards@[k],
                    "content"@,
                ) == category.cards@[k]@,
        decreases category.cards.len() - i,
    {
        cards.push(single("content", Json::Text(category.cards[i].clone())));
        i += 1;
    }
    proof {
        lemma_card_words_of_objects(cards@, category@, cards@.len() as int);
        assert(category@.subrange(0, cards@.len() as int) =~= category@);
    }
    single("cards", Json::Array(cards))
}

/// The string under `key`, or the empty string.
fn string_at(doc: &Json, key: &str) -> (r: String)
    ensures
        r@ == text_at(*doc, key@),
{
    match doc.get(key) {
        Some(value) => match value.as_text() {
            Some(s) => s.clone(),
            None => String::new(),
        },
        None => String::new(),
    }
}

/// The elements of the list under `key` read as strings, or the empty list.
fn strings_at(doc: &Json, key: &str) -> (r: Vec<String>)
    ensures
        texts(r@) == texts_of(items_at(*doc, key@)),
{
    let mut r: Vec<String> = Vec::new();
    match doc.get(key) {
        Some(value) => match value.as_items() {
            Some(items) => {
                let mut i: usize = 0;
                while i < items.len()
                    invariant
                        i <= items.len(),
                        r@.len() == i,
                        forall|k: int| 0 <= k < i ==> r@[k]@ == text_or_empty(items@[k]),
                    decreases items.len() - i,
                {
                    let s = match items[i].as_text() {
                        Some(s) => s.clone(),
                        None => String::new(),
                    };
                    r.push(s);
                    i += 1;
                }
                assert(texts(r@) =~= texts_of(items@));
            },
            None => {
                assert(texts(r@) =~= Seq::empty());
                assert(texts_of(Seq::<Json>::empty()) =~= Seq::empty());
            },
        },
        None => {
            assert(texts(r@) =~= Seq::empty());
            assert(texts_of(Seq::<Json>::empty()) =~= Seq::empty());
        },
    }
    r
}

/// The group that a group document describes.
fn category_from(category: &Json) -> (r: Category)
    ensures
        r@ == group_of(*category),
{
    let mut words: Vec<String> = Vec::new();
    match category.get("cards") {
        Some(value) => match value.as_items() {
            Some(cards) => {
                let mut i: usize = 0;
                assert(texts(words@) =~= card_words(cards@, 0));
                while i < cards.len()
                    invariant
                        i <= cards.len(),
                        texts(words@) == card_words(cards@, i as int),
                    decreases cards.len() - i,
                {
                    if cards[i].is_object() {
                        let word = string_at(&cards[i], "content");
                        proof {
                            crate::text::lemma_texts_push(words@, word);
                        }
                        words.push(word);
                    }
                    i += 1;
                }
            },
            None => {
                assert(texts(words@) =~= Seq::empty());
            },
        },
        None => {
            assert(texts(words@) =~= Seq::empty());
        },
    }
    Category { cards: words }
}

/// The groups under `categories`.
fn categories_from(doc: &Json) -> (r: Vec<Category>)
    ensures
        groups(r@) == groups_of(items_at(*doc, "categories"@)),
{
    let mut r: Vec<Category> = Vec::new();
    match doc.get("categories") {
        Some(value) => match value.as_items() {
            Some(items) => {
                let mut i: usize = 0;
                while i < items.len()
                    invariant
                        i <= items.len(),
                        r@.len() == i,
                        forall|k: int| 0 <= k < i ==> r@[k]@ == group_of(items@[k]),
                    decreases items.len() - i,
                {
                    r.push(category_from(&items[i]));
                    i += 1;
                }
                assert(groups(r@) =~= groups_of(items@));
            },
            None => {
                assert(groups(r@) =~= Seq::empty());
                assert(groups_of(Seq::<Json>::empty()) =~= Seq::empty());
            },
        },
        None => {
            assert(groups(r@) =~= Seq::empty());
            assert(groups_of(Seq::<Json>::empty()) =~= Seq::empty());
        },
    }
    r
}

impl Puzzle {
    /// The puzzle with nothing in it.
    pub fn empty() -> (r: Puzzle)
        ensures
            r@ == empty_puzzle(),
    {
        let r = Puzzle {
            solution: String::new(),
            categories: Vec::new(),
            clue: String::new(),
            spangram: String::new(),
            theme_words: Vec::new(),
            starting_board: Vec::new(),
        };
        assert(groups(r.categories@) =~= Seq::empty());
        assert(texts(r.theme_words@) =~= Seq::empty());
        assert(texts(r.starting_board@) =~= Seq::empty());
        r
    }

    /// Reads the fields of the three games out of a puzzle document.
    pub fn decode(doc: &Json) -> (r: Puzzle)
        ensures
            r@ == decoded(*doc),
    {
        Puzzle {
            solution: string_at(doc, "solution"),
            categories: categories_from(doc),
            clue: string_at(doc, "clue"),
            spangram: string_at(doc, "spangram"),
            theme_words: strings_at(doc, "themeWords"),
            starting_board: strings_at(doc, "startingBoard"),
        }
    }

    /// A document that holds this puzzle: decoding it gives the puzzle back.
    pub fn document(&self) -> (r: Json)
        ensures
            decoded(r) == self@,
    {
        let mut items: Vec<Json> = Vec::new();
        let mut i: usize = 0;
        while i < self.categories.len()
            invariant
                i <= self.categories.len(),
                items@.len() == i,
                forall|k: int| 0 <= k < i ==> group_of(items@[k]) == self.categories@[k]@,
            decreases self.categories.len() - i,
        {
            items.push(category_document(&self.categories[i]));
            i += 1;
        }
        assert(groups_of(items@) =~= groups(self.categories@));
        let mut members: Vec<(String, Json)> = Vec::new();
        members.push((String::from_str("solution"), Json::Text(self.solution.clone())));
        members.push((String::from_str("categories"), Json::Array(items)));
        members.push((String::from_str("clue"), Json::Text(self.clue.clone())));
        members.push((String::from_str("spangram"), Json::Text(self.spangram.clone())));
        members.push((String::from_str("themeWords"), text_items(&self.theme_words)));
        members.push((String::from_str("startingBoard"), text_items(&self.starting_board)));
        let r = Json::Object(members);
        proof {
            reveal_strlit("solution");
            reveal_strlit("categories");
            reveal_strlit("clue");
            reveal_strlit("spangram");
            reveal_strlit("themeWords");
            reveal_strlit("startingBoard");
            reveal_with_fuel(lookup_from, 7);
            assert("solution"@.len() == 8 && "categories"@.len() == 10 && "clue"@.len() == 4);
            assert("spangram"@.len() == 8 && "themeWords"@.len() == 10);
            assert("startingBoard"@.len() == 13);
            assert("solution"@[1] != "spangram"@[1]);
            assert("categories"@[0] != "themeWords"@[0]);
            assert(members@[0].0@ == "solution"@ && members@[1].0@ == "categories"@);
            assert(members@[2].0@ == "clue"@ && members@[3].0@ == "spangram"@);
            assert(members@[4].0@ == "themeWords"@ && members@[5].0@ == "startingBoard"@);
            assert(r.member("solution"@) == Some(members@[0].1));
            assert(r.member("categories"@) == Some(members@[1].1));
            assert(r.member("clue"@) == Some(members@[2].1));
            assert(r.member("spangram"@) == Some(members@[3].1));
            assert(r.member("themeWords"@) == Some(members@[4].1));
            assert(r.member("startingBoard"@) == Some(members@[5].1));
        }
        r
    }

    /// Whether a document carries the server's error mark.
    pub fn is_error(doc: &Json) -> (r: bool)
        ensures
            r == reports_error(*doc),
    {
        match doc.get("status") {
            Some(value) => match value.as_text() {
                Some(s) => {
                    let mark = String::from_str("ERROR");
                    *s == mark
                },
                None => false,
            },
            None => false,
        }
    }
}

} // verus!
