//! What a frame shows of a session.

use vstd::prelude::*;
use vstd::string::*;
use crate::app::{App, AppView};
use crate::date::date_text;
use crate::puzzle::{kind_of, GameKind};
use crate::text::{concat2, push_line, push_lines, text_of_chars, texts};

verus! {

/// The name under which a tab's game is shown.
pub open spec fn game_name(kind: GameKind) -> Seq<char> {
    match kind {
        GameKind::WordGuess => "Wordle"@,
        GameKind::WordGroup => "Connections"@,
        GameKind::WordFind => "Strands"@,
    }
}

impl AppView {
    /// The lines of the frame: the description, the log and, until the puzzle
    /// is solved, the guess being typed.
    pub open spec fn screen(self) -> Seq<Seq<char>> {
        if self.complete {
            self.description + self.lines
        } else {
            (self.description + self.lines).push("GUESS: "@ + self.buffer)
        }
    }

    /// The title of the frame: the game and the day. A tab without a game
    /// has no title.
    pub open spec fn title(self) -> Option<Seq<char>> {
        match kind_of(self.tab) {
            Some(kind) => Some(game_name(kind) + " on "@ + date_text(self.date)),
            None => None,
        }
    }
}

impl App {
    /// The lines that the frame shows.
    pub fn screen(&self) -> (r: Vec<String>)
        ensures
            texts(r@) == self@.screen(),
    {
        let mut r: Vec<String> = Vec::new();
        assert(texts(r@) =~= Seq::empty());
        push_lines(&mut r, &self.game_string);
        push_lines(&mut r, &self.lines);
        assert(texts(r@) =~= self@.description + self@.lines);
        if !self.game_complete {
            let typed = text_of_chars(&self.guess_buffer);
            push_line(&mut r, concat2("GUESS: ", typed.as_str()));
        }
        r
    }

    /// The title that the frame shows.
    pub fn title(&self) -> (r: Option<String>)
        ensures
            match r {
                Some(title) => self@.title() == Some(title@),
                None => self@.title() is None,
            },
    {
        let name = match GameKind::of_tab(self.page.index) {
            Some(GameKind::WordGuess) => "Wordle",
            Some(GameKind::WordGroup) => "Connections",
            Some(GameKind::WordFind) => "Strands",
            None => {
                return None;
            },
        };
        let mut title = concat2(name, " on ");
        title.append(self.date.text().as_str());
        Some(title)
    }
}

} // verus!
