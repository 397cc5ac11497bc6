use nytg::date::Date;
use nytg::json::Json;
use nytg::puzzle::{GameKind, Puzzle};
use nytg::text::{
    chars_of_text, decimal, join_with, list_contains, push_line, push_lines,
    text_of_chars, word_list,
};

fn strings(words: &[&str]) -> Vec<String> {
    words.iter().map(|w| w.to_string()).collect()
}

fn text(s: &str) -> Json {
    Json::Text(s.to_string())
}

fn object(members: Vec<(&str, Json)>) -> Json {
    Json::Object(members.into_iter().map(|(k, v)| (k.to_string(), v)).collect())
}

fn texts_of(doc: &Json, key: &str) -> Option<String> {
    doc.get(key).and_then(|v| v.as_text()).cloned()
}

#[test]
fn decimal_writes_base_ten() {
    assert_eq!(decimal(0), "0");
    assert_eq!(decimal(7), "7");
    assert_eq!(decimal(10), "10");
    assert_eq!(decimal(255), "255");
    assert_eq!(decimal(1024), "1024");
    assert_eq!(decimal(9_007_199), "9007199");
}

#[test]
fn join_puts_separator_between() {
    assert_eq!(join_with(&strings(&["a", "b", "c"]), ", "), "a, b, c");
    assert_eq!(join_with(&strings(&["a"]), ", "), "a");
    assert_eq!(join_with(&strings(&[]), ", "), "");
    assert_eq!(join_with(&strings(&["", ""]), "-"), "-");
}

#[test]
fn chars_and_text_convert_both_ways() {
    assert_eq!(text_of_chars(&vec!['c', 'r', 'a', 'n', 'e']), "crane");
    assert_eq!(text_of_chars(&Vec::new()), "");
    assert_eq!(chars_of_text("héllo"), vec!['h', 'é', 'l', 'l', 'o']);
}

#[test]
fn lists_are_searched() {
    let list = strings(&["crane", "apple"]);
    assert!(list_contains(&list, &"apple".to_string()));
    assert!(!list_contains(&list, &"Apple".to_string()));
    assert!(!list_contains(&Vec::new(), &"apple".to_string()));
}

#[test]
fn lines_are_pushed_at_the_end() {
    let mut list = strings(&["a"]);
    push_line(&mut list, "b".to_string());
    push_lines(&mut list, &strings(&["c", "d"]));
    assert_eq!(list, strings(&["a", "b", "c", "d"]));
}

#[test]
fn word_list_splits_and_trims() {
    assert_eq!(word_list("apple\ncrane\n"), strings(&["apple", "crane", ""]));
    assert_eq!(word_list("apple\r\n  crane \t\nplumb"), strings(&["apple", "crane", "plumb"]));
    assert_eq!(word_list(""), strings(&[""]));
    assert_eq!(word_list("\n\n"), strings(&["", "", ""]));
}

#[test]
fn dates_are_written_by_the_calendar() {
    assert_eq!(Date { days: 730_000 }.text(), "1999-09-03");
    assert_eq!(Date { days: 1 }.text(), "0001-01-01");
    assert_eq!(Date { days: 0 }.text(), "0000-12-31");
    assert_eq!(Date { days: 739_001 }.text(), "2024-04-25");
    // Month and year boundaries.
    assert_eq!(Date { days: 738_521 }.text(), "2023-01-01");
    assert_eq!(Date { days: 738_520 }.text(), "2022-12-31");
    assert_eq!(Date { days: 738_946 }.text(), "2024-03-01");
    assert_eq!(Date { days: 738_945 }.text(), "2024-02-29");
}

#[test]
fn dates_outside_the_calendar_have_no_text() {
    assert_eq!(Date { days: 100_000_000 }.text(), "");
    assert_eq!(Date { days: -100_000_000 }.text(), "");
    assert_eq!(Date { days: i32::MAX }.text(), "");
}

#[test]
fn next_and_previous_day() {
    let day = Date { days: 738_519 };
    assert_eq!(day.next_day(), Date { days: 738_520 });
    assert_eq!(day.prev_day(), Date { days: 738_518 });
    assert_eq!(day.next_day().prev_day(), day);
    assert_eq!(day.prev_day().next_day(), day);
}

#[test]
fn kinds_of_tabs() {
    assert_eq!(GameKind::of_tab(0), Some(GameKind::WordGuess));
    assert_eq!(GameKind::of_tab(1), Some(GameKind::WordGroup));
    assert_eq!(GameKind::of_tab(2), Some(GameKind::WordFind));
    assert_eq!(GameKind::of_tab(3), None);
    assert_eq!(GameKind::of_tab(255), None);
}

#[test]
fn json_members_are_looked_up() {
    let doc = object(vec![("a", text("x")), ("b", Json::Null), ("c", Json::Array(vec![text("y")]))]);
    assert_eq!(texts_of(&doc, "a"), Some("x".to_string()));
    assert_eq!(texts_of(&doc, "b"), None);
    assert!(doc.get("b").is_some());
    assert!(doc.get("missing").is_none());
    assert!(text("x").get("a").is_none());
    assert_eq!(doc.get("c").and_then(|v| v.as_items()).map(|v| v.len()), Some(1));
    assert!(doc.get("a").and_then(|v| v.as_items()).is_none());
    assert!(doc.is_object());
    assert!(!Json::Null.is_object());
    assert!(!Json::Bool(true).is_object());
    assert!(Json::Number("1".to_string()).as_text().is_none());
}

#[test]
fn decode_reads_word_guess() {
    let doc = object(vec![("id", Json::Number("7".to_string())), ("solution", text("crane"))]);
    let puzzle = Puzzle::decode(&doc);
    assert_eq!(puzzle.solution, "crane");
    assert!(puzzle.categories.is_empty());
    assert_eq!(puzzle.clue, "");
    assert_eq!(puzzle.spangram, "");
    assert!(puzzle.theme_words.is_empty());
    assert!(puzzle.starting_board.is_empty());
}

#[test]
fn decode_reads_word_group() {
    let card = |word: &str| object(vec![("content", text(word)), ("position", Json::Null)]);
    let doc = object(vec![(
        "categories",
        Json::Array(vec![
            object(vec![
                ("title", text("PETS")),
                ("cards", Json::Array(vec![card("cat"), card("dog"), Json::Null, card("cow")])),
            ]),
            object(vec![("cards", Json::Array(vec![object(vec![]), card("one")]))]),
            object(vec![("cards", text("none"))]),
            Json::Bool(false),
        ]),
    )]);
    let puzzle = Puzzle::decode(&doc);
    let groups: Vec<Vec<String>> = puzzle.categories.iter().map(|c| c.cards.clone()).collect();
    assert_eq!(
        groups,
        vec![
            vec!["cat".to_string(), "dog".to_string(), "cow".to_string()],
            vec!["".to_string(), "one".to_string()],
            vec![],
            vec![],
        ]
    );
}

#[test]
fn decode_reads_word_find() {
    let doc = object(vec![
        ("clue", text("In the orchard")),
        ("spangram", text("FRUITBOWL")),
        ("themeWords", Json::Array(vec![text("APPLE"), Json::Null, text("PEAR")])),
        ("startingBoard", Json::Array(vec![text("ABCDEF"), text("GHIJKL")])),
    ]);
    let puzzle = Puzzle::decode(&doc);
    assert_eq!(puzzle.clue, "In the orchard");
    assert_eq!(puzzle.spangram, "FRUITBOWL");
    assert_eq!(puzzle.theme_words, strings(&["APPLE", "", "PEAR"]));
    assert_eq!(puzzle.starting_board, strings(&["ABCDEF", "GHIJKL"]));
    assert_eq!(puzzle.solution, "");
}

#[test]
fn decode_defaults_on_malformed_fields() {
    let doc = object(vec![
        ("solution", Json::Number("5".to_string())),
        ("categories", text("x")),
        ("clue", Json::Array(vec![])),
        ("themeWords", object(vec![])),
    ]);
    let puzzle = Puzzle::decode(&doc);
    assert_eq!(puzzle.solution, "");
    assert!(puzzle.categories.is_empty());
    assert_eq!(puzzle.clue, "");
    assert!(puzzle.theme_words.is_empty());
    let nothing = Puzzle::decode(&Json::Null);
    assert_eq!(nothing.solution, "");
    assert!(nothing.categories.is_empty());
    let empty = Puzzle::empty();
    assert_eq!(empty.solution, "");
    assert!(empty.starting_board.is_empty());
}

#[test]
fn error_mark_is_recognised() {
    assert!(Puzzle::is_error(&object(vec![("status", text("ERROR"))])));
    assert!(!Puzzle::is_error(&object(vec![("status", text("OK"))])));
    assert!(!Puzzle::is_error(&object(vec![("status", text("error"))])));
    assert!(!Puzzle::is_error(&object(vec![("status", Json::Null)])));
    assert!(!Puzzle::is_error(&object(vec![])));
    assert!(!Puzzle::is_error(&text("ERROR")));
}

#[test]
fn trimming_removes_exactly_the_white_space_characters() {
    let white = |c: char| {
        let n = c as u32;
        (0x09..=0x0D).contains(&n)
            || [0x20, 0x85, 0xA0, 0x1680, 0x2028, 0x2029, 0x202F, 0x205F, 0x3000].contains(&n)
            || (0x2000..=0x200A).contains(&n)
    };
    let mut count = 0;
    for c in '\0'..=char::MAX {
        if c == '\n' {
            continue;
        }
        let line = format!("{c}x{c}");
        let expected = if white(c) { "x".to_string() } else { line.clone() };
        assert_eq!(word_list(&line), vec![expected]);
        if white(c) {
            count += 1;
        }
    }
    assert_eq!(count, 24);
    assert_eq!(word_list("\nx\n"), strings(&["", "x", ""]));
}

#[test]
fn trimming_keeps_the_white_space_inside() {
    assert_eq!(word_list(" \t a b \u{3000}c\r"), strings(&["a b \u{3000}c"]));
    assert_eq!(word_list(" \t\r"), strings(&[""]));
    assert_eq!(word_list("ab"), strings(&["ab"]));
}

#[test]
fn a_puzzles_document_decodes_to_the_puzzle() {
    let card = |word: &str| object(vec![("content", text(word)), ("position", Json::Null)]);
    let doc = object(vec![
        ("solution", text("crane")),
        ("clue", text("In the orchard")),
        ("spangram", text("FRUITBOWL")),
        ("themeWords", Json::Array(vec![text("APPLE"), text("PEAR")])),
        ("startingBoard", Json::Array(vec![text("ABCDEF")])),
        (
            "categories",
            Json::Array(vec![
                object(vec![("cards", Json::Array(vec![card("cat"), card("dog")]))]),
                object(vec![("cards", Json::Array(vec![]))]),
            ]),
        ),
    ]);
    let puzzle = Puzzle::decode(&doc);
    let written = puzzle.document();
    assert_eq!(Puzzle::decode(&written), puzzle);
    assert_eq!(
        written,
        object(vec![
            ("solution", text("crane")),
            (
                "categories",
                Json::Array(vec![
                    object(vec![(
                        "cards",
                        Json::Array(vec![
                            object(vec![("content", text("cat"))]),
                            object(vec![("content", text("dog"))]),
                        ]),
                    )]),
                    object(vec![("cards", Json::Array(vec![]))]),
                ]),
            ),
            ("clue", text("In the orchard")),
            ("spangram", text("FRUITBOWL")),
            ("themeWords", Json::Array(vec![text("APPLE"), text("PEAR")])),
            ("startingBoard", Json::Array(vec![text("ABCDEF")])),
        ])
    );
    let empty = Puzzle::empty();
    assert_eq!(Puzzle::decode(&empty.document()), empty);
}
