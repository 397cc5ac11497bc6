use nytg::app::{App, NO_GAME};
use nytg::date::Date;
use nytg::describe::{label_lines, pool};
use nytg::events::Event;
use nytg::fetch::{Download, FetchError, Fetched};
use nytg::json::Json;
use nytg::puzzle::{Category, Puzzle};
use nytg::tabs::Tabber;

const GREEN: &str = "\x1b[32mG\x1b[0m";
const YELLOW: &str = "\x1b[33mY\x1b[0m";
const GREY: &str = "\x1b[90mN\x1b[0m";

const GROUPS: &str = r#"{"status":"OK","categories":[
    {"title":"PETS","cards":[{"content":"cat","position":3},{"content":"dog"},{"content":"cow"},{"content":"pig"}]},
    {"title":"HUES","cards":[{"content":"red"},{"content":"blue"},{"content":"green"},{"content":"pink"}]},
    {"title":"NUMBERS","cards":[{"content":"one"},{"content":"two"},{"content":"six"},{"content":"ten"}]},
    {"title":"TREES","cards":[{"content":"oak"},{"content":"elm"},{"content":"ash"},{"content":"fir"}]}]}"#;

const BOARD: &str = r#"{"clue":"In the orchard","spangram":"FRUITBOWL",
    "themeWords":["APPLE","PEAR"],"startingBoard":["FRUITB","OWLAPP","LEPEAR"]}"#;

fn strings(words: &[&str]) -> Vec<String> {
    words.iter().map(|w| w.to_string()).collect()
}

fn day() -> Date {
    Date { days: 739_001 }
}

fn session() -> App {
    App::new(day(), strings(&["crane", "apple", "eerie", "pilot"]))
}

fn on_tab(index: u8) -> App {
    let mut app = session();
    app.page.index = index;
    app
}

fn type_text(app: &mut App, text: &str) {
    for c in text.chars() {
        app.key(c);
    }
}

fn submit(app: &mut App, text: &str) {
    type_text(app, text);
    app.enter();
}

fn buffer(app: &App) -> String {
    app.guess_buffer.iter().collect()
}

fn sorted(mut words: Vec<String>) -> Vec<String> {
    words.sort();
    words
}

fn sixteen() -> Vec<String> {
    strings(&[
        "cat", "dog", "cow", "pig", "red", "blue", "green", "pink", "one", "two", "six", "ten",
        "oak", "elm", "ash", "fir",
    ])
}

/// A session on the grouping tab whose words stand in the order of `sixteen`.
fn grouping() -> App {
    let mut app = on_tab(1);
    assert!(app.store(Fetched::Body(GROUPS.to_string())).is_ok());
    match app.download() {
        Download::Cached(tag, puzzle) => app.current_game = (tag, puzzle),
        Download::Request(_) => panic!("the puzzle was stored"),
    }
    app.generate_game_string_with(sixteen());
    app
}

fn finding() -> App {
    let mut app = on_tab(2);
    app.receive(Fetched::Body(BOARD.to_string()));
    app
}

#[test]
fn a_new_session_is_empty() {
    let app = session();
    assert_eq!(app.page.index, 0);
    assert_eq!(app.page.values, strings(&["Wordle", "Connections", "Strands"]));
    assert!(!app.should_quit);
    assert!(app.game_cache.is_empty());
    assert_eq!(app.date, day());
    assert_eq!(app.current_game.0, NO_GAME);
    assert_eq!(app.current_game.0, 255);
    assert_eq!(app.current_game.1.solution, "");
    assert!(app.guess_buffer.is_empty());
    assert!(app.guesses.is_empty());
    assert!(app.lines.is_empty());
    assert_eq!(app.words, strings(&["crane", "apple", "eerie", "pilot"]));
    assert!(app.game_string.is_empty());
    assert!(!app.game_complete);
    assert!(app.word_order.is_empty());
    assert!(app.used_words.is_empty());
    assert!(app.found_words.is_empty());
    assert_eq!(app.needed_words, 0);
}

#[test]
fn typing_stops_at_the_games_length() {
    let mut app = on_tab(0);
    type_text(&mut app, "cranes");
    assert_eq!(buffer(&app), "crane");
    let mut app = on_tab(1);
    type_text(&mut app, "abcdef");
    assert_eq!(buffer(&app), "abcd");
    let mut app = on_tab(2);
    type_text(&mut app, "abcdefghijklmnopqrstuvwxyz");
    assert_eq!(buffer(&app), "abcdefghijklmnopqrst");
    let mut app = on_tab(3);
    type_text(&mut app, "abc");
    assert_eq!(buffer(&app), "a");
}

#[test]
fn backspace_takes_the_last_character() {
    let mut app = session();
    app.backspace();
    assert_eq!(buffer(&app), "");
    type_text(&mut app, "cra");
    app.backspace();
    assert_eq!(buffer(&app), "cr");
    app.backspace();
    app.backspace();
    app.backspace();
    assert_eq!(buffer(&app), "");
}

#[test]
fn quit_sets_the_flag() {
    let mut app = session();
    type_text(&mut app, "cr");
    app.quit();
    assert!(app.should_quit);
    assert_eq!(buffer(&app), "cr");
}

#[test]
fn clear_state_forgets_the_puzzle_state() {
    let mut app = grouping();
    submit(&mut app, "abcd");
    type_text(&mut app, "ab");
    app.needed_words = 3;
    app.found_words = strings(&["x"]);
    app.clear_state();
    assert!(app.guess_buffer.is_empty());
    assert!(app.guesses.is_empty());
    assert!(app.lines.is_empty());
    assert!(app.game_string.is_empty());
    assert!(app.used_words.is_empty());
    assert!(app.word_order.is_empty());
    assert!(app.found_words.is_empty());
    assert_eq!(app.needed_words, 0);
    assert_eq!(app.page.index, 1);
    assert_eq!(app.game_cache.len(), 1);
    assert_eq!(app.current_game.0, 1);
}

#[test]
fn a_short_guess_is_not_submitted() {
    let mut app = on_tab(0);
    submit(&mut app, "cran");
    assert!(app.guesses.is_empty());
    assert!(app.lines.is_empty());
    assert_eq!(buffer(&app), "cran");
    let mut app = grouping();
    submit(&mut app, "abc");
    assert!(app.guesses.is_empty());
    assert_eq!(buffer(&app), "abc");
    let mut app = finding();
    submit(&mut app, "pea");
    assert!(app.guesses.is_empty());
    assert_eq!(buffer(&app), "pea");
}

#[test]
fn a_word_guess_is_scored_and_logged() {
    let mut app = session();
    app.receive(Fetched::Body(r#"{"solution":"crane","id":1}"#.to_string()));
    assert_eq!(app.current_game.0, 0);
    assert_eq!(app.current_game.1.solution, "crane");
    assert_eq!(
        app.game_string,
        strings(&["Wordle: Guess a five letter word to win the game.", ""])
    );
    submit(&mut app, "eerie");
    assert_eq!(app.guesses, strings(&["eerie"]));
    assert_eq!(app.lines, vec![format!("eerie, {GREY}{GREY}{YELLOW}{GREY}{GREEN}")]);
    assert_eq!(buffer(&app), "");
    assert!(!app.game_complete);
    submit(&mut app, "crane");
    assert_eq!(app.guesses, strings(&["eerie", "crane"]));
    assert_eq!(app.lines.len(), 3);
    assert_eq!(app.lines[1], format!("crane, {GREEN}{GREEN}{GREEN}{GREEN}{GREEN}"));
    assert_eq!(app.lines[2], "Game complete!");
    assert!(app.game_complete);
    assert_eq!(buffer(&app), "");
}

#[test]
fn an_unknown_word_is_kept_in_the_buffer() {
    let mut app = session();
    app.receive(Fetched::Body(r#"{"solution":"crane"}"#.to_string()));
    submit(&mut app, "zzzzz");
    assert_eq!(app.guesses, strings(&["zzzzz"]));
    assert!(app.lines.is_empty());
    assert_eq!(buffer(&app), "zzzzz");
    assert!(!app.game_complete);
}

#[test]
fn guesses_are_still_taken_after_completion() {
    let mut app = session();
    app.receive(Fetched::Body(r#"{"solution":"crane"}"#.to_string()));
    submit(&mut app, "crane");
    assert!(app.game_complete);
    submit(&mut app, "pilot");
    assert!(app.game_complete);
    assert_eq!(app.guesses, strings(&["crane", "pilot"]));
    assert_eq!(app.lines.len(), 3);
    assert_eq!(app.lines[2], format!("pilot, {GREY}{GREY}{GREY}{GREY}{GREY}"));
    submit(&mut app, "crane");
    assert_eq!(app.lines.len(), 5);
    assert_eq!(app.lines[4], "Game complete!");
}

#[test]
fn a_missing_solution_never_matches() {
    let mut app = session();
    app.receive(Fetched::Body(r#"{"id":1}"#.to_string()));
    assert_eq!(app.current_game.1.solution, "");
    submit(&mut app, "crane");
    assert_eq!(app.lines, vec![format!("crane, {GREY}{GREY}{GREY}{GREY}{GREY}")]);
    assert!(!app.game_complete);
}

#[test]
fn the_grouping_game_is_described_in_the_given_order() {
    let app = grouping();
    assert_eq!(app.word_order, sixteen());
    assert_eq!(
        app.game_string,
        strings(&[
            "Connections: Group words by a common thread.",
            "",
            "a. cat",
            "b. dog",
            "c. cow",
            "d. pig",
            "e. red",
            "f. blue",
            "g. green",
            "h. pink",
            "i. one",
            "j. two",
            "k. six",
            "l. ten",
            "m. oak",
            "n. elm",
            "o. ash",
            "p. fir",
            "",
        ])
    );
}

#[test]
fn the_shuffled_order_holds_the_puzzles_words() {
    let mut app = on_tab(1);
    app.receive(Fetched::Body(GROUPS.to_string()));
    assert_eq!(app.current_game.0, 1);
    assert_eq!(sorted(app.word_order.clone()), sorted(sixteen()));
    assert_eq!(app.game_string.len(), 19);
    assert_eq!(app.game_string[0], "Connections: Group words by a common thread.");
    assert_eq!(app.game_string[1], "");
    assert_eq!(app.game_string[18], "");
    for (i, word) in app.word_order.iter().enumerate() {
        let label = (b'a' + i as u8) as char;
        assert_eq!(app.game_string[i + 2], format!("{label}. {word}"));
    }
}

#[test]
fn the_order_is_shuffled() {
    let mut orders = Vec::new();
    for _ in 0..8 {
        let mut app = on_tab(1);
        app.receive(Fetched::Body(GROUPS.to_string()));
        assert_eq!(sorted(app.word_order.clone()), sorted(sixteen()));
        orders.push(app.word_order);
    }
    assert!(orders.iter().any(|order| *order != sixteen()));
}

#[test]
fn words_past_the_last_label_get_no_line() {
    let many: Vec<String> = (0..30).map(|i| format!("w{i}")).collect();
    let lines = label_lines(&many);
    assert_eq!(lines.len(), 26);
    assert_eq!(lines[0], "a. w0");
    assert_eq!(lines[25], "z. w25");
    let mut app = on_tab(1);
    app.generate_game_string_with(many.clone());
    assert_eq!(app.word_order, many);
    assert_eq!(app.game_string.len(), 29);
}

#[test]
fn pool_gathers_the_cards_group_by_group() {
    let groups = vec![
        Category { cards: strings(&["a", "b"]) },
        Category { cards: strings(&[]) },
        Category { cards: strings(&["c"]) },
    ];
    assert_eq!(pool(&groups), strings(&["a", "b", "c"]));
    assert!(pool(&Vec::new()).is_empty());
}

#[test]
fn a_correct_group_uses_its_words() {
    let mut app = grouping();
    submit(&mut app, "dacb");
    assert_eq!(app.guesses, strings(&["dacb"]));
    assert_eq!(app.lines, strings(&["pig, cat, cow, dog - Correct!"]));
    assert_eq!(app.used_words, strings(&["pig", "cat", "cow", "dog"]));
    assert_eq!(buffer(&app), "");
    assert!(!app.game_complete);
}

#[test]
fn three_of_a_group_are_one_away() {
    let mut app = grouping();
    submit(&mut app, "abce");
    assert_eq!(app.lines, strings(&["cat, dog, cow, red - One away"]));
    assert!(app.used_words.is_empty());
    assert_eq!(buffer(&app), "");
    submit(&mut app, "abef");
    assert_eq!(app.lines[1], "cat, dog, red, blue - More than one away");
    submit(&mut app, "aeim");
    assert_eq!(app.lines[2], "cat, red, one, oak - More than one away");
    assert!(app.used_words.is_empty());
    assert!(!app.game_complete);
}

#[test]
fn a_label_without_a_word_is_unknown() {
    let mut app = grouping();
    submit(&mut app, "abcz");
    assert_eq!(app.lines, strings(&["cat, dog, cow, Unknown - One away"]));
    submit(&mut app, "ab?Z");
    assert_eq!(app.lines[1], "cat, dog, Unknown, Unknown - More than one away");
}

#[test]
fn a_repeated_label_is_rejected() {
    for labels in ["aabc", "abca", "abab", "abcc"] {
        let mut app = grouping();
        submit(&mut app, labels);
        assert_eq!(app.guesses, strings(&[labels]));
        assert!(app.lines.is_empty());
        assert!(app.used_words.is_empty());
        assert_eq!(buffer(&app), labels);
    }
}

#[test]
fn a_used_word_is_rejected() {
    let mut app = grouping();
    submit(&mut app, "abcd");
    assert_eq!(app.used_words.len(), 4);
    submit(&mut app, "aefg");
    assert_eq!(app.guesses, strings(&["abcd", "aefg"]));
    assert_eq!(app.lines.len(), 1);
    assert_eq!(app.used_words.len(), 4);
    assert_eq!(buffer(&app), "aefg");
}

#[test]
fn four_groups_complete_the_puzzle() {
    let mut app = grouping();
    submit(&mut app, "abcd");
    submit(&mut app, "efgh");
    submit(&mut app, "ijkl");
    assert!(!app.game_complete);
    assert_eq!(app.used_words.len(), 12);
    submit(&mut app, "ponm");
    assert!(app.game_complete);
    assert_eq!(app.used_words.len(), 16);
    assert_eq!(app.lines.len(), 5);
    assert_eq!(app.lines[3], "fir, ash, elm, oak - Correct!");
    assert_eq!(app.lines[4], "Game complete!");
    assert_eq!(sorted(app.used_words.clone()), sorted(sixteen()));
}

#[test]
fn completion_is_logged_once() {
    let mut app = grouping();
    submit(&mut app, "abcd");
    submit(&mut app, "efgh");
    submit(&mut app, "ijkl");
    submit(&mut app, "mnop");
    assert!(app.game_complete);
    assert_eq!(app.lines.len(), 5);
    // Labels without a word can still be submitted; the puzzle is not
    // completed a second time.
    submit(&mut app, "wxyz");
    assert!(app.game_complete);
    assert_eq!(app.lines.len(), 6);
    assert_eq!(app.lines[5], "Unknown, Unknown, Unknown, Unknown - More than one away");
    assert_eq!(app.used_words.len(), 16);
}

#[test]
fn completion_is_tested_after_every_new_guess() {
    // A guess that matches nothing still finds the count reached.
    let mut app = finding();
    submit(&mut app, "apple");
    submit(&mut app, "pear");
    submit(&mut app, "fruitbowl");
    assert!(app.game_complete);
    assert_eq!(app.lines.len(), 4);
    submit(&mut app, "grape");
    assert!(app.game_complete);
    assert_eq!(app.found_words.len(), 3);
    assert_eq!(app.lines.len(), 5);
    assert_eq!(app.lines[4], "Game complete!");
    // A word that was found before is not looked at again.
    submit(&mut app, "apple");
    assert_eq!(app.lines.len(), 5);
    // A session that needs no word is complete after any guess.
    let mut app = on_tab(2);
    assert_eq!(app.needed_words, 0);
    submit(&mut app, "grape");
    assert!(app.game_complete);
    assert_eq!(app.lines, strings(&["Game complete!"]));
    assert_eq!(app.guesses, strings(&["grape"]));
    assert!(app.found_words.is_empty());
    assert_eq!(buffer(&app), "");
    // One that needs more stays open.
    let mut app = finding();
    submit(&mut app, "grape");
    assert!(!app.game_complete);
    assert!(app.lines.is_empty());
}

#[test]
fn the_hidden_word_game_is_described() {
    let app = finding();
    assert_eq!(app.current_game.0, 2);
    assert_eq!(app.needed_words, 3);
    assert_eq!(
        app.game_string,
        strings(&[
            "Strands: Uncover words.",
            "Clue: In the orchard",
            "Theme words: 3",
            "",
            "FRUITB",
            "OWLAPP",
            "LEPEAR",
            "",
        ])
    );
}

#[test]
fn an_empty_hidden_word_puzzle_needs_one_word() {
    let mut app = on_tab(2);
    app.generate_game_string();
    assert_eq!(app.needed_words, 1);
    assert_eq!(
        app.game_string,
        strings(&["Strands: Uncover words.", "Clue: ", "Theme words: 1", "", ""])
    );
}

#[test]
fn the_spangram_is_taken_once() {
    let mut app = finding();
    submit(&mut app, "FruitBowl");
    assert_eq!(app.guesses, strings(&["FruitBowl"]));
    assert_eq!(app.lines, strings(&["fruitbowl is the Spangram!"]));
    assert_eq!(app.found_words, strings(&["fruitbowl"]));
    assert_eq!(buffer(&app), "");
    assert!(!app.game_complete);
    submit(&mut app, "FRUITBOWL");
    assert_eq!(app.guesses, strings(&["FruitBowl", "FRUITBOWL"]));
    assert_eq!(app.lines, strings(&["fruitbowl is the Spangram!"]));
    assert_eq!(app.found_words, strings(&["fruitbowl"]));
    assert_eq!(buffer(&app), "");
    assert!(!app.game_complete);
}

#[test]
fn theme_words_are_found_until_the_puzzle_is_complete() {
    let mut app = finding();
    submit(&mut app, "apple");
    assert_eq!(app.lines, strings(&["apple is a theme word!"]));
    submit(&mut app, "grape");
    assert_eq!(app.lines.len(), 1);
    assert_eq!(app.guesses.len(), 2);
    assert_eq!(buffer(&app), "");
    submit(&mut app, "Pear");
    assert_eq!(app.found_words, strings(&["apple", "pear"]));
    assert!(!app.game_complete);
    submit(&mut app, "apple");
    assert_eq!(app.found_words.len(), 2);
    assert_eq!(app.lines.len(), 2);
    submit(&mut app, "fruitbowl");
    assert_eq!(app.found_words, strings(&["apple", "pear", "fruitbowl"]));
    assert_eq!(
        app.lines,
        strings(&[
            "apple is a theme word!",
            "pear is a theme word!",
            "fruitbowl is the Spangram!",
            "Game complete!",
        ])
    );
    assert!(app.game_complete);
}

#[test]
fn a_tab_without_a_game_logs_the_guess() {
    let mut app = on_tab(3);
    submit(&mut app, "x");
    assert_eq!(app.guesses, strings(&["x"]));
    assert_eq!(app.lines, strings(&["Unknown Game Guess x"]));
    assert_eq!(buffer(&app), "");
    app.enter();
    assert_eq!(app.lines, strings(&["Unknown Game Guess x", "Unknown Game Guess "]));
    app.generate_game_string();
    assert!(app.game_string.is_empty());
}

#[test]
fn an_empty_cache_asks_the_server() {
    let expected = [
        "https://www.nytimes.com/svc/wordle/v2/2024-04-25.json",
        "https://www.nytimes.com/svc/connections/v2/2024-04-25.json",
        "https://www.nytimes.com/svc/strands/v2/2024-04-25.json",
        "2024-04-25.json",
    ];
    for (tab, url) in expected.iter().enumerate() {
        let app = on_tab(tab as u8);
        match app.download() {
            Download::Request(asked) => assert_eq!(&asked, url),
            Download::Cached(..) => panic!("nothing is cached"),
        }
    }
}

#[test]
fn a_stored_puzzle_is_found_in_the_cache() {
    let mut app = session();
    let body = r#"{"solution":"crane"}"#;
    match app.store(Fetched::Body(body.to_string())) {
        Ok((tag, puzzle)) => {
            assert_eq!(tag, 0);
            assert_eq!(puzzle.solution, "crane");
        },
        Err(_) => panic!("the body is a puzzle"),
    }
    assert_eq!(app.game_cache, vec![(0, day(), body.to_string())]);
    assert!(app.lines.is_empty());
    match app.download() {
        Download::Cached(tag, puzzle) => {
            assert_eq!(tag, 0);
            assert_eq!(puzzle.solution, "crane");
        },
        Download::Request(_) => panic!("the puzzle is cached"),
    }
    // Another tab or another day is not served from this entry.
    app.page.index = 1;
    assert!(matches!(app.download(), Download::Request(_)));
    app.page.index = 0;
    app.date = day().next_day();
    assert!(matches!(app.download(), Download::Request(_)));
}

#[test]
fn the_first_cache_entry_wins() {
    let mut app = session();
    app.game_cache = vec![
        (1, day(), r#"{"solution":"wrong"}"#.to_string()),
        (0, day().prev_day(), r#"{"solution":"older"}"#.to_string()),
        (0, day(), r#"{"solution":"first"}"#.to_string()),
        (0, day(), r#"{"solution":"later"}"#.to_string()),
    ];
    match app.download() {
        Download::Cached(tag, puzzle) => {
            assert_eq!(tag, 0);
            assert_eq!(puzzle.solution, "first");
        },
        Download::Request(_) => panic!("the puzzle is cached"),
    }
}

#[test]
fn a_cached_text_that_is_no_json_gives_the_empty_puzzle() {
    let mut app = session();
    app.game_cache = vec![(0, day(), "<html>".to_string())];
    match app.download() {
        Download::Cached(tag, puzzle) => {
            assert_eq!(tag, 0);
            assert_eq!(puzzle.solution, "");
            assert!(puzzle.categories.is_empty());
        },
        Download::Request(_) => panic!("the entry is cached"),
    }
}

#[test]
fn a_failed_request_is_logged_and_not_cached() {
    let mut app = session();
    assert_eq!(app.store(Fetched::Failed).err(), Some(FetchError::NetworkFailure));
    assert_eq!(app.lines, strings(&["Failed to download game"]));
    assert!(app.game_cache.is_empty());
    assert_eq!(app.current_game.0, NO_GAME);
}

#[test]
fn a_body_that_is_no_json_is_logged_and_not_cached() {
    let mut app = session();
    assert_eq!(
        app.store(Fetched::Body("<html>".to_string())).err(),
        Some(FetchError::MalformedResponse)
    );
    assert_eq!(
        app.store(Fetched::Body(String::new())).err(),
        Some(FetchError::MalformedResponse)
    );
    assert_eq!(app.lines.len(), 2);
    app.lines.pop();
    assert_eq!(app.lines, strings(&["Failed to convert data to JSON"]));
    assert!(app.game_cache.is_empty());
}

#[test]
fn a_server_error_is_logged_and_not_cached() {
    let mut app = session();
    let body = r#"{"status":"ERROR","errors":["Not Found"]}"#;
    assert_eq!(app.store(Fetched::Body(body.to_string())).err(), Some(FetchError::ServerError));
    assert_eq!(app.lines, strings(&["Failed to download game"]));
    assert!(app.game_cache.is_empty());
    app.receive(Fetched::Body(body.to_string()));
    assert_eq!(app.lines, strings(&["Failed to download game", "Failed to download game"]));
    assert_eq!(app.current_game.0, NO_GAME);
    assert!(app.game_cache.is_empty());
    assert_eq!(app.game_string.len(), 2);
    // Nothing was cached, so the next look asks the server again.
    assert!(matches!(app.download(), Download::Request(_)));
}

#[test]
fn every_failed_answer_adds_one_line_and_keeps_the_cache() {
    let answers = [
        Fetched::Failed,
        Fetched::Body("<html>".to_string()),
        Fetched::Body(r#"{"status":"ERROR"}"#.to_string()),
    ];
    for answer in answers {
        let mut app = session();
        app.game_cache = vec![(1, day(), "{}".to_string())];
        app.lines = strings(&["earlier"]);
        assert!(app.store(answer).is_err());
        assert_eq!(app.lines.len(), 2);
        assert_eq!(app.lines[0], "earlier");
        assert_eq!(app.game_cache, vec![(1, day(), "{}".to_string())]);
    }
}

#[test]
fn a_status_that_is_no_error_mark_is_a_puzzle() {
    let mut app = session();
    let body = r#"{"status":"OK","solution":"crane"}"#;
    assert!(app.store(Fetched::Body(body.to_string())).is_ok());
    assert!(app.lines.is_empty());
    assert_eq!(app.game_cache.len(), 1);
}

#[test]
fn describing_again_changes_nothing() {
    for tab in 0..4u8 {
        let mut app = on_tab(tab);
        assert!(app.store(Fetched::Body(if tab == 1 { GROUPS } else { BOARD }.to_string())).is_ok());
        app.current_game = match app.download() {
            Download::Cached(tag, puzzle) => (tag, puzzle),
            Download::Request(_) => panic!("the puzzle was stored"),
        };
        app.generate_game_string_with(sixteen());
        let first = app.game_string.clone();
        let needed = app.needed_words;
        let order = app.word_order.clone();
        app.generate_game_string_with(sixteen());
        assert_eq!(app.game_string, first);
        assert_eq!(app.needed_words, needed);
        assert_eq!(app.word_order, order);
        if tab != 1 {
            app.generate_game_string();
            assert_eq!(app.game_string, first);
            assert_eq!(app.needed_words, needed);
        } else {
            app.generate_game_string();
            assert_eq!(app.game_string.len(), first.len());
        }
    }
}

#[test]
fn a_description_left_from_before_is_replaced() {
    // A session that was saved after its first request failed.
    let mut app = session();
    app.receive(Fetched::Failed);
    assert_eq!(app.current_game.0, NO_GAME);
    assert_eq!(app.game_string.len(), 2);
    let asked = app.start();
    assert!(asked.is_some());
    app.receive(Fetched::Body(r#"{"solution":"crane"}"#.to_string()));
    assert_eq!(
        app.game_string,
        strings(&["Wordle: Guess a five letter word to win the game.", ""])
    );
}

#[test]
fn a_tab_without_a_game_keeps_its_description() {
    let mut app = on_tab(3);
    app.game_string = strings(&["left from before"]);
    app.word_order = strings(&["x"]);
    app.needed_words = 4;
    app.generate_game_string();
    assert_eq!(app.game_string, strings(&["left from before"]));
    assert_eq!(app.word_order, strings(&["x"]));
    assert_eq!(app.needed_words, 4);
    app.generate_game_string_with(sixteen());
    assert_eq!(app.game_string, strings(&["left from before"]));
    assert_eq!(app.word_order, strings(&["x"]));
    app.receive(Fetched::Failed);
    assert_eq!(app.game_string, strings(&["left from before"]));
}

#[test]
fn parsing_reads_nested_documents() {
    let mut app = on_tab(1);
    let (tag, puzzle) = match app.store(Fetched::Body(GROUPS.to_string())) {
        Ok(game) => game,
        Err(error) => panic!("the body is a puzzle: {error:?}"),
    };
    assert_eq!(tag, 1);
    assert_eq!(puzzle.categories.len(), 4);
    assert_eq!(puzzle.categories[0].cards, strings(&["cat", "dog", "cow", "pig"]));
    assert_eq!(puzzle.categories[3].cards, strings(&["oak", "elm", "ash", "fir"]));
    let doc = Json::Object(vec![("solution".to_string(), Json::Text("plain".to_string()))]);
    assert_eq!(Puzzle::decode(&doc).solution, "plain");
}

#[test]
fn open_cached_loads_and_describes() {
    let mut app = session();
    app.game_cache = vec![(0, day(), r#"{"solution":"crane"}"#.to_string())];
    assert_eq!(app.open_cached(), None);
    assert_eq!(app.current_game.0, 0);
    assert_eq!(app.current_game.1.solution, "crane");
    assert_eq!(app.game_string.len(), 2);
    let mut app = on_tab(2);
    assert_eq!(
        app.open_cached(),
        Some("https://www.nytimes.com/svc/strands/v2/2024-04-25.json".to_string())
    );
    assert_eq!(app.current_game.0, NO_GAME);
    assert!(app.game_string.is_empty());
}

#[test]
fn a_failed_request_still_describes_the_tab() {
    let mut app = on_tab(2);
    app.receive(Fetched::Failed);
    assert_eq!(app.lines, strings(&["Failed to download game"]));
    assert_eq!(app.current_game.0, NO_GAME);
    assert_eq!(
        app.game_string,
        strings(&["Strands: Uncover words.", "Clue: ", "Theme words: 1", "", ""])
    );
    assert_eq!(app.needed_words, 1);
}

#[test]
fn changing_tab_clears_the_state() {
    let mut app = session();
    app.receive(Fetched::Body(r#"{"solution":"crane"}"#.to_string()));
    submit(&mut app, "crane");
    type_text(&mut app, "ab");
    assert!(app.game_complete);
    let asked = app.right();
    assert_eq!(
        asked,
        Some("https://www.nytimes.com/svc/connections/v2/2024-04-25.json".to_string())
    );
    assert_eq!(app.page.index, 1);
    assert!(!app.game_complete);
    assert!(app.guess_buffer.is_empty());
    assert!(app.guesses.is_empty());
    assert!(app.lines.is_empty());
    assert!(app.game_string.is_empty());
    assert_eq!(app.game_cache.len(), 1);
    // The puzzle of the tab that was left stays loaded until another arrives.
    assert_eq!(app.current_game.0, 0);
    app.receive(Fetched::Body(GROUPS.to_string()));
    assert_eq!(app.current_game.0, 1);
    assert_eq!(app.game_cache.len(), 2);
    // Back on the first tab the cache serves the puzzle.
    assert_eq!(app.left(), None);
    assert_eq!(app.page.index, 0);
    assert_eq!(app.current_game.0, 0);
    assert_eq!(app.current_game.1.solution, "crane");
    assert_eq!(app.game_string.len(), 2);
    assert!(!app.game_complete);
    assert!(app.word_order.is_empty());
}

#[test]
fn left_works_with_as_many_tabs_as_the_index_can_reach() {
    let labels: Vec<String> = (0..256).map(|i| format!("tab{i}")).collect();
    let mut app = session();
    app.page = Tabber { index: 0, values: labels.clone() };
    app.left();
    assert_eq!(app.page.index, 255);
    app.left();
    assert_eq!(app.page.index, 254);
    assert_eq!(app.page.values, labels);
}

#[test]
fn left_wraps_to_the_last_tab() {
    let mut app = session();
    assert_eq!(
        app.left(),
        Some("https://www.nytimes.com/svc/strands/v2/2024-04-25.json".to_string())
    );
    assert_eq!(app.page.index, 2);
    app.right();
    assert_eq!(app.page.index, 0);
    app.right();
    app.right();
    app.right();
    assert_eq!(app.page.index, 0);
}

#[test]
fn up_then_down_returns_to_the_day() {
    for days in [739_001, 738_520, 738_945, 739_251, 1, 0, -5] {
        let mut app = session();
        app.date = Date { days };
        app.up();
        assert_eq!(app.date, Date { days: days + 1 });
        app.down();
        assert_eq!(app.date, Date { days });
        app.down();
        assert_eq!(app.date, Date { days: days - 1 });
        app.up();
        assert_eq!(app.date, Date { days });
    }
}

#[test]
fn changing_day_asks_for_that_day() {
    let mut app = session();
    app.date = Date { days: 739_251 };
    type_text(&mut app, "cr");
    assert_eq!(
        app.up(),
        Some("https://www.nytimes.com/svc/wordle/v2/2025-01-01.json".to_string())
    );
    assert!(app.guess_buffer.is_empty());
    assert_eq!(
        app.down(),
        Some("https://www.nytimes.com/svc/wordle/v2/2024-12-31.json".to_string())
    );
    app.receive(Fetched::Body(r#"{"solution":"crane"}"#.to_string()));
    assert_eq!(app.game_cache[0].1, Date { days: 739_251 });
    app.up();
    assert_eq!(app.down(), None);
    assert_eq!(app.current_game.1.solution, "crane");
}

#[test]
fn the_screen_shows_description_log_and_guess() {
    let mut app = session();
    app.receive(Fetched::Body(r#"{"solution":"crane"}"#.to_string()));
    type_text(&mut app, "pi");
    assert_eq!(
        app.screen(),
        strings(&["Wordle: Guess a five letter word to win the game.", "", "GUESS: pi"])
    );
    type_text(&mut app, "lot");
    app.enter();
    submit(&mut app, "crane");
    let screen = app.screen();
    assert_eq!(screen.len(), 5);
    assert_eq!(screen[2], format!("pilot, {GREY}{GREY}{GREY}{GREY}{GREY}"));
    assert_eq!(screen[4], "Game complete!");
}

#[test]
fn the_title_names_game_and_day() {
    assert_eq!(on_tab(0).title(), Some("Wordle on 2024-04-25".to_string()));
    assert_eq!(on_tab(1).title(), Some("Connections on 2024-04-25".to_string()));
    assert_eq!(on_tab(2).title(), Some("Strands on 2024-04-25".to_string()));
    assert_eq!(on_tab(3).title(), None);
}

#[test]
fn a_session_with_other_tabs_still_cycles() {
    let mut app = session();
    app.page = Tabber { index: 1, values: strings(&["One", "Two"]) };
    app.right();
    assert_eq!(app.page.index, 0);
    app.left();
    assert_eq!(app.page.index, 1);
}

#[test]
fn events_are_dispatched() {
    let mut app = session();
    for c in "crane".chars() {
        assert_eq!(app.handle(Event::Char(c)), None);
    }
    assert_eq!(buffer(&app), "crane");
    assert_eq!(app.handle(Event::Backspace), None);
    assert_eq!(buffer(&app), "cran");
    assert_eq!(app.handle(Event::Char('e')), None);
    assert_eq!(app.handle(Event::Enter), None);
    assert_eq!(app.guesses, strings(&["crane"]));
    assert_eq!(buffer(&app), "");
    assert_eq!(
        app.handle(Event::Right),
        Some("https://www.nytimes.com/svc/connections/v2/2024-04-25.json".to_string())
    );
    assert_eq!(app.page.index, 1);
    assert_eq!(
        app.handle(Event::Left),
        Some("https://www.nytimes.com/svc/wordle/v2/2024-04-25.json".to_string())
    );
    assert_eq!(app.page.index, 0);
    assert_eq!(
        app.handle(Event::Up),
        Some("https://www.nytimes.com/svc/wordle/v2/2024-04-26.json".to_string())
    );
    assert_eq!(
        app.handle(Event::Down),
        Some("https://www.nytimes.com/svc/wordle/v2/2024-04-25.json".to_string())
    );
    assert_eq!(app.date, day());
    assert!(!app.should_quit);
    assert_eq!(app.handle(Event::Char('~')), None);
    assert!(app.should_quit);
    assert_eq!(buffer(&app), "");
}

#[test]
fn start_loads_a_session_without_puzzle() {
    let mut app = session();
    assert_eq!(
        app.start(),
        Some("https://www.nytimes.com/svc/wordle/v2/2024-04-25.json".to_string())
    );
    assert!(app.game_string.is_empty());
    app.game_cache = vec![(0, day(), r#"{"solution":"crane"}"#.to_string())];
    assert_eq!(app.start(), None);
    assert_eq!(app.current_game.0, 0);
    assert_eq!(app.game_string.len(), 2);
    // A session that has a puzzle is left as it is.
    app.page.index = 2;
    assert_eq!(app.start(), None);
    assert_eq!(app.current_game.0, 0);
    assert_eq!(app.game_string.len(), 2);
}

#[test]
fn can_handle_tells_which_events_are_taken() {
    let mut app = session();
    let all = [
        Event::Char('a'),
        Event::Backspace,
        Event::Enter,
        Event::Left,
        Event::Right,
        Event::Up,
        Event::Down,
    ];
    for event in all {
        assert!(app.can_handle(event));
    }
    app.date = Date { days: i32::MAX };
    assert!(!app.can_handle(Event::Up));
    assert!(app.can_handle(Event::Down));
    app.date = Date { days: i32::MIN };
    assert!(app.can_handle(Event::Up));
    assert!(!app.can_handle(Event::Down));
    app.page = Tabber { index: 0, values: Vec::new() };
    assert!(!app.can_handle(Event::Left));
    assert!(!app.can_handle(Event::Right));
    assert!(app.can_handle(Event::Enter));
    app.page.index = 4;
    assert!(app.can_handle(Event::Left));
    assert!(!app.can_handle(Event::Right));
    let labels: Vec<String> = (0..256).map(|i| i.to_string()).collect();
    app.page = Tabber { index: 0, values: labels };
    assert!(app.can_handle(Event::Left));
    assert!(!app.can_handle(Event::Right));
    app.page.values.pop();
    assert!(app.can_handle(Event::Right));
    app.page.index = 255;
    assert!(!app.can_handle(Event::Right));
    assert!(app.can_handle(Event::Left));
    app.page.values.push("more".to_string());
    app.page.values.push("still more".to_string());
    app.page.index = 0;
    assert!(!app.can_handle(Event::Left));
}

#[test]
fn start_shows_the_cached_grouping_puzzle_with_its_words() {
    let mut app = on_tab(1);
    app.game_cache = vec![(1, day(), GROUPS.to_string())];
    assert_eq!(app.start(), None);
    assert_eq!(app.current_game.0, 1);
    assert_eq!(sorted(app.word_order.clone()), sorted(sixteen()));
    assert_eq!(app.game_string.len(), 19);
}
