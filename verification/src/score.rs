//! Scoring of the five-letter guessing game.
//!
//! A guess is compared with the solution position by position. A letter in
//! its place is green. The other letters of the guess are then served from
//! left to right out of the solution letters that found no green partner:
//! a letter that still finds one is yellow and uses it up, the rest are grey.
//! Letters are counted in twenty-six buckets that ignore case; a character
//! that is no ASCII letter has no bucket and can only be green or grey.

use vstd::prelude::*;
use vstd::string::*;
use crate::text::chars_of_text;

verus! {

/// The verdict on one position of a guess.
#[derive(Clone, Copy, PartialEq, Eq, Debug, Structural)]
pub enum GameResult {
    /// The letter stands at this place in the solution.
    Green,
    /// The letter occurs in the solution at another place that is still free.
    Yellow,
    /// The letter does not occur in the solution, or all its places are taken.
    Grey,
}

/// The bucket of an ASCII letter, `a` and `A` being 0; no bucket for other
/// characters.
pub open spec fn letter_index(c: char) -> Option<int> {
    if 'a' <= c && c <= 'z' {
        Some(c as int - 'a' as int)
    } else if 'A' <= c && c <= 'Z' {
        Some(c as int - 'A' as int)
    } else {
        None
    }
}

/// Position `i` of the guess holds the character that the solution holds there.
pub open spec fn is_match(solution: Seq<char>, guess: Seq<char>, i: int) -> bool {
    0 <= i < guess.len() && i < solution.len() && solution[i] == guess[i]
}

/// How many of the first `n` positions of the solution hold a letter of
/// `bucket` that the guess does not match in place.
pub open spec fn spare(solution: Seq<char>, guess: Seq<char>, bucket: int, n: int) -> nat
    decreases n,
{
    if n <= 0 {
        0
    } else {
        let here: nat = if n - 1 < solution.len() && !is_match(solution, guess, n - 1)
            && letter_index(solution[n - 1]) == Some(bucket) {
            1
        } else {
            0
        };
        spare(solution, guess, bucket, n - 1) + here
    }
}

/// How many of the first `n` positions of the guess hold a letter of `bucket`
/// that is not in its place.
pub open spec fn claims(solution: Seq<char>, guess: Seq<char>, bucket: int, n: int) -> nat
    decreases n,
{
    if n <= 0 {
        0
    } else {
        let here: nat = if n - 1 < guess.len() && !is_match(solution, guess, n - 1)
            && letter_index(guess[n - 1]) == Some(bucket) {
            1
        } else {
            0
        };
        claims(solution, guess, bucket, n - 1) + here
    }
}

/// The verdict on position `i` of the guess.
pub open spec fn tag(solution: Seq<char>, guess: Seq<char>, i: int) -> GameResult {
    if is_match(solution, guess, i) {
        GameResult::Green
    } else {
        match letter_index(guess[i]) {
            Some(bucket) => if claims(solution, guess, bucket, i) < spare(
                solution,
                guess,
                bucket,
                guess.len() as int,
            ) {
                GameResult::Yellow
            } else {
                GameResult::Grey
            },
            None => GameResult::Grey,
        }
    }
}

/// The verdicts on all positions of the guess.
pub open spec fn tags(solution: Seq<char>, guess: Seq<char>) -> Seq<GameResult> {
    Seq::new(guess.len(), |i: int| tag(solution, guess, i))
}

/// What is left of a bucket's spare solution letters once the first `n`
/// positions of the guess have been served.
pub open spec fn remaining(solution: Seq<char>, guess: Seq<char>, bucket: int, n: int) -> int {
    let total = spare(solution, guess, bucket, guess.len() as int);
    let asked = claims(solution, guess, bucket, n);
    if asked < total {
        total - asked
    } else {
        0
    }
}

/// The bucket of an ASCII letter.
fn bucket_of(c: char) -> (r: Option<usize>)
    ensures
        match r {
            Some(b) => b < 26 && letter_index(c) == Some(b as int),
            None => letter_index(c) is None,
        },
{
    if 'a' <= c && c <= 'z' {
        Some((c as u32 - 'a' as u32) as usize)
    } else if 'A' <= c && c <= 'Z' {
        Some((c as u32 - 'A' as u32) as usize)
    } else {
        None
    }
}

/// Scores a five-letter guess against the solution.
///
/// Only the first five characters of the solution are looked at; where the
/// solution is shorter, the positions it lacks match nothing.
pub fn calc_game(correct: &str, guess: &str) -> (res: [GameResult; 5])
    requires
        guess@.len() == 5,
    ensures
        res@ == tags(correct@, guess@),
{
    let correct_chars = chars_of_text(correct);
    let guess_chars = chars_of_text(guess);
    let mut res = [
        GameResult::Grey,
        GameResult::Grey,
        GameResult::Grey,
        GameResult::Grey,
        GameResult::Grey,
    ];
    let mut counts: Vec<usize> = Vec::new();
    while counts.len() < 26
        invariant
            counts.len() <= 26,
            forall|b: int| 0 <= b < counts.len() ==> counts[b] == 0,
        decreases 26 - counts.len(),
    {
        counts.push(0);
    }
    let ghost s = correct@;
    let ghost g = guess@;

    // First pass: the letters in their place, and the solution letters left over.
    let mut i: usize = 0;
    while i < 5
        invariant
            i <= 5,
            s == correct_chars@,
            g == guess_chars@,
            g.len() == 5,
            counts.len() == 26,
            forall|b: int| 0 <= b < 26 ==> #[trigger] counts[b] == spare(s, g, b, i as int),
            forall|b: int| 0 <= b < 26 ==> #[trigger] counts[b] <= i,
            forall|k: int|
                0 <= k < 5 ==> #[trigger] res[k] == if k < i && is_match(s, g, k) {
                    GameResult::Green
                } else {
                    GameResult::Grey
                },
        decreases 5 - i,
    {
        if i < correct_chars.len() && correct_chars[i] == guess_chars[i] {
            res[i] = GameResult::Green;
        } else if i < correct_chars.len() {
            match bucket_of(correct_chars[i]) {
                Some(b) => {
                    let c = counts[b];
                    counts.set(b, c + 1);
                },
                None => {},
            }
        }
        i += 1;
    }

    // Second pass: the letters out of place, from left to right.
    let mut i: usize = 0;
    while i < 5
        invariant
            i <= 5,
            s == correct_chars@,
            g == guess_chars@,
            g.len() == 5,
            counts.len() == 26,
            forall|b: int| 0 <= b < 26 ==> #[trigger] counts[b] == remaining(s, g, b, i as int),
            forall|k: int|
                0 <= k < 5 ==> #[trigger] res[k] == if k < i {
                    tag(s, g, k)
                } else if is_match(s, g, k) {
                    GameResult::Green
                } else {
                    GameResult::Grey
                },
        decreases 5 - i,
    {
        match res[i] {
            GameResult::Green => {},
            _ => {
                match bucket_of(guess_chars[i]) {
                    Some(b) => {
                        let c = counts[b];
                        if c > 0 {
                            res[i] = GameResult::Yellow;
                            counts.set(b, c - 1);
                        }
                    },
                    None => {},
                }
            },
        }
        i += 1;
    }
    assert(res@ =~= tags(s, g));
    res
}

/// The coloured letter that the log shows for a verdict.
pub open spec fn swatch(verdict: GameResult) -> Seq<char> {
    match verdict {
        GameResult::Green => "\x1b[32mG\x1b[0m"@,
        GameResult::Yellow => "\x1b[33mY\x1b[0m"@,
        GameResult::Grey => "\x1b[90mN\x1b[0m"@,
    }
}

/// The coloured letters of the first `n` verdicts, one after the other.
pub open spec fn painted(verdicts: Seq<GameResult>, n: int) -> Seq<char>
    decreases n,
{
    if n <= 0 || n > verdicts.len() {
        Seq::empty()
    } else {
        painted(verdicts, n - 1) + swatch(verdicts[n - 1])
    }
}

/// The coloured letters of five verdicts.
pub fn paint(verdicts: &[GameResult; 5]) -> (r: String)
    ensures
        r@ == painted(verdicts@, 5),
{
    let mut r = String::new();
    let mut i: usize = 0;
    while i < 5
        invariant
            i <= 5,
            r@ == painted(verdicts@, i as int),
        decreases 5 - i,
    {
        match verdicts[i] {
            GameResult::Green => r.append("\x1b[32mG\x1b[0m"),
            GameResult::Yellow => r.append("\x1b[33mY\x1b[0m"),
            GameResult::Grey => r.append("\x1b[90mN\x1b[0m"),
        }
        i += 1;
    }
    r
}

/// How many of the first `n` positions of the solution hold a letter of `bucket`.
pub open spec fn occurrences(solution: Seq<char>, bucket: int, n: int) -> nat
    decreases n,
{
    if n <= 0 {
        0
    } else {
        let here: nat = if n - 1 < solution.len() && letter_index(solution[n - 1]) == Some(
            bucket,
        ) {
            1
        } else {
            0
        };
        occurrences(solution, bucket, n - 1) + here
    }
}

/// How many of the first `n` positions of the guess hold a letter of `bucket`
/// and got the given verdict.
pub open spec fn awarded(
    solution: Seq<char>,
    guess: Seq<char>,
    bucket: int,
    verdict: GameResult,
    n: int,
) -> nat
    decreases n,
{
    if n <= 0 {
        0
    } else {
        let here: nat = if n - 1 < guess.len() && letter_index(guess[n - 1]) == Some(bucket)
            && tag(solution, guess, n - 1) == verdict {
            1
        } else {
            0
        };
        awarded(solution, guess, bucket, verdict, n - 1) + here
    }
}

/// A bucket's solution letters are those matched in place and those left spare.
proof fn lemma_occurrences_split(solution: Seq<char>, guess: Seq<char>, bucket: int, n: int)
    requires
        0 <= n <= guess.len(),
    ensures
        occurrences(solution, bucket, n) == awarded(solution, guess, bucket, GameResult::Green, n)
            + spare(solution, guess, bucket, n),
    decreases n,
{
    if n > 0 {
        lemma_occurrences_split(solution, guess, bucket, n - 1);
    }
}

/// The yellow verdicts of a bucket are as many as were asked for, up to the
/// number of spare solution letters.
proof fn lemma_yellow_count(solution: Seq<char>, guess: Seq<char>, bucket: int, n: int)
    requires
        0 <= n <= guess.len(),
    ensures
        awarded(solution, guess, bucket, GameResult::Yellow, n) == if claims(
            solution,
            guess,
            bucket,
            n,
        ) < spare(solution, guess, bucket, guess.len() as int) {
            claims(solution, guess, bucket, n)
        } else {
            spare(solution, guess, bucket, guess.len() as int)
        },
    decreases n,
{
    if n > 0 {
        lemma_yellow_count(solution, guess, bucket, n - 1);
    }
}

/// A position is green exactly where guess and solution hold the same
/// character, and for every letter the green and yellow verdicts together are
/// at most as many as the solution has of that letter.
pub proof fn lemma_score_is_fair(solution: Seq<char>, guess: Seq<char>, bucket: int)
    ensures
        forall|i: int|
            0 <= i < guess.len() ==> ((#[trigger] tags(solution, guess)[i] == GameResult::Green)
                <==> (i < solution.len() && solution[i] == guess[i])),
        awarded(solution, guess, bucket, GameResult::Green, guess.len() as int) + awarded(
            solution,
            guess,
            bucket,
            GameResult::Yellow,
            guess.len() as int,
        ) <= occurrences(solution, bucket, guess.len() as int),
{
    lemma_occurrences_split(solution, guess, bucket, guess.len() as int);
    lemma_yellow_count(solution, guess, bucket, guess.len() as int);
}

} // verus!
