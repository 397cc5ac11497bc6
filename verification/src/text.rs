//! Small operations on strings and lists of strings, with their meaning
//! stated over sequences of characters.

use vstd::prelude::*;
use vstd::string::*;

verus! {

/// The character sequences of a list of strings, in order.
pub open spec fn texts(list: Seq<String>) -> Seq<Seq<char>> {
    Seq::new(list.len(), |i: int| list[i]@)
}

/// The lower-case form of a text, as the standard library computes it.
pub uninterp spec fn lowercase_of(text: Seq<char>) -> Seq<char>;

/// Whether a character is white space: one of the twenty-five characters
/// with the Unicode property White_Space.
pub open spec fn is_white_space(c: char) -> bool {
    let n = c as int;
    ||| 0x09 <= n <= 0x0D
    ||| n == 0x20
    ||| n == 0x85
    ||| n == 0xA0
    ||| n == 0x1680
    ||| 0x2000 <= n <= 0x200A
    ||| n == 0x2028
    ||| n == 0x2029
    ||| n == 0x202F
    ||| n == 0x205F
    ||| n == 0x3000
}

/// A text without the white space at its start.
pub open spec fn trim_start_text(text: Seq<char>) -> Seq<char>
    decreases text.len(),
{
    if text.len() > 0 && is_white_space(text.first()) {
        trim_start_text(text.drop_first())
    } else {
        text
    }
}

/// A text without the white space at its end.
pub open spec fn trim_end_text(text: Seq<char>) -> Seq<char>
    decreases text.len(),
{
    if text.len() > 0 && is_white_space(text.last()) {
        trim_end_text(text.drop_last())
    } else {
        text
    }
}

/// A text without the white space at its two ends.
pub open spec fn trim_text(text: Seq<char>) -> Seq<char> {
    trim_end_text(trim_start_text(text))
}

/// The pieces of a text between its line feeds: one more than it has line
/// feeds, the last being what follows the last line feed.
pub open spec fn split_lines(text: Seq<char>) -> Seq<Seq<char>>
    decreases text.len(),
{
    if text.len() == 0 {
        seq![Seq::empty()]
    } else {
        let before = split_lines(text.drop_last());
        if text.last() == '\n' {
            before.push(Seq::empty())
        } else {
            before.drop_last().push(before.last().push(text.last()))
        }
    }
}

/// The lines of a text, each trimmed.
pub open spec fn trimmed_lines(text: Seq<char>) -> Seq<Seq<char>> {
    Seq::new(split_lines(text).len(), |i: int| trim_text(split_lines(text)[i]))
}

/// `words` written one after the other with `sep` between neighbours.
pub open spec fn joined(words: Seq<Seq<char>>, sep: Seq<char>) -> Seq<char>
    decreases words.len(),
{
    if words.len() == 0 {
        Seq::empty()
    } else if words.len() == 1 {
        words[0]
    } else {
        joined(words.drop_last(), sep) + sep + words.last()
    }
}

/// The character of a decimal digit.
pub open spec fn digit_char(digit: int) -> char {
    if digit == 0 {
        '0'
    } else if digit == 1 {
        '1'
    } else if digit == 2 {
        '2'
    } else if digit == 3 {
        '3'
    } else if digit == 4 {
        '4'
    } else if digit == 5 {
        '5'
    } else if digit == 6 {
        '6'
    } else if digit == 7 {
        '7'
    } else if digit == 8 {
        '8'
    } else {
        '9'
    }
}

/// A natural number written in base ten, without leading zeros.
pub open spec fn decimal_text(n: nat) -> Seq<char>
    decreases n,
{
    if n < 10 {
        seq![digit_char(n as int)]
    } else {
        decimal_text(n / 10).push(digit_char((n % 10) as int))
    }
}

/// Calls `String::push`: the string grows by the one character at its end.
#[verifier::external_body]
pub(crate) fn push_char(s: &mut String, c: char)
    ensures
        final(s)@ == old(s)@.push(c),
{
    s.push(c)
}

/// Calls `str::to_lowercase`. The result is a function of the text alone;
/// the contract gives it a name and says nothing more of it.
#[verifier::external_body]
pub(crate) fn lowercase(s: &str) -> (r: String)
    ensures
        r@ == lowercase_of(s@),
{
    s.to_lowercase()
}

/// Calls `str::trim`, which removes leading and trailing white space, white
/// space being the characters with the Unicode property White_Space.
#[verifier::external_body]
pub(crate) fn trimmed(s: &str) -> (r: String)
    ensures
        r@ == trim_text(s@),
{
    s.trim().to_string()
}

/// The string made of the given characters.
pub fn text_of_chars(chars: &Vec<char>) -> (r: String)
    ensures
        r@ == chars@,
{
    let mut r = String::new();
    let mut i: usize = 0;
    while i < chars.len()
        invariant
            i <= chars.len(),
            r@ == chars@.subrange(0, i as int),
        decreases chars.len() - i,
    {
        push_char(&mut r, chars[i]);
        i += 1;
        assert(chars@.subrange(0, i as int) == chars@.subrange(0, i - 1).push(chars@[i - 1]));
    }
    assert(chars@.subrange(0, i as int) == chars@);
    r
}

/// The characters of a string.
pub fn chars_of_text(s: &str) -> (r: Vec<char>)
    ensures
        r@ == s@,
{
    let mut r: Vec<char> = Vec::new();
    let n = s.unicode_len();
    let mut i: usize = 0;
    while i < n
        invariant
            n == s@.len(),
            i <= n,
            r@ == s@.subrange(0, i as int),
        decreases n - i,
    {
        r.push(s.get_char(i));
        i += 1;
    }
    assert(s@.subrange(0, n as int) == s@);
    r
}

/// Whether `list` holds a string with the same characters as `s`.
pub fn list_contains(list: &Vec<String>, s: &String) -> (r: bool)
    ensures
        r == texts(list@).contains(s@),
{
    let mut i: usize = 0;
    while i < list.len()
        invariant
            i <= list.len(),
            forall|k: int| 0 <= k < i ==> list@[k]@ != s@,
        decreases list.len() - i,
    {
        if list[i] == *s {
            assert(texts(list@)[i as int] == s@);
            return true;
        }
        i += 1;
    }
    false
}

/// The strings of `words` written one after the other with `sep` between
/// neighbours.
pub fn join_with(words: &Vec<String>, sep: &str) -> (r: String)
    ensures
        r@ == joined(texts(words@), sep@),
{
    let mut r = String::new();
    let mut i: usize = 0;
    while i < words.len()
        invariant
            i <= words.len(),
            r@ == joined(texts(words@).subrange(0, i as int), sep@),
        decreases words.len() - i,
    {
        if i > 0 {
            r.append(sep);
        }
        r.append(words[i].as_str());
        proof {
            let upto = texts(words@).subrange(0, i + 1);
            assert(upto.drop_last() == texts(words@).subrange(0, i as int));
            assert(upto.last() == words@[i as int]@);
            if i == 0 {
                assert(Seq::<char>::empty() + words@[0]@ == words@[0]@);
            }
        }
        i += 1;
    }
    assert(texts(words@).subrange(0, i as int) == texts(words@));
    r
}

/// Puts a line at the end of a list.
pub fn push_line(list: &mut Vec<String>, line: String)
    ensures
        texts(final(list)@) == texts(old(list)@).push(line@),
{
    proof {
        lemma_texts_push(list@, line);
    }
    list.push(line);
}

/// Puts copies of the lines of `more` at the end of a list.
pub fn push_lines(list: &mut Vec<String>, more: &Vec<String>)
    ensures
        texts(final(list)@) == texts(old(list)@) + texts(more@),
{
    let mut i: usize = 0;
    assert(texts(list@) =~= texts(old(list)@) + texts(more@).subrange(0, 0));
    while i < more.len()
        invariant
            i <= more.len(),
            texts(list@) == texts(old(list)@) + texts(more@).subrange(0, i as int),
        decreases more.len() - i,
    {
        push_line(list, more[i].clone());
        assert(texts(more@).subrange(0, i + 1) =~= texts(more@).subrange(0, i as int).push(
            more@[i as int]@,
        ));
        assert(texts(list@) =~= texts(old(list)@) + texts(more@).subrange(0, i + 1));
        i += 1;
    }
    assert(texts(more@).subrange(0, i as int) =~= texts(more@));
}

/// The string made of two texts, one after the other.
pub fn concat2(a: &str, b: &str) -> (r: String)
    ensures
        r@ == a@ + b@,
{
    let mut r = String::from_str(a);
    r.append(b);
    r
}

/// The string made of three texts, one after the other.
pub fn concat3(a: &str, b: &str, c: &str) -> (r: String)
    ensures
        r@ == a@ + b@ + c@,
{
    let mut r = String::from_str(a);
    r.append(b);
    r.append(c);
    r
}

/// The lines of a text, each without the white space at its ends. A text of
/// one word per line gives the list of its words.
pub fn word_list(text: &str) -> (r: Vec<String>)
    ensures
        texts(r@) == trimmed_lines(text@),
{
    let chars = chars_of_text(text);
    let mut r: Vec<String> = Vec::new();
    let mut line = String::new();
    let mut i: usize = 0;
    let ghost mut raw: Seq<Seq<char>> = Seq::empty();
    assert(chars@.subrange(0, 0) =~= Seq::empty());
    assert(raw.push(line@) =~= split_lines(chars@.subrange(0, 0)));
    while i < chars.len()
        invariant
            i <= chars.len(),
            chars@ == text@,
            raw.len() == r@.len(),
            forall|k: int| 0 <= k < raw.len() ==> r@[k]@ == trim_text(#[trigger] raw[k]),
            raw.push(line@) == split_lines(chars@.subrange(0, i as int)),
        decreases chars.len() - i,
    {
        let c = chars[i];
        proof {
            let upto = chars@.subrange(0, i + 1);
            assert(upto.drop_last() =~= chars@.subrange(0, i as int));
            assert(upto.last() == c);
        }
        if c == '\n' {
            let done = trimmed(line.as_str());
            proof {
                raw = raw.push(line@);
            }
            r.push(done);
            line = String::new();
        } else {
            let ghost before = raw.push(line@);
            push_char(&mut line, c);
            assert(raw.push(line@) =~= before.drop_last().push(before.last().push(c)));
        }
        i += 1;
    }
    assert(chars@.subrange(0, i as int) =~= chars@);
    let done = trimmed(line.as_str());
    proof {
        raw = raw.push(line@);
    }
    r.push(done);
    assert(texts(r@) =~= trimmed_lines(text@));
    r
}

/// The character of a decimal digit.
fn digit(d: usize) -> (c: char)
    requires
        d < 10,
    ensures
        c == digit_char(d as int),
{
    if d == 0 {
        '0'
    } else if d == 1 {
        '1'
    } else if d == 2 {
        '2'
    } else if d == 3 {
        '3'
    } else if d == 4 {
        '4'
    } else if d == 5 {
        '5'
    } else if d == 6 {
        '6'
    } else if d == 7 {
        '7'
    } else if d == 8 {
        '8'
    } else {
        '9'
    }
}

/// A number written in base ten.
pub fn decimal(n: usize) -> (r: String)
    ensures
        r@ == decimal_text(n as nat),
    decreases n,
{
    if n < 10 {
        let mut r = String::new();
        push_char(&mut r, digit(n));
        r
    } else {
        let mut r = decimal(n / 10);
        push_char(&mut r, digit(n % 10));
        r
    }
}

/// Appending a string to a list appends its characters to the list's texts.
pub proof fn lemma_texts_push(list: Seq<String>, s: String)
    ensures
        texts(list.push(s)) == texts(list).push(s@),
{
    assert(texts(list.push(s)) =~= texts(list).push(s@));
}

} // verus!
