//! Text: numbers in decimal, lines, words, and the pieces that messages are
//! put together from.
//!
//! Every text is modelled by its sequence of characters.
use vstd::prelude::*;

use crate::standard;

verus! {

/// The decimal digit for a number below ten.
pub open spec fn digit(d: nat) -> char {
    ('0' as nat + d) as char
}

/// A number in decimal, without leading zeros.
pub open spec fn decimal(n: nat) -> Seq<char>
    decreases n,
{
    if n < 10 {
        seq![digit(n)]
    } else {
        decimal(n / 10).push(digit(n % 10))
    }
}

/// A number in decimal is one or more digits, of which the first of several is
/// not zero, and their value is the number.
pub proof fn lemma_decimal(n: nat)
    ensures
        decimal(n).len() > 0,
        standard::all_digits(decimal(n)),
        forall|i: int| 0 <= i < decimal(n).len() ==> '0' <= #[trigger] decimal(n)[i] <= '9',
        standard::decimal_value(decimal(n)) == n,
        n >= 10 ==> decimal(n).len() > 1,
        n > 0 ==> decimal(n)[0] != '0',
        n == 0 ==> decimal(n).len() == 1,
    decreases n,
{
    if n < 10 {
        assert(decimal(n).drop_last() =~= Seq::<char>::empty());
        assert(standard::decimal_value(decimal(n).drop_last()) == 0);
    } else {
        lemma_decimal(n / 10);
        assert(decimal(n).drop_last() =~= decimal(n / 10));
    }
}

/// Two numbers that look the same in decimal are the same.
pub proof fn law_decimal_is_injective(m: nat, n: nat)
    requires
        decimal(m) == decimal(n),
    ensures
        m == n,
{
    lemma_decimal(m);
    lemma_decimal(n);
}

/// A number of 32 bits, written in decimal, is read back as that number.
pub proof fn law_decimal_is_read_back(n: u32)
    ensures
        standard::u32_of(decimal(n as nat)) == Some(n),
{
    lemma_decimal(n as nat);
    assert(standard::is_digit(decimal(n as nat)[0]));
}

/// Writes `n` in decimal.
pub fn decimal_text(n: u64) -> (text: String)
    ensures
        text@ == decimal(n as nat),
    decreases n,
{
    let last: char = ('0' as u8 + (n % 10) as u8) as char;
    if n < 10 {
        let mut text = String::new();
        text.push(last);
        text
    } else {
        let mut text = decimal_text(n / 10);
        text.push(last);
        text
    }
}

/// A number in decimal, with a minus sign before it where it is negative.
pub open spec fn signed_decimal(n: int) -> Seq<char> {
    if n < 0 {
        "-"@ + decimal((-n) as nat)
    } else {
        decimal(n as nat)
    }
}

/// Writes `n` in decimal.
pub fn signed_decimal_text(n: i32) -> (text: String)
    ensures
        text@ == signed_decimal(n as int),
{
    let wide: i64 = n as i64;
    if wide < 0 {
        let mut text = "-".to_owned();
        text.append(decimal_text((-wide) as u64).as_str());
        text
    } else {
        decimal_text(wide as u64)
    }
}

/// The characters of a text, one by one.
pub fn characters(text: &str) -> (chars: Vec<char>)
    ensures
        chars@ == text@,
{
    let mut chars: Vec<char> = Vec::new();
    for c in it: text.chars()
        invariant
            chars@ == text@.take(it.index() as int),
            it.seq() == text@,
    {
        chars.push(c);
    }
    chars
}

/// Whether two texts hold the same characters.
pub fn same_text(a: &str, b: &str) -> (same: bool)
    ensures
        same == (a@ == b@),
{
    let left = characters(a);
    let right = characters(b);
    if left.len() != right.len() {
        return false;
    }
    for i in 0..left.len()
        invariant
            left@ == a@,
            right@ == b@,
            left.len() == right.len(),
            forall|k: int| 0 <= k < i ==> left@[k] == right@[k],
    {
        if left[i] != right[i] {
            return false;
        }
    }
    assert(left@ =~= right@);
    true
}

/// The characters from `from` up to, but not including, `to`, as a string.
fn substring(chars: &Vec<char>, from: usize, to: usize) -> (text: String)
    requires
        from <= to <= chars.len(),
    ensures
        text@ == chars@.subrange(from as int, to as int),
{
    let mut text = String::new();
    let mut i: usize = from;
    while i < to
        invariant
            from <= i <= to <= chars.len(),
            text@ == chars@.subrange(from as int, i as int),
        decreases to - i,
    {
        text.push(chars[i]);
        i = i + 1;
    }
    text
}

/// The texts that a list of strings holds.
pub open spec fn texts(strings: Seq<String>) -> Seq<Seq<char>> {
    Seq::new(strings.len(), |i: int| strings[i]@)
}

/// What a result says, in texts.
pub open spec fn outcome(result: Result<String, String>) -> Result<Seq<char>, Seq<char>> {
    match result {
        Ok(value) => Ok(value@),
        Err(message) => Err(message@),
    }
}

/// The texts in order, with `separator` between each two neighbours.
pub open spec fn joined(parts: Seq<Seq<char>>, separator: Seq<char>) -> Seq<char>
    decreases parts.len(),
{
    if parts.len() == 0 {
        Seq::empty()
    } else if parts.len() == 1 {
        parts[0]
    } else {
        joined(parts.drop_last(), separator) + separator + parts.last()
    }
}

/// Joins the texts with `separator` between each two neighbours.
pub fn join(parts: &Vec<String>, separator: &str) -> (text: String)
    ensures
        text@ == joined(texts(parts@), separator@),
{
    let mut text = String::new();
    let ghost all = texts(parts@);
    for i in 0..parts.len()
        invariant
            all == texts(parts@),
            text@ == joined(all.take(i as int), separator@),
    {
        proof {
            assert(all.take(i + 1).drop_last() =~= all.take(i as int));
            assert(all.take(i + 1).last() == parts@[i as int]@);
        }
        if i > 0 {
            text.append(separator);
        }
        text.append(parts[i].as_str());
        proof {
            if i == 0 {
                assert(text@ =~= all.take(1)[0]);
            }
        }
    }
    assert(all.take(all.len() as int) =~= all);
    text
}

/// The number of characters before the first white space, or all of them
/// where there is none.
pub open spec fn word_length(text: Seq<char>) -> nat
    decreases text.len(),
{
    if text.len() == 0 || standard::is_white_space(text[0]) {
        0
    } else {
        1 + word_length(text.skip(1))
    }
}

/// A word is no longer than the text it begins.
pub proof fn lemma_word_length_bound(text: Seq<char>)
    ensures
        word_length(text) <= text.len(),
    decreases text.len(),
{
    if text.len() > 0 && !standard::is_white_space(text[0]) {
        lemma_word_length_bound(text.skip(1));
    }
}

/// Where the white space first comes after `n` characters, or never and the
/// text has `n` of them, its first word is `n` long.
proof fn lemma_word_length(text: Seq<char>, n: int)
    requires
        0 <= n <= text.len(),
        forall|k: int| 0 <= k < n ==> !standard::is_white_space(#[trigger] text[k]),
        n == text.len() || standard::is_white_space(text[n]),
    ensures
        word_length(text) == n,
    decreases text.len(),
{
    if n > 0 {
        let rest = text.skip(1);
        assert forall|k: int| 0 <= k < n - 1 implies !standard::is_white_space(#[trigger] rest[k]) by {
            assert(rest[k] == text[k + 1]);
        }
        lemma_word_length(rest, n - 1);
    }
}

/// Where the line feed first comes after `n` characters, or never and the
/// text has `n` of them, its first line is `n` long.
proof fn lemma_line_length(text: Seq<char>, n: int)
    requires
        0 <= n <= text.len(),
        forall|k: int| 0 <= k < n ==> #[trigger] text[k] != '\n',
        n == text.len() || text[n] == '\n',
    ensures
        line_length(text) == n,
    decreases text.len(),
{
    if n > 0 {
        let rest = text.skip(1);
        assert forall|k: int| 0 <= k < n - 1 implies #[trigger] rest[k] != '\n' by {
            assert(rest[k] == text[k + 1]);
        }
        lemma_line_length(rest, n - 1);
    }
}

/// The words of a text: the longest runs of characters without white space
/// among them, in order.
pub open spec fn words(text: Seq<char>) -> Seq<Seq<char>>
    decreases text.len(),
{
    if text.len() == 0 {
        Seq::empty()
    } else if standard::is_white_space(text[0]) {
        words(text.skip(1))
    } else {
        proof {
            lemma_word_length_bound(text);
        }
        let n = word_length(text) as int;
        seq![text.take(n)] + words(text.skip(n))
    }
}

/// The number of characters before the first line feed, or all of them where
/// there is none.
pub open spec fn line_length(text: Seq<char>) -> nat
    decreases text.len(),
{
    if text.len() == 0 || text[0] == '\n' {
        0
    } else {
        1 + line_length(text.skip(1))
    }
}

/// The line without a carriage return at its end.
pub open spec fn without_carriage_return(line: Seq<char>) -> Seq<char> {
    if line.len() > 0 && line.last() == '\r' {
        line.drop_last()
    } else {
        line
    }
}

/// The lines of a text. A line ends with a line feed or with a carriage
/// return and a line feed, neither of which is part of it. The last line need
/// not be ended, and keeps what it then has.
pub open spec fn lines(text: Seq<char>) -> Seq<Seq<char>>
    decreases text.len(),
{
    let n = line_length(text) as int;
    if text.len() == 0 {
        Seq::empty()
    } else if n >= text.len() {
        seq![text]
    } else {
        seq![without_carriage_return(text.take(n))] + lines(text.skip(n + 1))
    }
}

/// The text without the white space at its two ends.
pub open spec fn trimmed(text: Seq<char>) -> Seq<char>
    decreases text.len(),
{
    if text.len() > 0 && standard::is_white_space(text[0]) {
        trimmed(text.skip(1))
    } else if text.len() > 0 && standard::is_white_space(text.last()) {
        trimmed(text.drop_last())
    } else {
        text
    }
}

/// A text that begins with a word and white space has that word as its first,
/// and its other words from what follows.
pub proof fn lemma_first_word(word: Seq<char>, space: char, rest: Seq<char>)
    requires
        word.len() > 0,
        forall|k: int| 0 <= k < word.len() ==> !standard::is_white_space(#[trigger] word[k]),
        standard::is_white_space(space),
    ensures
        words(word.push(space) + rest) == seq![word] + words(rest),
{
    let whole = word.push(space) + rest;
    let n = word.len() as int;
    assert forall|k: int| 0 <= k < n implies !standard::is_white_space(#[trigger] whole[k]) by {
        assert(whole[k] == word[k]);
    }
    assert(whole[n] == space);
    assert(!standard::is_white_space(whole[0]));
    lemma_word_length(whole, n);
    assert(whole.take(n) =~= word);
    let after = whole.skip(n);
    assert(after[0] == space);
    assert(after.skip(1) =~= rest);
    assert(words(after) == words(rest));
}

/// A text that begins with an ended line has that line as its first, and its
/// other lines from what follows.
pub proof fn lemma_first_line(line: Seq<char>, rest: Seq<char>)
    requires
        forall|k: int| 0 <= k < line.len() ==> #[trigger] line[k] != '\n',
    ensures
        lines(line.push('\n') + rest) == seq![without_carriage_return(line)] + lines(rest),
{
    let whole = line.push('\n') + rest;
    let n = line.len() as int;
    assert forall|k: int| 0 <= k < n implies #[trigger] whole[k] != '\n' by {
        assert(whole[k] == line[k]);
    }
    assert(whole[n] == '\n');
    lemma_line_length(whole, n);
    assert(whole.take(n) =~= line);
    assert(whole.skip(n + 1) =~= rest);
}

/// Splits a text into its words.
pub fn split_words(text: &str) -> (found: Vec<String>)
    ensures
        texts(found@) == words(text@),
{
    let chars = characters(text);
    let mut found: Vec<String> = Vec::new();
    let mut i: usize = 0;
    assert(chars@.skip(0) =~= chars@);
    assert(texts(found@) =~= Seq::<Seq<char>>::empty());
    while i < chars.len()
        invariant
            i <= chars.len(),
            chars@ == text@,
            words(text@) == texts(found@) + words(chars@.skip(i as int)),
        decreases chars.len() - i,
    {
        let ghost rest = chars@.skip(i as int);
        assert(rest[0] == chars@[i as int]);
        if chars[i].is_whitespace() {
            assert(rest.skip(1) =~= chars@.skip(i + 1));
            i = i + 1;
        } else {
            let mut end: usize = i + 1;
            while end < chars.len() && !chars[end].is_whitespace()
                invariant
                    i < end <= chars.len(),
                    forall|k: int| i <= k < end ==> !standard::is_white_space(#[trigger] chars@[k]),
                decreases chars.len() - end,
            {
                end = end + 1;
            }
            let ghost n = end - i;
            let ghost before = found@;
            found.push(substring(&chars, i, end));
            proof {
                assert forall|k: int| 0 <= k < n implies !standard::is_white_space(#[trigger] rest[k]) by {
                    assert(rest[k] == chars@[i + k]);
                }
                if end < chars.len() {
                    assert(rest[n] == chars@[end as int]);
                }
                lemma_word_length(rest, n);
                assert(rest.take(n) =~= chars@.subrange(i as int, end as int));
                assert(rest.skip(n) =~= chars@.skip(end as int));
                assert(texts(found@) =~= texts(before).push(rest.take(n)));
                assert(texts(before) + (seq![rest.take(n)] + words(rest.skip(n))) =~= texts(found@)
                    + words(rest.skip(n)));
            }
            i = end;
        }
    }
    assert(chars@.skip(i as int) =~= Seq::<char>::empty());
    assert(texts(found@) + Seq::<Seq<char>>::empty() =~= texts(found@));
    found
}

/// Splits a text into its lines.
pub fn split_lines(text: &str) -> (found: Vec<String>)
    ensures
        texts(found@) == lines(text@),
{
    let chars = characters(text);
    let mut found: Vec<String> = Vec::new();
    let mut i: usize = 0;
    assert(chars@.skip(0) =~= chars@);
    assert(texts(found@) =~= Seq::<Seq<char>>::empty());
    while i < chars.len()
        invariant
            i <= chars.len(),
            chars@ == text@,
            lines(text@) == texts(found@) + lines(chars@.skip(i as int)),
        decreases chars.len() - i,
    {
        let ghost rest = chars@.skip(i as int);
        let mut end: usize = i;
        while end < chars.len() && chars[end] != '\n'
            invariant
                i <= end <= chars.len(),
                forall|k: int| i <= k < end ==> #[trigger] chars@[k] != '\n',
            decreases chars.len() - end,
        {
            end = end + 1;
        }
        let ghost n = end - i;
        proof {
            assert forall|k: int| 0 <= k < n implies #[trigger] rest[k] != '\n' by {
                assert(rest[k] == chars@[i + k]);
            }
            if end < chars.len() {
                assert(rest[n] == chars@[end as int]);
            }
            lemma_line_length(rest, n);
            assert(rest.take(n) =~= chars@.subrange(i as int, end as int));
        }
        let ghost before = found@;
        if end == chars.len() {
            found.push(substring(&chars, i, end));
            proof {
                assert(rest.take(n) =~= rest);
                assert(texts(found@) =~= texts(before).push(rest));
                assert(texts(before) + seq![rest] =~= texts(found@));
                assert(chars@.skip(end as int) =~= Seq::<char>::empty());
                assert(texts(found@) + Seq::<Seq<char>>::empty() =~= texts(found@));
            }
            i = end;
        } else {
            let stop: usize = if end > i && chars[end - 1] == '\r' {
                end - 1
            } else {
                end
            };
            found.push(substring(&chars, i, stop));
            proof {
                let line = without_carriage_return(rest.take(n));
                if n > 0 {
                    assert(rest.take(n).last() == chars@[end - 1]);
                }
                assert(line =~= chars@.subrange(i as int, stop as int));
                assert(rest.skip(n + 1) =~= chars@.skip(end + 1));
                assert(texts(found@) =~= texts(before).push(line));
                assert(texts(before) + (seq![line] + lines(rest.skip(n + 1))) =~= texts(found@)
                    + lines(rest.skip(n + 1)));
            }
            i = end + 1;
        }
    }
    assert(chars@.skip(i as int) =~= Seq::<char>::empty());
    assert(texts(found@) + Seq::<Seq<char>>::empty() =~= texts(found@));
    found
}

/// Removes the white space at the two ends of a text.
pub fn trim(text: &str) -> (kept: String)
    ensures
        kept@ == trimmed(text@),
{
    let chars = characters(text);
    let mut from: usize = 0;
    let mut to: usize = chars.len();
    assert(chars@.subrange(0, to as int) =~= text@);
    while from < to && chars[from].is_whitespace()
        invariant
            from <= to == chars.len(),
            trimmed(text@) == trimmed(chars@.subrange(from as int, to as int)),
        decreases to - from,
    {
        assert(chars@.subrange(from as int, to as int).skip(1) =~= chars@.subrange(
            from + 1,
            to as int,
        ));
        from = from + 1;
    }
    while from < to && chars[to - 1].is_whitespace()
        invariant
            from <= to <= chars.len(),
            from < to ==> !standard::is_white_space(chars@[from as int]),
            trimmed(text@) == trimmed(chars@.subrange(from as int, to as int)),
        decreases to - from,
    {
        assert(chars@.subrange(from as int, to as int).drop_last() =~= chars@.subrange(
            from as int,
            to - 1,
        ));
        to = to - 1;
    }
    substring(&chars, from, to)
}

/// What writing a number gives: digits of its value, without leading zeros.
pub proof fn law_decimal_text(n: u64, text: String)
    requires
        call_ensures(decimal_text, (n,), text),
    ensures
        text@.len() > 0,
        forall|i: int| 0 <= i < text@.len() ==> '0' <= #[trigger] text@[i] <= '9',
        standard::decimal_value(text@) == n,
        text@[0] == '0' ==> text@.len() == 1,
{
    lemma_decimal(n as nat);
}

/// What writing a number with its sign gives: a minus sign if and only if it is
/// negative, and digits of its size, without leading zeros.
pub proof fn law_signed_decimal_text(n: i32, text: String)
    requires
        call_ensures(signed_decimal_text, (n,), text),
    ensures
        n < 0 ==> text@.len() > 1 && text@[0] == '-' && text@[1] != '0' && standard::all_digits(
            text@.skip(1),
        ) && standard::decimal_value(text@.skip(1)) == -n,
        n >= 0 ==> text@.len() > 0 && standard::all_digits(text@) && standard::decimal_value(text@)
            == n && (text@[0] == '0' ==> text@.len() == 1),
{
    reveal_strlit("-");
    if n < 0 {
        lemma_decimal((-n) as nat);
        assert(text@.skip(1) =~= decimal((-n) as nat));
        assert(text@[1] == decimal((-n) as nat)[0]);
    } else {
        lemma_decimal(n as nat);
    }
}

/// The texts of strings are those strings' texts, one for one.
pub proof fn law_texts_are_those_of_the_strings(strings: Seq<String>)
    ensures
        texts(strings).len() == strings.len(),
        forall|i: int| 0 <= i < strings.len() ==> #[trigger] texts(strings)[i] == strings[i]@,
{
}

/// Nothing joined is nothing, one text joined is itself, and two lists joined
/// after one another have the separator between them.
pub proof fn law_joined_texts(
    first: Seq<Seq<char>>,
    second: Seq<Seq<char>>,
    one: Seq<char>,
    separator: Seq<char>,
)
    requires
        first.len() > 0,
        second.len() > 0,
    ensures
        joined(Seq::empty(), separator) == Seq::<char>::empty(),
        joined(seq![one], separator) == one,
        joined(first + second, separator) == joined(first, separator) + separator + joined(
            second,
            separator,
        ),
    decreases second.len(),
{
    let whole = first + second;
    assert(whole.last() == second.last());
    if second.len() == 1 {
        assert(whole.drop_last() =~= first);
    } else {
        law_joined_texts(first, second.drop_last(), one, separator);
        assert(whole.drop_last() =~= first + second.drop_last());
        assert(joined(whole, separator) =~= joined(first, separator) + separator + joined(
            second,
            separator,
        ));
    }
}

/// How far the first word reaches.
proof fn lemma_word_length_reaches(text: Seq<char>)
    ensures
        word_length(text) <= text.len(),
        forall|k: int|
            0 <= k < word_length(text) ==> !standard::is_white_space(#[trigger] text[k]),
        word_length(text) == text.len() || standard::is_white_space(
            text[word_length(text) as int],
        ),
    decreases text.len(),
{
    if text.len() > 0 && !standard::is_white_space(text[0]) {
        let rest = text.skip(1);
        lemma_word_length_reaches(rest);
        assert forall|k: int| 0 <= k < word_length(text) implies !standard::is_white_space(
            #[trigger] text[k],
        ) by {
            if k > 0 {
                assert(rest[k - 1] == text[k]);
            }
        }
    }
}

/// White space parts words: a text has the words before it and then those after
/// it. A text without any, unless empty, is one word.
pub proof fn law_white_space_parts_words(before: Seq<char>, space: char, after: Seq<char>)
    requires
        standard::is_white_space(space),
    ensures
        words(before.push(space) + after) == words(before) + words(after),
        before.len() == 0 ==> words(before) == Seq::<Seq<char>>::empty(),
        before.len() > 0 && (forall|k: int|
            0 <= k < before.len() ==> !standard::is_white_space(#[trigger] before[k])) ==> words(
            before,
        ) == seq![before],
    decreases before.len(),
{
    let whole = before.push(space) + after;
    if before.len() == 0 {
        assert(whole[0] == space);
        assert(whole.skip(1) =~= after);
        assert(Seq::<Seq<char>>::empty() + words(after) =~= words(after));
    } else if standard::is_white_space(before[0]) {
        law_white_space_parts_words(before.skip(1), space, after);
        assert(whole[0] == before[0]);
        assert(whole.skip(1) =~= before.skip(1).push(space) + after);
    } else {
        lemma_word_length_reaches(before);
        let n = word_length(before) as int;
        assert(n > 0);
        assert forall|k: int| 0 <= k < n implies !standard::is_white_space(#[trigger] whole[k]) by {
            assert(whole[k] == before[k]);
        }
        if n < before.len() {
            assert(whole[n] == before[n]);
        } else {
            assert(whole[n] == space);
        }
        assert(whole[0] == before[0]);
        lemma_word_length(whole, n);
        assert(whole.take(n) =~= before.take(n));
        law_white_space_parts_words(before.skip(n), space, after);
        assert(whole.skip(n) =~= before.skip(n).push(space) + after);
        assert(seq![before.take(n)] + (words(before.skip(n)) + words(after)) =~= (seq![
            before.take(n),
        ] + words(before.skip(n))) + words(after));
        if forall|k: int|
            0 <= k < before.len() ==> !standard::is_white_space(#[trigger] before[k]) {
            assert(n == before.len());
            assert(before.take(n) =~= before);
            assert(before.skip(n) =~= Seq::<char>::empty());
            assert(seq![before] + Seq::<Seq<char>>::empty() =~= seq![before]);
        }
    }
}

/// A line feed ends a line, of which a carriage return right before it is no
/// part. Text without a line feed, unless empty, is one line.
pub proof fn law_line_feeds_end_lines(line: Seq<char>, rest: Seq<char>)
    requires
        forall|k: int| 0 <= k < line.len() ==> #[trigger] line[k] != '\n',
    ensures
        lines(Seq::empty()) == Seq::<Seq<char>>::empty(),
        line.len() > 0 ==> lines(line) == seq![line],
        line.len() == 0 || line.last() != '\r' ==> lines(line.push('\n') + rest) == seq![line]
            + lines(rest),
        lines(line.push('\r').push('\n') + rest) == seq![line] + lines(rest),
{
    lemma_line_length(line, line.len() as int);
    lemma_first_line(line, rest);
    let ended = line.push('\r');
    assert forall|k: int| 0 <= k < ended.len() implies #[trigger] ended[k] != '\n' by {
        if k < line.len() {
            assert(ended[k] == line[k]);
        }
    }
    lemma_first_line(ended, rest);
    assert(ended.drop_last() =~= line);
}

/// Trimming takes away the white space at both ends and nothing else: what is
/// kept is what stands between it.
pub proof fn law_trimming_keeps_the_middle(left: Seq<char>, middle: Seq<char>, right: Seq<char>)
    requires
        forall|k: int| 0 <= k < left.len() ==> standard::is_white_space(#[trigger] left[k]),
        forall|k: int| 0 <= k < right.len() ==> standard::is_white_space(#[trigger] right[k]),
        middle.len() > 0 ==> !standard::is_white_space(middle[0]) && !standard::is_white_space(
            middle.last(),
        ),
    ensures
        trimmed(left + middle + right) == middle,
    decreases left.len() + right.len(),
{
    let whole = left + middle + right;
    if left.len() > 0 {
        assert(whole[0] == left[0]);
        let rest = left.skip(1);
        assert forall|k: int| 0 <= k < rest.len() implies standard::is_white_space(
            #[trigger] rest[k],
        ) by {
            assert(rest[k] == left[k + 1]);
        }
        law_trimming_keeps_the_middle(rest, middle, right);
        assert(whole.skip(1) =~= rest + middle + right);
    } else if middle.len() > 0 {
        assert(whole[0] == middle[0]);
        if right.len() > 0 {
            assert(whole.last() == right[right.len() - 1]);
            let rest = right.drop_last();
            assert forall|k: int| 0 <= k < rest.len() implies standard::is_white_space(
                #[trigger] rest[k],
            ) by {
                assert(rest[k] == right[k]);
            }
            law_trimming_keeps_the_middle(left, middle, rest);
            assert(whole.drop_last() =~= left + middle + rest);
        } else {
            assert(whole =~= middle);
            assert(whole.last() == middle.last());
        }
    } else if right.len() > 0 {
        assert(whole[0] == right[0]);
        let rest = right.skip(1);
        assert forall|k: int| 0 <= k < rest.len() implies standard::is_white_space(
            #[trigger] rest[k],
        ) by {
            assert(rest[k] == right[k + 1]);
        }
        law_trimming_keeps_the_middle(left, middle, rest);
        assert(whole.skip(1) =~= left + middle + rest);
    } else {
        assert(whole =~= middle);
    }
}

} // verus!
