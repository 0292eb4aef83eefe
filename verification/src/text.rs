//! Text helpers shared by the other modules.

use vstd::prelude::*;
use vstd::string::*;

verus! {

/// The lower-case form of a text, as `str::to_lowercase` computes it.
pub uninterp spec fn lowercased(text: Seq<char>) -> Seq<char>;

/// Calls `str::to_lowercase`. The contract only names the result: the
/// Unicode case tables are not written out here.
#[verifier::external_body]
pub(crate) fn to_lowercase(text: &str) -> (lower: String)
    ensures
        lower@ == lowercased(text@),
{
    text.to_lowercase()
}

/// `text` with every occurrence of `pattern` replaced by `with`, scanning
/// from the left; an occurrence that starts inside an earlier one does not
/// count. An empty pattern never occurs.
pub open spec fn replaced(text: Seq<char>, pattern: Seq<char>, with: Seq<char>) -> Seq<char>
    decreases text.len(),
{
    if pattern.len() == 0 || text.len() < pattern.len() {
        text
    } else if text.subrange(0, pattern.len() as int) == pattern {
        with + replaced(text.subrange(pattern.len() as int, text.len() as int), pattern, with)
    } else {
        text.subrange(0, 1) + replaced(text.subrange(1, text.len() as int), pattern, with)
    }
}

/// Whether `pattern` stands in `text` at position `at`.
pub open spec fn occurs_at(text: Seq<char>, pattern: Seq<char>, at: int) -> bool {
    &&& 0 <= at
    &&& at + pattern.len() <= text.len()
    &&& text.subrange(at, at + pattern.len()) == pattern
}

/// Tells whether `pattern` stands in `text` at character position `at`.
pub fn matches_at(text: &str, pattern: &str, at: usize) -> (found: bool)
    ensures
        found == occurs_at(text@, pattern@, at as int),
{
    let n: usize = text.unicode_len();
    let m: usize = pattern.unicode_len();
    if at > n || m > n - at {
        return false;
    }
    let mut k: usize = 0;
    while k < m
        invariant
            n == text@.len(),
            m == pattern@.len(),
            at + m <= n,
            k <= m,
            forall|j: int| 0 <= j < k ==> text@[at + j] == pattern@[j],
        decreases m - k,
    {
        if text.get_char(at + k) != pattern.get_char(k) {
            assert(text@.subrange(at as int, at + m)[k as int] != pattern@[k as int]);
            return false;
        }
        k += 1;
    }
    assert(text@.subrange(at as int, at + m) =~= pattern@);
    true
}

/// Replaces every occurrence of `pattern` in `text` by `with`.
pub fn replace_all(text: &str, pattern: &str, with: &str) -> (out: String)
    ensures
        out@ == replaced(text@, pattern@, with@),
{
    let n: usize = text.unicode_len();
    let m: usize = pattern.unicode_len();
    if m == 0 {
        return String::from_str(text);
    }
    let mut out = String::new();
    let mut i: usize = 0;
    assert(text@.subrange(0, n as int) =~= text@);
    assert(out@ + replaced(text@, pattern@, with@) =~= replaced(text@, pattern@, with@));
    while i < n
        invariant
            n == text@.len(),
            m == pattern@.len(),
            m > 0,
            i <= n,
            out@ + replaced(text@.subrange(i as int, n as int), pattern@, with@) == replaced(
                text@,
                pattern@,
                with@,
            ),
        decreases n - i,
    {
        let ghost rest = text@.subrange(i as int, n as int);
        let ghost done = out@;
        if matches_at(text, pattern, i) {
            assert(rest.subrange(0, m as int) =~= text@.subrange(i as int, i + m));
            assert(rest.subrange(m as int, rest.len() as int) =~= text@.subrange(i + m, n as int));
            out.append(with);
            i += m;
            assert(out@ + replaced(text@.subrange(i as int, n as int), pattern@, with@) =~= done
                + replaced(rest, pattern@, with@));
        } else {
            assert(rest.len() >= m ==> rest.subrange(0, m as int) =~= text@.subrange(
                i as int,
                i + m,
            ));
            out.append(text.substring_char(i, i + 1));
            if n - i < m {
                // No room for the pattern: the rest is copied as it is.
                proof {
                    let tail = text@.subrange(i + 1, n as int);
                    lemma_short_text_unchanged(tail, pattern@, with@);
                    assert(rest =~= rest.subrange(0, 1) + tail);
                }
            } else {
                assert(rest.subrange(0, 1) =~= text@.subrange(i as int, i + 1));
                assert(rest.subrange(1, rest.len() as int) =~= text@.subrange(i + 1, n as int));
            }
            i += 1;
            assert(out@ + replaced(text@.subrange(i as int, n as int), pattern@, with@) =~= done
                + replaced(rest, pattern@, with@));
        }
    }
    assert(text@.subrange(n as int, n as int) =~= Seq::<char>::empty());
    out
}

/// A text shorter than the pattern holds no occurrence of it.
pub proof fn lemma_short_text_unchanged(text: Seq<char>, pattern: Seq<char>, with: Seq<char>)
    requires
        text.len() < pattern.len(),
    ensures
        replaced(text, pattern, with) == text,
{
}

/// Joins two texts.
pub fn join_text(left: &str, right: &str) -> (joined: String)
    ensures
        joined@ == left@ + right@,
{
    let mut joined = String::from_str(left);
    joined.append(right);
    joined
}

/// Tells whether two texts hold the same characters.
pub fn same_text(left: &str, right: &str) -> (same: bool)
    ensures
        same == (left@ == right@),
{
    let n: usize = left.unicode_len();
    if n != right.unicode_len() {
        return false;
    }
    let found = matches_at(left, right, 0);
    proof {
        if left@.len() == right@.len() {
            assert(left@.subrange(0, left@.len() as int) =~= left@);
        }
    }
    found
}

/// Whether a character is white space, as `char::is_whitespace` tells.
pub uninterp spec fn whitespace(c: char) -> bool;

/// Calls `char::is_whitespace`. The result is named: the class is
/// Unicode's.
#[verifier::external_body]
pub(crate) fn is_whitespace(c: char) -> (yes: bool)
    ensures
        yes == whitespace(c),
{
    c.is_whitespace()
}

/// A word that has been begun, as a list: empty if nothing was begun.
pub open spec fn closed_word(begun: Seq<char>) -> Seq<Seq<char>> {
    if begun.len() > 0 {
        seq![begun]
    } else {
        Seq::empty()
    }
}

/// The words of `text` from position `from` on, where `begun` holds the
/// characters of the word that was begun before `from`.
pub open spec fn words_from(text: Seq<char>, from: int, begun: Seq<char>) -> Seq<Seq<char>>
    decreases text.len() - from,
{
    if from < 0 || from >= text.len() {
        closed_word(begun)
    } else if whitespace(text[from]) {
        closed_word(begun) + words_from(text, from + 1, Seq::empty())
    } else {
        words_from(text, from + 1, begun.push(text[from]))
    }
}

/// The words of a text: its longest runs of characters that are no white
/// space, in order.
pub open spec fn words_of(text: Seq<char>) -> Seq<Seq<char>> {
    words_from(text, 0, Seq::empty())
}

/// Cuts a text into its words.
pub fn split_whitespace(text: &str) -> (words: Vec<String>)
    ensures
        texts_of(words@) == words_of(text@),
{
    let n: usize = text.unicode_len();
    let mut words: Vec<String> = Vec::new();
    let mut start: usize = 0;
    let mut i: usize = 0;
    assert(text@.subrange(0, 0) =~= Seq::<char>::empty());
    assert(texts_of(words@) + words_of(text@) =~= words_of(text@));
    while i < n
        invariant
            n == text@.len(),
            start <= i <= n,
            texts_of(words@) + words_from(text@, i as int, text@.subrange(start as int, i as int))
                == words_of(text@),
        decreases n - i,
    {
        let ghost begun = text@.subrange(start as int, i as int);
        let ghost before = texts_of(words@);
        let c = text.get_char(i);
        if is_whitespace(c) {
            if start < i {
                let word = String::from_str(text.substring_char(start, i));
                words.push(word);
                assert(texts_of(words@) =~= before.push(begun));
            }
            start = i + 1;
            assert(text@.subrange(start as int, i + 1) =~= Seq::<char>::empty());
            assert(texts_of(words@) + words_from(text@, i + 1, Seq::empty()) =~= before
                + words_from(text@, i as int, begun));
        } else {
            assert(text@.subrange(start as int, i + 1) =~= begun.push(text@[i as int]));
        }
        i += 1;
    }
    let ghost begun = text@.subrange(start as int, n as int);
    let ghost before = texts_of(words@);
    if start < n {
        let word = String::from_str(text.substring_char(start, n));
        words.push(word);
        assert(texts_of(words@) =~= before.push(begun));
    }
    assert(texts_of(words@) =~= before + closed_word(begun));
    words
}

/// Whether a character is a letter or a number, as `char::is_alphanumeric`
/// tells.
pub uninterp spec fn alphanumeric(c: char) -> bool;

/// Calls `char::is_alphanumeric`. The result is named: the classes are
/// Unicode's.
#[verifier::external_body]
pub(crate) fn is_alphanumeric(c: char) -> (yes: bool)
    ensures
        yes == alphanumeric(c),
{
    c.is_alphanumeric()
}

/// The texts of a list, as plain values.
pub open spec fn texts_of(list: Seq<String>) -> Seq<Seq<char>> {
    list.map_values(|text: String| text@)
}

/// The words from position `from` on, with one space between neighbours.
pub open spec fn joined_from(words: Seq<Seq<char>>, from: int) -> Seq<char>
    decreases words.len() - from,
{
    if from < 0 || from >= words.len() {
        Seq::empty()
    } else if from == words.len() - 1 {
        words[from]
    } else {
        words[from] + " "@ + joined_from(words, from + 1)
    }
}

/// Joins the words from position `from` on with single spaces.
pub fn join_words(words: &Vec<String>, from: usize) -> (out: String)
    ensures
        out@ == joined_from(texts_of(words@), from as int),
{
    let n: usize = words.len();
    if from >= n {
        return String::new();
    }
    let mut out = String::new();
    let mut i: usize = n;
    assert(joined_from(texts_of(words@), n as int) =~= Seq::<char>::empty());
    while i > from
        invariant
            from <= i <= n,
            n == words@.len(),
            from < n,
            out@ == joined_from(texts_of(words@), i as int),
        decreases i,
    {
        i -= 1;
        let ghost all = texts_of(words@);
        assert(all[i as int] == words@[i as int]@);
        if i == n - 1 {
            out = words[i].clone();
        } else {
            let mut head = words[i].clone();
            head.append(" ");
            head.append(out.as_str());
            assert(head@ =~= all[i as int] + " "@ + joined_from(all, i + 1));
            out = head;
        }
    }
    out
}

/// Whether `pattern` stands somewhere in `text`.
pub open spec fn contains_pattern(text: Seq<char>, pattern: Seq<char>) -> bool {
    exists|at: int| occurs_at(text, pattern, at)
}

/// Tells whether `pattern` stands somewhere in `text`.
pub fn contains_text(text: &str, pattern: &str) -> (found: bool)
    ensures
        found == contains_pattern(text@, pattern@),
{
    let n: usize = text.unicode_len();
    let mut i: usize = 0;
    while i < n
        invariant
            n == text@.len(),
            i <= n,
            forall|at: int| 0 <= at < i ==> !occurs_at(text@, pattern@, at),
        decreases n - i,
    {
        if matches_at(text, pattern, i) {
            return true;
        }
        i += 1;
    }
    // Only an empty pattern stands at the very end.
    matches_at(text, pattern, n)
}

/// The character of a decimal digit.
pub open spec fn digit_char(digit: nat) -> char {
    if digit == 0 {
        '0'
    } else if digit == 1 {
        '1'
    } else if digit == 2 {
        '2'
    } else if digit == 3 {
        '3'
    } else if digit == 4 {
        '4'
    } else if digit == 5 {
        '5'
    } else if digit == 6 {
        '6'
    } else if digit == 7 {
        '7'
    } else if digit == 8 {
        '8'
    } else {
        '9'
    }
}

/// A natural number in decimal, without leading zeros.
pub open spec fn decimal_of(n: nat) -> Seq<char>
    decreases n,
{
    if n < 10 {
        seq![digit_char(n)]
    } else {
        decimal_of(n / 10).push(digit_char(n % 10))
    }
}

/// An integer in decimal, with a minus sign if it is negative.
pub open spec fn signed_decimal_of(n: int) -> Seq<char> {
    if n < 0 {
        seq!['-'] + decimal_of((-n) as nat)
    } else {
        decimal_of(n as nat)
    }
}

fn digit_text(digit: u64) -> (text: &'static str)
    requires
        digit < 10,
    ensures
        text@ == seq![digit_char(digit as nat)],
{
    proof {
        reveal_strlit("0");
        reveal_strlit("1");
        reveal_strlit("2");
        reveal_strlit("3");
        reveal_strlit("4");
        reveal_strlit("5");
        reveal_strlit("6");
        reveal_strlit("7");
        reveal_strlit("8");
        reveal_strlit("9");
    }
    let text = if digit == 0 {
        "0"
    } else if digit == 1 {
        "1"
    } else if digit == 2 {
        "2"
    } else if digit == 3 {
        "3"
    } else if digit == 4 {
        "4"
    } else if digit == 5 {
        "5"
    } else if digit == 6 {
        "6"
    } else if digit == 7 {
        "7"
    } else if digit == 8 {
        "8"
    } else {
        "9"
    };
    assert(text@ =~= seq![digit_char(digit as nat)]);
    text
}

/// Writes a natural number in decimal.
pub fn decimal(n: u64) -> (out: String)
    ensures
        out@ == decimal_of(n as nat),
{
    let mut out = String::from_str(digit_text(n % 10));
    let mut rest: u64 = n / 10;
    assert(decimal_of(n as nat) =~= (if rest > 0 {
        decimal_of(rest as nat)
    } else {
        Seq::<char>::empty()
    }) + out@);
    while rest > 0
        invariant
            decimal_of(n as nat) == (if rest > 0 {
                decimal_of(rest as nat)
            } else {
                Seq::<char>::empty()
            }) + out@,
        decreases rest,
    {
        let ghost lower = out@;
        let ghost upper = rest;
        out = join_text(digit_text(rest % 10), out.as_str());
        rest = rest / 10;
        assert(decimal_of(upper as nat) + lower =~= (if rest > 0 {
            decimal_of(rest as nat)
        } else {
            Seq::<char>::empty()
        }) + out@);
    }
    assert(Seq::<char>::empty() + out@ =~= out@);
    out
}

/// Writes an integer in decimal.
pub fn signed_decimal(n: i64) -> (out: String)
    ensures
        out@ == signed_decimal_of(n as int),
{
    if n >= 0 {
        decimal(n as u64)
    } else {
        let magnitude: u64 = if n == i64::MIN {
            9_223_372_036_854_775_808u64
        } else {
            (-n) as u64
        };
        proof {
            reveal_strlit("-");
            assert("-"@ =~= seq!['-']);
        }
        join_text("-", decimal(magnitude).as_str())
    }
}

} // verus!
