//! Character-level primitives for line-oriented text: white space, substring
//! search, the last blank-separated token of a line, unsigned decimal numbers
//! and the split of a document into lines.
//!
//! Text is modelled as `Seq<char>`; the executable functions work on `&[char]`.

use vstd::prelude::*;

verus! {

/// The code point `c` has the Unicode property `White_Space`.
pub open spec fn is_whitespace(c: char) -> bool {
    let u = c as u32;
    ||| 0x09 <= u <= 0x0D
    ||| u == 0x20
    ||| u == 0x85
    ||| u == 0xA0
    ||| u == 0x1680
    ||| 0x2000 <= u <= 0x200A
    ||| u == 0x2028
    ||| u == 0x2029
    ||| u == 0x202F
    ||| u == 0x205F
    ||| u == 0x3000
}

/// Tests a character for white space.
pub fn whitespace(c: char) -> (b: bool)
    ensures
        b == is_whitespace(c),
{
    let u: u32 = c as u32;
    (0x09 <= u && u <= 0x0D) || u == 0x20 || u == 0x85 || u == 0xA0 || u == 0x1680 || (0x2000 <= u
        && u <= 0x200A) || u == 0x2028 || u == 0x2029 || u == 0x202F || u == 0x205F || u == 0x3000
}

/// `needle` stands in `hay` at offset `at`.
pub open spec fn found_at(hay: Seq<char>, needle: Seq<char>, at: int) -> bool {
    &&& 0 <= at
    &&& at + needle.len() <= hay.len()
    &&& hay.subrange(at, at + needle.len()) == needle
}

/// `needle` stands somewhere in `hay`. The empty needle stands in every text.
pub open spec fn has_substring(hay: Seq<char>, needle: Seq<char>) -> bool {
    exists|at: int| found_at(hay, needle, at)
}

fn matches_at(hay: &[char], needle: &[char], at: usize) -> (b: bool)
    requires
        at + needle@.len() <= hay@.len(),
    ensures
        b == found_at(hay@, needle@, at as int),
{
    let n: usize = needle.len();
    let ghost window = hay@.subrange(at as int, at + n);
    let mut k: usize = 0;
    while k < n
        invariant
            k <= n,
            n == needle@.len(),
            at + n <= hay.len(),
            window == hay@.subrange(at as int, at + n),
            forall|j: int| 0 <= j < k ==> window[j] == needle@[j],
        decreases n - k,
    {
        if hay[at + k] != needle[k] {
            assert(window[k as int] != needle@[k as int]);
            return false;
        }
        k += 1;
    }
    assert(window =~= needle@);
    true
}

/// Searches `hay` for `needle`.
pub fn contains(hay: &[char], needle: &[char]) -> (b: bool)
    ensures
        b == has_substring(hay@, needle@),
{
    if needle.len() > hay.len() {
        return false;
    }
    let last: usize = hay.len() - needle.len();
    let mut at: usize = 0;
    loop
        invariant
            at <= last,
            last == hay@.len() - needle@.len(),
            forall|i: int| 0 <= i < at ==> !found_at(hay@, needle@, i),
        decreases last - at,
    {
        if matches_at(hay, needle, at) {
            return true;
        }
        if at == last {
            return false;
        }
        at += 1;
    }
}

/// The longest suffix of `line` that holds no white space.
pub open spec fn trailing_word(line: Seq<char>) -> Seq<char>
    decreases line.len(),
{
    if line.len() == 0 || is_whitespace(line.last()) {
        Seq::empty()
    } else {
        trailing_word(line.drop_last()).push(line.last())
    }
}

/// The last of the tokens that white space separates in `line`: the trailing
/// word of the line without the white space at its end. It is empty exactly
/// when the line holds nothing but white space.
pub open spec fn last_token(line: Seq<char>) -> Seq<char>
    decreases line.len(),
{
    if line.len() > 0 && is_whitespace(line.last()) {
        last_token(line.drop_last())
    } else {
        trailing_word(line)
    }
}

/// Finds the last token of `line`: the bounds of it within the line.
pub fn find_last_token(line: &[char]) -> (bounds: (usize, usize))
    ensures
        bounds.0 <= bounds.1 <= line@.len(),
        line@.subrange(bounds.0 as int, bounds.1 as int) == last_token(line@),
{
    let mut end: usize = line.len();
    assert(line@.take(end as int) =~= line@);
    while end > 0 && whitespace(line[end - 1])
        invariant
            end <= line@.len(),
            last_token(line@) == last_token(line@.take(end as int)),
        decreases end,
    {
        assert(line@.take(end as int).drop_last() =~= line@.take(end - 1));
        end -= 1;
    }
    let mut start: usize = end;
    assert(line@.subrange(start as int, end as int) =~= Seq::<char>::empty());
    assert(trailing_word(line@.take(start as int)) + Seq::<char>::empty() =~= trailing_word(
        line@.take(start as int),
    ));
    while start > 0 && !whitespace(line[start - 1])
        invariant
            start <= end <= line@.len(),
            trailing_word(line@.take(end as int)) == trailing_word(line@.take(start as int))
                + line@.subrange(start as int, end as int),
        decreases start,
    {
        assert(line@.take(start as int).drop_last() =~= line@.take(start - 1));
        assert(trailing_word(line@.take(start - 1)).push(line@[start - 1]) + line@.subrange(
            start as int,
            end as int,
        ) =~= trailing_word(line@.take(start - 1)) + line@.subrange(start - 1, end as int));
        start -= 1;
    }
    assert(Seq::<char>::empty() + line@.subrange(start as int, end as int) =~= line@.subrange(
        start as int,
        end as int,
    ));
    (start, end)
}

/// `c` is one of the ten decimal digits.
pub open spec fn is_digit(c: char) -> bool {
    '0' <= c <= '9'
}

/// The number that the digit `c` stands for.
pub open spec fn digit_value(c: char) -> nat {
    (c as int - '0' as int) as nat
}

/// Every character of `s` is a decimal digit.
pub open spec fn all_digits(s: Seq<char>) -> bool {
    forall|i: int| 0 <= i < s.len() ==> is_digit(#[trigger] s[i])
}

/// The number that the digits `s` write in base ten; leading zeros count for
/// nothing and the empty sequence writes zero.
pub open spec fn decimal_value(s: Seq<char>) -> nat
    decreases s.len(),
{
    if s.len() == 0 {
        0
    } else {
        decimal_value(s.drop_last()) * 10 + digit_value(s.last())
    }
}

/// `token` without the one plus sign that may stand at its head.
pub open spec fn unsigned_digits(token: Seq<char>) -> Seq<char> {
    if token.len() > 0 && token[0] == '+' {
        token.drop_first()
    } else {
        token
    }
}

/// The `u64` that `token` writes: an optional plus sign, then one or more
/// decimal digits and nothing else, whose value fits in 64 bits.
pub open spec fn unsigned_of(token: Seq<char>) -> Option<u64> {
    let digits = unsigned_digits(token);
    if digits.len() > 0 && all_digits(digits) && decimal_value(digits) <= u64::MAX {
        Some(decimal_value(digits) as u64)
    } else {
        None
    }
}

/// The value of a run of digits is at least that of each of its prefixes.
pub proof fn lemma_decimal_value_grows(s: Seq<char>, k: int)
    requires
        0 <= k <= s.len(),
    ensures
        decimal_value(s.take(k)) <= decimal_value(s),
    decreases s.len(),
{
    if k == s.len() {
        assert(s.take(k) =~= s);
    } else {
        assert(s.drop_last().take(k) =~= s.take(k));
        lemma_decimal_value_grows(s.drop_last(), k);
    }
}

fn digit_of(c: char) -> (d: Option<u64>)
    ensures
        d is Some <==> is_digit(c),
        d matches Some(v) ==> v == digit_value(c) && v <= 9,
{
    if c >= '0' && c <= '9' {
        let v: u32 = c as u32 - '0' as u32;
        Some(v as u64)
    } else {
        None
    }
}

/// Reads `token` as an unsigned decimal number of 64 bits.
pub fn parse_unsigned(token: &[char]) -> (value: Option<u64>)
    ensures
        value == unsigned_of(token@),
{
    let n: usize = token.len();
    let first: usize = if n > 0 && token[0] == '+' {
        1
    } else {
        0
    };
    let ghost digits = unsigned_digits(token@);
    assert(digits =~= token@.skip(first as int));
    if first == n {
        return None;
    }
    let mut i: usize = first;
    let mut acc: u64 = 0;
    assert(digits.take(0) =~= Seq::<char>::empty());
    while i < n
        invariant
            first <= i <= n,
            n == token@.len(),
            digits == token@.skip(first as int),
            digits == unsigned_digits(token@),
            forall|j: int| 0 <= j < i - first ==> is_digit(#[trigger] digits[j]),
            acc == decimal_value(digits.take(i - first)),
        decreases n - i,
    {
        let ghost k: int = i - first;
        assert(digits[k] == token@[i as int]);
        assert(digits.take(k + 1).drop_last() =~= digits.take(k));
        assert(decimal_value(digits.take(k + 1)) == acc * 10 + digit_value(digits[k]));
        match digit_of(token[i]) {
            None => {
                assert(!is_digit(digits[k]));
                return None;
            },
            Some(d) => {
                let shifted: u64 = match acc.checked_mul(10) {
                    Some(t) => t,
                    None => {
                        proof {
                            lemma_decimal_value_grows(digits, k + 1);
                        }
                        return None;
                    },
                };
                acc = match shifted.checked_add(d) {
                    Some(t) => t,
                    None => {
                        proof {
                            lemma_decimal_value_grows(digits, k + 1);
                        }
                        return None;
                    },
                };
            },
        }
        i += 1;
    }
    assert(digits.take(n - first) =~= digits);
    Some(acc)
}

/// The number of characters of `text` that stand before its first line feed:
/// the whole length where it holds none.
pub open spec fn first_break(text: Seq<char>) -> nat
    decreases text.len(),
{
    if text.len() == 0 || text[0] == '\n' {
        0
    } else {
        1 + first_break(text.drop_first())
    }
}

/// The lines of `text`: what stands between its line feeds, in order. A text
/// of n line feeds has n + 1 lines, of which any may be empty.
pub open spec fn lines(text: Seq<char>) -> Seq<Seq<char>>
    decreases text.len(),
{
    let n = first_break(text);
    if n >= text.len() {
        seq![text]
    } else {
        seq![text.take(n as int)] + lines(text.skip(n as int + 1))
    }
}

/// A position is the first break of a text when no line feed stands before it
/// and the text ends there or holds a line feed there.
pub proof fn lemma_first_break(text: Seq<char>, n: int)
    requires
        0 <= n <= text.len(),
        forall|i: int| 0 <= i < n ==> text[i] != '\n',
        n == text.len() || text[n] == '\n',
    ensures
        first_break(text) == n,
    decreases n,
{
    if n > 0 {
        let rest = text.drop_first();
        assert forall|i: int| 0 <= i < n - 1 implies rest[i] != '\n' by {
            assert(rest[i] == text[i + 1]);
        }
        lemma_first_break(rest, n - 1);
    }
}

/// Finds the end of the line that begins at `from`: the position of the next
/// line feed, or the length of the text.
pub fn line_end(text: &[char], from: usize) -> (end: usize)
    requires
        from <= text@.len(),
    ensures
        from <= end <= text@.len(),
        end - from == first_break(text@.skip(from as int)),
{
    let mut end: usize = from;
    while end < text.len() && text[end] != '\n'
        invariant
            from <= end <= text@.len(),
            forall|i: int| from <= i < end ==> text@[i] != '\n',
        decreases text@.len() - end,
    {
        end += 1;
    }
    proof {
        let rest = text@.skip(from as int);
        assert forall|i: int| 0 <= i < end - from implies rest[i] != '\n' by {
            assert(rest[i] == text@[from + i]);
        }
        lemma_first_break(rest, end - from);
    }
    end
}

/// Copies the characters of `text` into a vector.
pub fn chars_of(text: &str) -> (chars: Vec<char>)
    ensures
        chars@ == text@,
{
    let mut chars: Vec<char> = Vec::new();
    for c in it: text.chars()
        invariant
            chars@ == it.seq().take(it.index() as int),
            it.seq() == text@,
    {
        chars.push(c);
    }
    chars
}

} // verus!
