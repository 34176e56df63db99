//! Text as sequences of characters: searching, trimming and decimal numerals.
//!
//! Every executable function here is specified over `Seq<char>`, the view of
//! `str` and `String`.

use vstd::prelude::*;
use vstd::std_specs::iter::IteratorSpec;

verus! {

/// The numeral character of a digit below ten.
pub open spec fn digit_char(d: nat) -> char {
    if d == 0 {
        '0'
    } else if d == 1 {
        '1'
    } else if d == 2 {
        '2'
    } else if d == 3 {
        '3'
    } else if d == 4 {
        '4'
    } else if d == 5 {
        '5'
    } else if d == 6 {
        '6'
    } else if d == 7 {
        '7'
    } else if d == 8 {
        '8'
    } else {
        '9'
    }
}

/// Whether `c` is one of the ten numeral characters.
pub open spec fn is_digit(c: char) -> bool {
    exists|d: nat| d < 10 && c == #[trigger] digit_char(d)
}

/// The decimal numeral of `n`: no sign, no leading zero, `"0"` for zero.
pub open spec fn decimal(n: nat) -> Seq<char>
    decreases n,
{
    if n < 10 {
        seq![digit_char(n)]
    } else {
        decimal(n / 10).push(digit_char(n % 10))
    }
}

/// The decimal numeral of an integer, with a leading `-` when it is negative.
pub open spec fn signed_decimal(i: int) -> Seq<char> {
    if i < 0 {
        seq!['-'] + decimal((-i) as nat)
    } else {
        decimal(i as nat)
    }
}

/// Whether `pattern` stands in `text` starting at index `at`.
pub open spec fn occurs_at(text: Seq<char>, pattern: Seq<char>, at: int) -> bool {
    &&& 0 <= at
    &&& at + pattern.len() <= text.len()
    &&& text.subrange(at, at + pattern.len()) == pattern
}

/// Whether `pattern` stands somewhere in `text`.
pub open spec fn contains(text: Seq<char>, pattern: Seq<char>) -> bool {
    exists|at: int| occurs_at(text, pattern, at)
}

/// `text` without any of the copies of `suffix` that end it.
pub open spec fn trim_suffix(text: Seq<char>, suffix: Seq<char>) -> Seq<char>
    decreases text.len(),
{
    if suffix.len() > 0 && suffix.is_suffix_of(text) {
        trim_suffix(text.take(text.len() - suffix.len()), suffix)
    } else {
        text
    }
}

/// `text` without any of the copies of `prefix` that begin it.
pub open spec fn trim_prefix(text: Seq<char>, prefix: Seq<char>) -> Seq<char>
    decreases text.len(),
{
    if prefix.len() > 0 && prefix.is_prefix_of(text) {
        trim_prefix(text.skip(prefix.len() as int), prefix)
    } else {
        text
    }
}

/// Whether `at` is the index of the first `c` in `text`.
pub open spec fn is_first_index_of(text: Seq<char>, c: char, at: int) -> bool {
    &&& 0 <= at < text.len()
    &&& text[at] == c
    &&& forall|k: int| 0 <= k < at ==> text[k] != c
}

/// The index of the first `c` in `text`, if there is one.
pub open spec fn first_index_of(text: Seq<char>, c: char) -> Option<int> {
    if exists|at: int| is_first_index_of(text, c, at) {
        Some(choose|at: int| is_first_index_of(text, c, at))
    } else {
        None
    }
}

/// Every character of a decimal numeral is a digit, and there is at least one.
pub proof fn lemma_decimal_digits(n: nat)
    ensures
        decimal(n).len() >= 1,
        forall|k: int| 0 <= k < decimal(n).len() ==> is_digit(#[trigger] decimal(n)[k]),
    decreases n,
{
    if n >= 10 {
        lemma_decimal_digits(n / 10);
    }
}

/// The number that a sequence of digits denotes, read as a decimal numeral.
pub open spec fn digit_value(c: char) -> nat {
    if c == '0' {
        0
    } else if c == '1' {
        1
    } else if c == '2' {
        2
    } else if c == '3' {
        3
    } else if c == '4' {
        4
    } else if c == '5' {
        5
    } else if c == '6' {
        6
    } else if c == '7' {
        7
    } else if c == '8' {
        8
    } else {
        9
    }
}

/// The number that `digits` denotes when read as a decimal numeral.
pub open spec fn decimal_value(digits: Seq<char>) -> nat
    decreases digits.len(),
{
    if digits.len() == 0 {
        0
    } else {
        decimal_value(digits.drop_last()) * 10 + digit_value(digits.last())
    }
}

/// Reading a decimal numeral gives back the number it was written for.
pub proof fn lemma_decimal_value(n: nat)
    ensures
        decimal_value(decimal(n)) == n,
    decreases n,
{
    if n < 10 {
        assert(decimal_value(decimal(n).drop_last()) == 0);
    } else {
        lemma_decimal_value(n / 10);
        assert(decimal(n).drop_last() =~= decimal(n / 10));
    }
}

/// Two numbers with the same decimal numeral are the same number.
pub proof fn lemma_decimal_injective(a: nat, b: nat)
    requires
        decimal(a) == decimal(b),
    ensures
        a == b,
{
    lemma_decimal_value(a);
    lemma_decimal_value(b);
}

/// The characters of `s`, in order.
pub fn chars_of(s: &str) -> (chars: Vec<char>)
    ensures
        chars@ == s@,
{
    let mut chars: Vec<char> = Vec::new();
    for c in it: s.chars()
        invariant
            chars@ == it.seq().take(it.index() as int),
            it.seq() == s@,
    {
        chars.push(c);
    }
    chars
}

/// Whether `pattern` stands in `text` at index `at`.
pub fn matches_at(text: &Vec<char>, pattern: &Vec<char>, at: usize) -> (found: bool)
    ensures
        found == occurs_at(text@, pattern@, at as int),
{
    if at > text.len() || pattern.len() > text.len() - at {
        return false;
    }
    let mut k: usize = 0;
    while k < pattern.len()
        invariant
            k <= pattern.len(),
            at + pattern.len() <= text.len(),
            forall|j: int| 0 <= j < k ==> text@[at + j] == pattern@[j],
        decreases pattern.len() - k,
    {
        if text[at + k] != pattern[k] {
            return false;
        }
        k += 1;
    }
    assert(text@.subrange(at as int, at + pattern.len()) =~= pattern@);
    true
}

/// Whether `text` begins with `prefix`.
pub fn begins_with(text: &Vec<char>, prefix: &Vec<char>) -> (found: bool)
    ensures
        found == prefix@.is_prefix_of(text@),
{
    matches_at(text, prefix, 0)
}

/// Whether `text` ends with `suffix`, looking only at its first `len` characters.
pub fn ends_with_before(text: &Vec<char>, suffix: &Vec<char>, len: usize) -> (found: bool)
    requires
        len <= text.len(),
    ensures
        found == suffix@.is_suffix_of(text@.take(len as int)),
{
    if suffix.len() > len {
        return false;
    }
    let at: usize = len - suffix.len();
    let found = matches_at(text, suffix, at);
    proof {
        let head = text@.take(len as int);
        assert(head.subrange(head.len() - suffix@.len(), head.len() as int) =~= text@.subrange(
            at as int,
            at + suffix@.len(),
        ));
    }
    found
}

/// Whether `pattern` stands somewhere in `text`.
pub fn contains_chars(text: &Vec<char>, pattern: &Vec<char>) -> (found: bool)
    ensures
        found == contains(text@, pattern@),
{
    if pattern.len() > text.len() {
        return false;
    }
    let last: usize = text.len() - pattern.len();
    let mut at: usize = 0;
    while at < last
        invariant
            last == text.len() - pattern.len(),
            at <= last,
            forall|j: int| 0 <= j < at ==> !occurs_at(text@, pattern@, j),
        decreases last - at,
    {
        if matches_at(text, pattern, at) {
            return true;
        }
        at += 1;
    }
    matches_at(text, pattern, last)
}

/// The index of the first `c` in `text`, if there is one.
pub fn find_char(text: &Vec<char>, c: char) -> (found: Option<usize>)
    ensures
        (match found {
            Some(at) => first_index_of(text@, c) == Some(at as int),
            None => first_index_of(text@, c) is None,
        }),
{
    let mut at: usize = 0;
    while at < text.len()
        invariant
            at <= text.len(),
            forall|k: int| 0 <= k < at ==> text@[k] != c,
        decreases text.len() - at,
    {
        if text[at] == c {
            assert(is_first_index_of(text@, c, at as int));
            return Some(at);
        }
        at += 1;
    }
    None
}

/// The length that is left of `text` once every copy of `suffix` that ends
/// it is gone.
pub fn trimmed_end(text: &Vec<char>, suffix: &Vec<char>) -> (len: usize)
    ensures
        len <= text.len(),
        text@.take(len as int) == trim_suffix(text@, suffix@),
{
    let mut len: usize = text.len();
    assert(text@.take(len as int) =~= text@);
    if suffix.len() == 0 {
        return len;
    }
    while ends_with_before(text, suffix, len)
        invariant
            len <= text.len(),
            suffix.len() > 0,
            trim_suffix(text@.take(len as int), suffix@) == trim_suffix(text@, suffix@),
        decreases len,
    {
        proof {
            let head = text@.take(len as int);
            assert(head.take(head.len() - suffix@.len()) =~= text@.take(len - suffix@.len()));
        }
        len = len - suffix.len();
    }
    len
}

/// The index at which `text` starts once every copy of `prefix` that begins
/// it is gone.
pub fn trimmed_start(text: &Vec<char>, prefix: &Vec<char>) -> (start: usize)
    ensures
        start <= text.len(),
        text@.skip(start as int) == trim_prefix(text@, prefix@),
{
    let mut start: usize = 0;
    assert(text@.skip(0) =~= text@);
    if prefix.len() == 0 {
        return start;
    }
    while matches_at(text, prefix, start)
        invariant
            start <= text.len(),
            prefix.len() > 0,
            trim_prefix(text@.skip(start as int), prefix@) == trim_prefix(text@, prefix@),
        decreases text.len() - start,
    {
        proof {
            let tail = text@.skip(start as int);
            assert(tail.skip(prefix@.len() as int) =~= text@.skip(start + prefix@.len()));
        }
        start = start + prefix.len();
    }
    proof {
        let tail = text@.skip(start as int);
        if prefix@.len() <= tail.len() {
            assert(tail.subrange(0, prefix@.len() as int) =~= text@.subrange(
                start as int,
                start + prefix@.len(),
            ));
        }
    }
    start
}

/// Whether two texts hold the same characters.
pub fn same_text(a: &str, b: &str) -> (same: bool)
    ensures
        same == (a@ == b@),
{
    let left = chars_of(a);
    let right = chars_of(b);
    if left.len() != right.len() {
        return false;
    }
    let found = matches_at(&left, &right, 0);
    proof {
        assert(left@.subrange(0, right@.len() as int) =~= left@);
    }
    found
}

/// The one-character text of a digit below ten.
fn digit_text(d: u8) -> (text: &'static str)
    requires
        d < 10,
    ensures
        text@ == seq![digit_char(d as nat)],
{
    proof {
        reveal_strlit("0");
        reveal_strlit("1");
        reveal_strlit("2");
        reveal_strlit("3");
        reveal_strlit("4");
        reveal_strlit("5");
        reveal_strlit("6");
        reveal_strlit("7");
        reveal_strlit("8");
        reveal_strlit("9");
    }
    let text = if d == 0 {
        "0"
    } else if d == 1 {
        "1"
    } else if d == 2 {
        "2"
    } else if d == 3 {
        "3"
    } else if d == 4 {
        "4"
    } else if d == 5 {
        "5"
    } else if d == 6 {
        "6"
    } else if d == 7 {
        "7"
    } else if d == 8 {
        "8"
    } else {
        "9"
    };
    text
}

/// Appends the decimal numeral of `n` to `out`.
pub fn push_decimal(out: &mut String, n: u64)
    ensures
        final(out)@ == old(out)@ + decimal(n as nat),
    decreases n,
{
    if n >= 10 {
        push_decimal(out, n / 10);
    }
    out.append(digit_text((n % 10) as u8));
}

/// Appends the decimal numeral of `i` to `out`, with a leading `-` when it
/// is negative.
pub fn push_signed_decimal(out: &mut String, i: i64)
    ensures
        final(out)@ == old(out)@ + signed_decimal(i as int),
{
    if i >= 0 {
        push_decimal(out, i as u64);
    } else {
        proof {
            reveal_strlit("-");
        }
        out.append("-");
        let magnitude: u64 = (-(i + 1)) as u64 + 1;
        push_decimal(out, magnitude);
    }
}

/// The characters of `text` from index `from` up to index `to`.
pub fn slice_text(text: &str, from: usize, to: usize) -> (part: String)
    requires
        from <= to <= text@.len(),
    ensures
        part@ == text@.subrange(from as int, to as int),
{
    String::from_str(text.substring_char(from, to))
}

/// Two texts, one after the other.
pub fn joined(first: &str, second: &str) -> (text: String)
    ensures
        text@ == first@ + second@,
{
    let mut text = String::from_str(first);
    text.append(second);
    text
}

} // verus!
