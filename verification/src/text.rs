//! Small tools for text: looking through it character by character, and
//! writing numbers into it digit by digit.

use vstd::prelude::*;

verus! {

/// `String::push` of the standard library, taken on trust: afterwards the
/// string is what it was before, with `c` at its end.
pub assume_specification[ String::push ](text: &mut String, c: char)
    ensures
        final(text)@ == old(text)@.push(c),
;

/// The first position at or after `from` where `text` holds `wanted`, or the
/// length of `text` where it holds none.
pub open spec fn find_char(text: Seq<char>, wanted: char, from: int) -> int
    decreases text.len() - from,
{
    if from >= text.len() {
        text.len() as int
    } else if text[from] == wanted {
        from
    } else {
        find_char(text, wanted, from + 1)
    }
}

/// Whether `text` holds `prefix` from position `at` on.
pub open spec fn has_prefix_at(text: Seq<char>, at: int, prefix: Seq<char>) -> bool {
    &&& 0 <= at
    &&& at + prefix.len() <= text.len()
    &&& text.subrange(at, at + prefix.len()) == prefix
}

/// `find_char` stays within the text.
pub proof fn find_char_bounds(text: Seq<char>, wanted: char, from: int)
    requires
        0 <= from <= text.len(),
    ensures
        from <= find_char(text, wanted, from) <= text.len(),
        find_char(text, wanted, from) < text.len() ==> text[find_char(text, wanted, from)]
            == wanted,
        forall|i: int| from <= i < find_char(text, wanted, from) ==> text[i] != wanted,
    decreases text.len() - from,
{
    if from < text.len() && text[from] != wanted {
        find_char_bounds(text, wanted, from + 1);
    }
}

/// The characters of `text`, one by one.
pub fn chars_of(text: &str) -> (chars: Vec<char>)
    ensures
        chars@ == text@,
{
    let mut chars: Vec<char> = Vec::new();
    for c in it: text.chars()
        invariant
            it.seq() == text@,
            chars@ == it.seq().take(it.index()),
    {
        chars.push(c);
        assert(it.seq().take(it.index() + 1) =~= it.seq().take(it.index()).push(c));
    }
    assert(text@.take(text@.len() as int) =~= text@);
    chars
}

/// Finds the first `wanted` in `chars` at or after `from`.
pub fn position_of(chars: &Vec<char>, wanted: char, from: usize) -> (at: usize)
    requires
        from <= chars.len(),
    ensures
        at == find_char(chars@, wanted, from as int),
        from <= at <= chars.len(),
{
    let mut at = from;
    while at < chars.len() && chars[at] != wanted
        invariant
            from <= at <= chars.len(),
            find_char(chars@, wanted, from as int) == find_char(chars@, wanted, at as int),
        decreases chars.len() - at,
    {
        at += 1;
    }
    at
}

/// Whether `chars` holds the characters of `prefix` from position `at` on.
pub fn starts_with_at(chars: &Vec<char>, at: usize, prefix: &Vec<char>) -> (found: bool)
    ensures
        found == has_prefix_at(chars@, at as int, prefix@),
{
    if at > chars.len() || prefix.len() > chars.len() - at {
        return false;
    }
    let mut i: usize = 0;
    while i < prefix.len()
        invariant
            i <= prefix.len(),
            at + prefix.len() <= chars.len(),
            forall|j: int| 0 <= j < i ==> chars@[at + j] == prefix@[j],
        decreases prefix.len() - i,
    {
        if chars[at + i] != prefix[i] {
            assert(chars@.subrange(at as int, at + prefix.len())[i as int] != prefix@[i as int]);
            return false;
        }
        i += 1;
    }
    assert(chars@.subrange(at as int, at + prefix.len()) =~= prefix@);
    true
}

/// The sixteen lower-case hexadecimal digits, in order.
pub open spec fn hex_digits() -> Seq<char> {
    seq!['0', '1', '2', '3', '4', '5', '6', '7', '8', '9', 'a', 'b', 'c', 'd', 'e', 'f']
}

/// The lowest `count` digits of `value` in base `base`, most significant
/// first.
pub open spec fn digits_text(value: nat, count: nat, base: nat) -> Seq<char>
    decreases count,
{
    if count == 0 || base == 0 {
        Seq::empty()
    } else {
        digits_text(value / base, (count - 1) as nat, base).push(
            hex_digits()[(value % base) as int],
        )
    }
}

/// The lowest `count` hexadecimal digits of `value`, most significant first.
pub open spec fn hex_text(value: nat, count: nat) -> Seq<char> {
    digits_text(value, count, 16)
}

/// The lowest `count` decimal digits of `value`, most significant first.
pub open spec fn decimal_text(value: nat, count: nat) -> Seq<char> {
    digits_text(value, count, 10)
}

/// One digit in a base up to 16.
pub fn digit(value: u8) -> (digit: char)
    requires
        value < 16,
    ensures
        digit == hex_digits()[value as int],
{
    match value {
        0 => '0',
        1 => '1',
        2 => '2',
        3 => '3',
        4 => '4',
        5 => '5',
        6 => '6',
        7 => '7',
        8 => '8',
        9 => '9',
        10 => 'a',
        11 => 'b',
        12 => 'c',
        13 => 'd',
        14 => 'e',
        _ => 'f',
    }
}

/// Appends the lowest `count` digits of `value` in base `base` to `out`,
/// most significant first.
pub fn push_digits(out: &mut String, value: u128, count: u8, base: u8)
    requires
        2 <= base <= 16,
    ensures
        final(out)@ == old(out)@ + digits_text(value as nat, count as nat, base as nat),
    decreases count,
{
    if count == 0 {
        assert(out@ =~= old(out)@ + digits_text(value as nat, 0, base as nat));
    } else {
        push_digits(out, value / (base as u128), count - 1, base);
        out.push(digit((value % (base as u128)) as u8));
        assert(out@ =~= old(out)@ + digits_text(value as nat, count as nat, base as nat));
    }
}

} // verus!
