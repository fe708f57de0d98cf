//! Texts as sequences of characters: cutting them at separators, trimming
//! them, and exchanging one character for another.

use vstd::prelude::*;
use vstd::string::*;

verus! {

/// The characters of `s`, in order.
pub fn chars_of(s: &str) -> (r: Vec<char>)
    ensures
        r@ == s@,
{
    let mut out: Vec<char> = Vec::new();
    for c in it: s.chars()
        invariant
            out.len() == it.index(),
            it.seq() == s@,
            forall|j: int| 0 <= j < out.len() ==> out@[j] == it.seq()[j],
    {
        out.push(c);
    }
    assert(out@ =~= s@);
    out
}

/// Calls `String::from_iter` on the characters of `chars`: the string that
/// is made of them, in order.
#[verifier::external_body]
pub(crate) fn string_of(chars: &Vec<char>) -> (r: String)
    ensures
        r@ == chars@,
{
    String::from_iter(chars.iter())
}

/// The pieces of `s` between the occurrences of `sep`: one more than there
/// are separators, empty pieces included.
pub open spec fn split_on(s: Seq<char>, sep: char) -> Seq<Seq<char>>
    decreases s.len(),
{
    if s.len() == 0 {
        seq![Seq::<char>::empty()]
    } else {
        let before = split_on(s.drop_last(), sep);
        if s.last() == sep {
            before.push(Seq::<char>::empty())
        } else {
            before.drop_last().push(before.last().push(s.last()))
        }
    }
}

/// A text always splits into at least one piece.
pub proof fn split_on_is_not_empty(s: Seq<char>, sep: char)
    ensures
        split_on(s, sep).len() >= 1,
    decreases s.len(),
{
    if s.len() > 0 {
        split_on_is_not_empty(s.drop_last(), sep);
    }
}

/// Cuts `s` at every `sep`.
pub fn split_chars(s: &Vec<char>, sep: char) -> (r: Vec<Vec<char>>)
    ensures
        r.deep_view() == split_on(s@, sep),
        r.len() >= 1,
{
    let mut done: Vec<Vec<char>> = Vec::new();
    let mut current: Vec<char> = Vec::new();
    let mut i: usize = 0;
    assert(s@.take(0).len() == 0);
    assert(done.deep_view().push(current@) =~= split_on(s@.take(0), sep));
    while i < s.len()
        invariant
            i <= s.len(),
            done.deep_view().push(current@) == split_on(s@.take(i as int), sep),
        decreases s.len() - i,
    {
        let ghost before = split_on(s@.take(i as int), sep);
        let ghost pieces = done.deep_view();
        let ghost piece = current@;
        proof {
            assert(s@.take(i as int + 1).drop_last() =~= s@.take(i as int));
            assert(s@.take(i as int + 1).last() == s[i as int]);
            assert(before.drop_last() =~= pieces);
            assert(before.last() == piece);
        }
        if s[i] == sep {
            done.push(current);
            current = Vec::new();
            assert(done.deep_view() =~~= before);
            assert(done.deep_view().push(current@) =~= before.push(Seq::<char>::empty()));
        } else {
            current.push(s[i]);
            assert(current@ == piece.push(s[i as int]));
        }
        i += 1;
    }
    assert(s@.take(i as int) =~= s@);
    let ghost pieces = done.deep_view();
    done.push(current);
    assert(done.deep_view() =~~= pieces.push(current@));
    done
}

/// Whether `c` is white space, as Unicode's `White_Space` property has it.
pub open spec fn is_space(c: char) -> bool {
    let n = c as u32;
    ||| 0x09 <= n <= 0x0d
    ||| n == 0x20
    ||| n == 0x85
    ||| n == 0xa0
    ||| n == 0x1680
    ||| 0x2000 <= n <= 0x200a
    ||| n == 0x2028
    ||| n == 0x2029
    ||| n == 0x202f
    ||| n == 0x205f
    ||| n == 0x3000
}

/// Whether `c` is white space.
pub fn is_whitespace(c: char) -> (r: bool)
    ensures
        r == is_space(c),
{
    let n: u32 = c as u32;
    (0x09 <= n && n <= 0x0d) || n == 0x20 || n == 0x85 || n == 0xa0 || n == 0x1680 || (0x2000 <= n && n
        <= 0x200a) || n == 0x2028 || n == 0x2029 || n == 0x202f || n == 0x205f || n == 0x3000
}

/// The first index from `from` on at which `s` has no white space; the
/// length of `s` where there is none.
pub open spec fn text_start(s: Seq<char>, from: int) -> int
    decreases s.len() - from,
{
    if 0 <= from < s.len() && is_space(s[from]) {
        text_start(s, from + 1)
    } else {
        from
    }
}

/// The end of the text that begins at `low`, looking back from `to`: the
/// least index down to `low` behind which `s` has only white space.
pub open spec fn text_end(s: Seq<char>, low: int, to: int) -> int
    decreases to - low,
{
    if low < to <= s.len() && is_space(s[to - 1]) {
        text_end(s, low, to - 1)
    } else {
        to
    }
}

/// `s` without the white space at its two ends.
pub open spec fn trimmed(s: Seq<char>) -> Seq<char> {
    let low = text_start(s, 0);
    s.subrange(low, text_end(s, low, s.len() as int))
}

/// The start of the text lies within `s`, at or behind `from`.
pub proof fn text_start_in_bounds(s: Seq<char>, from: int)
    requires
        0 <= from <= s.len(),
    ensures
        from <= text_start(s, from) <= s.len(),
    decreases s.len() - from,
{
    if from < s.len() && is_space(s[from]) {
        text_start_in_bounds(s, from + 1);
    }
}

/// The end of the text lies between `low` and `to`.
pub proof fn text_end_in_bounds(s: Seq<char>, low: int, to: int)
    requires
        0 <= low <= to <= s.len(),
    ensures
        low <= text_end(s, low, to) <= to,
    decreases to - low,
{
    if low < to && is_space(s[to - 1]) {
        text_end_in_bounds(s, low, to - 1);
    }
}

/// Takes the white space off the two ends of `s`.
pub fn trim_chars(s: &Vec<char>) -> (r: Vec<char>)
    ensures
        r@ == trimmed(s@),
{
    let mut low: usize = 0;
    while low < s.len() && is_whitespace(s[low])
        invariant
            low <= s.len(),
            text_start(s@, low as int) == text_start(s@, 0),
        decreases s.len() - low,
    {
        low += 1;
    }
    let mut high: usize = s.len();
    while low < high && is_whitespace(s[high - 1])
        invariant
            low <= high <= s.len(),
            text_end(s@, low as int, high as int) == text_end(s@, low as int, s@.len() as int),
        decreases high - low,
    {
        high -= 1;
    }
    let mut kept: Vec<char> = Vec::new();
    let mut i: usize = low;
    while i < high
        invariant
            low <= i <= high <= s.len(),
            kept@ == s@.subrange(low as int, i as int),
        decreases high - i,
    {
        kept.push(s[i]);
        assert(kept@ =~= s@.subrange(low as int, i as int + 1));
        i += 1;
    }
    kept
}

/// `s` with every `from` exchanged for `to`.
pub open spec fn exchanged(s: Seq<char>, from: char, to: char) -> Seq<char> {
    Seq::new(s.len(), |i: int| if s[i] == from { to } else { s[i] })
}

/// Exchanges every `from` in `s` for `to`.
pub fn exchange(s: &Vec<char>, from: char, to: char) -> (r: Vec<char>)
    ensures
        r@ == exchanged(s@, from, to),
{
    let mut out: Vec<char> = Vec::new();
    let mut i: usize = 0;
    while i < s.len()
        invariant
            i <= s.len(),
            out@ == exchanged(s@.take(i as int), from, to),
        decreases s.len() - i,
    {
        out.push(if s[i] == from { to } else { s[i] });
        assert(out@ =~= exchanged(s@.take(i as int + 1), from, to));
        i += 1;
    }
    assert(s@.take(i as int) =~= s@);
    out
}

/// The decimal digit for a number below ten.
pub open spec fn digit_of(n: nat) -> char {
    if n == 0 {
        '0'
    } else if n == 1 {
        '1'
    } else if n == 2 {
        '2'
    } else if n == 3 {
        '3'
    } else if n == 4 {
        '4'
    } else if n == 5 {
        '5'
    } else if n == 6 {
        '6'
    } else if n == 7 {
        '7'
    } else if n == 8 {
        '8'
    } else {
        '9'
    }
}

/// A number in decimal digits, without leading zeros.
pub open spec fn decimal_of(n: nat) -> Seq<char>
    decreases n,
{
    if n < 10 {
        seq![digit_of(n)]
    } else {
        decimal_of(n / 10).push(digit_of(n % 10))
    }
}

/// The decimal digit for a number below ten.
fn digit(n: u128) -> (r: char)
    requires
        n < 10,
    ensures
        r == digit_of(n as nat),
{
    if n == 0 {
        '0'
    } else if n == 1 {
        '1'
    } else if n == 2 {
        '2'
    } else if n == 3 {
        '3'
    } else if n == 4 {
        '4'
    } else if n == 5 {
        '5'
    } else if n == 6 {
        '6'
    } else if n == 7 {
        '7'
    } else if n == 8 {
        '8'
    } else {
        '9'
    }
}

/// The decimal digits of a number.
fn decimal_chars(n: u128) -> (r: Vec<char>)
    ensures
        r@ == decimal_of(n as nat),
    decreases n,
{
    if n < 10 {
        let mut digits: Vec<char> = Vec::new();
        digits.push(digit(n));
        assert(digits@ =~= seq![digit_of(n as nat)]);
        digits
    } else {
        let mut digits = decimal_chars(n / 10);
        digits.push(digit(n % 10));
        digits
    }
}

/// Writes a number in decimal digits.
pub fn decimal(n: u128) -> (r: String)
    ensures
        r@ == decimal_of(n as nat),
{
    string_of(&decimal_chars(n))
}

/// The characters of `s` from index `from` up to, not including, `to`.
pub fn slice_chars(s: &Vec<char>, from: usize, to: usize) -> (r: Vec<char>)
    requires
        from <= to <= s.len(),
    ensures
        r@ == s@.subrange(from as int, to as int),
{
    let mut kept: Vec<char> = Vec::new();
    let mut i: usize = from;
    while i < to
        invariant
            from <= i <= to <= s.len(),
            kept@ == s@.subrange(from as int, i as int),
        decreases to - i,
    {
        kept.push(s[i]);
        assert(kept@ =~= s@.subrange(from as int, i as int + 1));
        i += 1;
    }
    kept
}

} // verus!
