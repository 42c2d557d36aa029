//! Building lines of text: padding, repetition and numbers.
use vstd::prelude::*;
use crate::decimal::digits_of;

verus! {

/// `n` copies of `c`.
pub open spec fn repeated(c: char, n: nat) -> Seq<char> {
    Seq::new(n, |i: int| c)
}

/// `t` followed by spaces up to `width` characters (left aligned, as a
/// string is formatted with a width).
pub open spec fn padded_right(t: Seq<char>, width: int) -> Seq<char> {
    if t.len() < width {
        t + repeated(' ', (width - t.len()) as nat)
    } else {
        t
    }
}

/// Spaces up to `width` characters followed by `t` (right aligned).
pub open spec fn padded_left(t: Seq<char>, width: int) -> Seq<char> {
    if t.len() < width {
        repeated(' ', (width - t.len()) as nat) + t
    } else {
        t
    }
}

/// The digits of `n`, with a leading zero when it has only one (as a number
/// is formatted with `{:02}`).
pub open spec fn zero_padded2(n: nat) -> Seq<char> {
    if digits_of(n).len() < 2 {
        seq!['0'] + digits_of(n)
    } else {
        digits_of(n)
    }
}

/// Appends the characters of `s` to `out`.
pub fn push_str(out: &mut Vec<char>, s: &str)
    ensures
        final(out)@ == old(out)@ + s@,
{
    let ghost start = out@;
    for c in it: s.chars()
        invariant
            out@ == start + it.seq().take(it.index() as int),
    {
        out.push(c);
    }
    assert(out@ =~= start + s@);
}

/// Appends the characters of `s` to `out`.
pub fn push_chars(out: &mut Vec<char>, s: &Vec<char>)
    ensures
        final(out)@ == old(out)@ + s@,
{
    let ghost start = out@;
    for i in 0..s.len()
        invariant
            out@ == start + s@.take(i as int),
    {
        out.push(s[i]);
        assert(s@.take(i + 1) =~= s@.take(i as int).push(s@[i as int]));
    }
    assert(s@.take(s@.len() as int) =~= s@);
}

/// Appends `n` copies of `c` to `out`.
pub fn push_repeated(out: &mut Vec<char>, c: char, n: usize)
    ensures
        final(out)@ == old(out)@ + repeated(c, n as nat),
{
    let ghost start = out@;
    for i in 0..n
        invariant
            out@ == start + repeated(c, i as nat),
    {
        out.push(c);
        assert(repeated(c, (i + 1) as nat) =~= repeated(c, i as nat).push(c));
    }
}

/// The characters of `s`.
pub fn chars_of(s: &str) -> (r: Vec<char>)
    ensures
        r@ == s@,
{
    let mut v: Vec<char> = Vec::new();
    push_str(&mut v, s);
    assert(v@ =~= s@);
    v
}

/// `t` padded with spaces on the right to `width` characters.
pub fn pad_right(t: &Vec<char>, width: usize) -> (r: Vec<char>)
    ensures
        r@ == padded_right(t@, width as int),
{
    let mut r: Vec<char> = Vec::new();
    push_chars(&mut r, t);
    if t.len() < width {
        push_repeated(&mut r, ' ', width - t.len());
    }
    assert(r@ =~= padded_right(t@, width as int));
    r
}

/// `t` padded with spaces on the left to `width` characters.
pub fn pad_left(t: &Vec<char>, width: usize) -> (r: Vec<char>)
    ensures
        r@ == padded_left(t@, width as int),
{
    let mut r: Vec<char> = Vec::new();
    if t.len() < width {
        push_repeated(&mut r, ' ', width - t.len());
    }
    push_chars(&mut r, t);
    assert(r@ =~= padded_left(t@, width as int));
    r
}

/// The digits of `n` as `to_string` writes them.
pub fn digits(n: u64) -> (r: Vec<char>)
    ensures
        r@ == digits_of(n as nat),
{
    crate::decimal::decimal_chars(n as i128)
}

/// The digits of `n` with a leading zero when it has only one.
pub fn zero_pad2(n: usize) -> (r: Vec<char>)
    ensures
        r@ == zero_padded2(n as nat),
{
    let d = digits(n as u64);
    let mut r: Vec<char> = Vec::new();
    if d.len() < 2 {
        r.push('0');
    }
    push_chars(&mut r, &d);
    assert(r@ =~= zero_padded2(n as nat));
    r
}

} // verus!
