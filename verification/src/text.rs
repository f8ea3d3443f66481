//! Small helpers for moving between strings, characters and numbers.

use vstd::prelude::*;
use vstd::string::{StrSliceExecFns, StringExecFns};

verus! {

broadcast use vstd::string::group_string_axioms;

/// The characters of `s`, in order.
pub fn chars_of(s: &str) -> (v: Vec<char>)
    ensures
        v@ == s@,
{
    let mut v: Vec<char> = Vec::new();
    for c in it: s.chars()
        invariant
            it.seq() == s@,
            v@ == it.seq().take(it.index() as int),
    {
        v.push(c);
    }
    v
}

/// The character for a decimal digit.
pub open spec fn digit_char(d: nat) -> char
    recommends
        d < 10,
{
    if d == 0 {
        '0'
    } else if d == 1 {
        '1'
    } else if d == 2 {
        '2'
    } else if d == 3 {
        '3'
    } else if d == 4 {
        '4'
    } else if d == 5 {
        '5'
    } else if d == 6 {
        '6'
    } else if d == 7 {
        '7'
    } else if d == 8 {
        '8'
    } else {
        '9'
    }
}

/// The decimal numeral of `n`, without leading zeros.
pub open spec fn decimal_digits(n: nat) -> Seq<char>
    decreases n,
{
    if n < 10 {
        seq![digit_char(n)]
    } else {
        decimal_digits(n / 10).push(digit_char(n % 10))
    }
}

/// A decimal digit as a one-character string.
pub fn digit_str(d: u8) -> (s: &'static str)
    requires
        d < 10,
    ensures
        s@ == seq![digit_char(d as nat)],
{
    proof {
        reveal_strlit("0");
        reveal_strlit("1");
        reveal_strlit("2");
        reveal_strlit("3");
        reveal_strlit("4");
        reveal_strlit("5");
        reveal_strlit("6");
        reveal_strlit("7");
        reveal_strlit("8");
        reveal_strlit("9");
    }
    let s = if d == 0 {
        "0"
    } else if d == 1 {
        "1"
    } else if d == 2 {
        "2"
    } else if d == 3 {
        "3"
    } else if d == 4 {
        "4"
    } else if d == 5 {
        "5"
    } else if d == 6 {
        "6"
    } else if d == 7 {
        "7"
    } else if d == 8 {
        "8"
    } else {
        "9"
    };
    s
}

/// The decimal numeral of `n`, without leading zeros.
pub fn decimal_string(n: u64) -> (s: String)
    ensures
        s@ == decimal_digits(n as nat),
    decreases n,
{
    if n < 10 {
        String::from_str(digit_str(n as u8))
    } else {
        let mut s = decimal_string(n / 10);
        s.append(digit_str((n % 10) as u8));
        s
    }
}

/// Whether `chars` spells `text`.
pub fn spells(chars: &Vec<char>, text: &str) -> (same: bool)
    ensures
        same == (chars@ == text@),
{
    let wanted = chars_of(text);
    if wanted.len() != chars.len() {
        return false;
    }
    let mut i: usize = 0;
    while i < chars.len()
        invariant
            i <= chars.len(),
            wanted@ == text@,
            wanted@.len() == chars@.len(),
            forall|j: int| 0 <= j < i ==> chars@[j] == wanted@[j],
        decreases chars.len() - i,
    {
        if chars[i] != wanted[i] {
            return false;
        }
        i += 1;
    }
    assert(chars@ =~= wanted@);
    true
}

/// The pieces of `text` between the occurrences of `sep`. A text without
/// `sep` is one piece; the empty text is one empty piece.
pub open spec fn split_on(text: Seq<char>, sep: char) -> Seq<Seq<char>>
    decreases text.len(),
{
    if text.len() == 0 {
        seq![Seq::empty()]
    } else {
        let before = split_on(text.drop_last(), sep);
        if text.last() == sep {
            before.push(Seq::empty())
        } else {
            before.update(before.len() - 1, before.last().push(text.last()))
        }
    }
}

/// There is always at least one piece.
pub proof fn lemma_split_on_nonempty(text: Seq<char>, sep: char)
    ensures
        split_on(text, sep).len() >= 1,
    decreases text.len(),
{
    if text.len() > 0 {
        lemma_split_on_nonempty(text.drop_last(), sep);
    }
}

/// Cuts `text` at every `sep`.
pub fn split<'a>(text: &'a str, sep: char) -> (pieces: Vec<&'a str>)
    ensures
        pieces@.len() == split_on(text@, sep).len(),
        forall|i: int| 0 <= i < pieces@.len() ==> (#[trigger] pieces@[i])@ == split_on(text@, sep)[i],
{
    let chars = chars_of(text);
    let mut pieces: Vec<&'a str> = Vec::new();
    let mut start: usize = 0;
    let mut i: usize = 0;
    while i < chars.len()
        invariant
            chars@ == text@,
            start <= i <= chars.len(),
            split_on(chars@.take(i as int), sep).len() == pieces@.len() + 1,
            forall|j: int|
                0 <= j < pieces@.len() ==> (#[trigger] pieces@[j])@ == split_on(
                    chars@.take(i as int),
                    sep,
                )[j],
            split_on(chars@.take(i as int), sep).last() == chars@.subrange(start as int, i as int),
        decreases chars.len() - i,
    {
        assert(chars@.take(i + 1).drop_last() =~= chars@.take(i as int));
        if chars[i] == sep {
            let piece = text.substring_char(start, i);
            pieces.push(piece);
            start = i + 1;
        }
        i += 1;
    }
    assert(chars@.take(i as int) =~= chars@);
    let piece = text.substring_char(start, chars.len());
    pieces.push(piece);
    pieces
}

} // verus!
