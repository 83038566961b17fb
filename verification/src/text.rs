//! Conversions between strings and sequences of characters.

use vstd::prelude::*;
use crate::lexicon;
use crate::lexicon::{collapse, collapsing};

verus! {

/// The standard library's `String::push`, which appends the character `ch`
/// to the end of the string `s`: afterwards the string holds the characters
/// it held before, followed by `ch`.
pub assume_specification[ std::string::String::push ](s: &mut std::string::String, ch: char)
    ensures
        final(s)@ == old(s)@.push(ch),
;

/// The characters of `text`, in order.
pub fn chars_of(text: &str) -> (chars: Vec<char>)
    ensures
        chars@ == text@,
{
    let mut chars: Vec<char> = Vec::new();
    let walk = text.chars();
    for c in iter: walk
        invariant
            chars@ == iter.seq().take(iter.index() as int),
    {
        chars.push(c);
    }
    chars
}

/// The string that holds `c` alone.
pub fn single(c: char) -> (text: String)
    ensures
        text@ == seq![c],
{
    let mut text = String::new();
    text.push(c);
    text
}

/// The string made of `chars[from..to]`.
pub fn string_of(chars: &Vec<char>, from: usize, to: usize) -> (text: String)
    requires
        from <= to <= chars.len(),
    ensures
        text@ == chars@.subrange(from as int, to as int),
{
    let mut text = String::new();
    let mut i: usize = from;
    while i < to
        invariant
            from <= i <= to <= chars.len(),
            text@ == chars@.subrange(from as int, i as int),
        decreases to - i,
    {
        text.push(chars[i]);
        i += 1;
    }
    text
}

/// Whether `c` has the Unicode property `White_Space`.
pub fn is_whitespace(c: char) -> (whitespace: bool)
    ensures
        whitespace == lexicon::is_whitespace(c),
{
    let code = c as u32;
    (0x09 <= code && code <= 0x0D) || code == 0x20 || code == 0x85 || code == 0xA0 || code
        == 0x1680 || (0x2000 <= code && code <= 0x200A) || code == 0x2028 || code == 0x2029
        || code == 0x202F || code == 0x205F || code == 0x3000
}

/// Whether `chars[from..to]` spells `word`.
pub fn spells(chars: &Vec<char>, from: usize, to: usize, word: &str) -> (same: bool)
    requires
        from <= to <= chars.len(),
    ensures
        same == (chars@.subrange(from as int, to as int) == word@),
{
    let length = word.unicode_len();
    if to - from != length {
        return false;
    }
    let mut i: usize = 0;
    while i < length
        invariant
            from <= to <= chars.len(),
            to - from == length,
            length == word@.len(),
            0 <= i <= length,
            forall|j: int| 0 <= j < i ==> chars@[from + j] == word@[j],
        decreases length - i,
    {
        if chars[from + i] != word.get_char(i) {
            return false;
        }
        i += 1;
    }
    assert(chars@.subrange(from as int, to as int) =~= word@);
    true
}

/// The value of a string literal whose content is `chars[from..to]`.
pub fn collapsed(chars: &Vec<char>, from: usize, to: usize) -> (text: String)
    requires
        from <= to <= chars.len(),
    ensures
        text@ == collapse(chars@.subrange(from as int, to as int)),
{
    let mut text = String::new();
    let mut gap = false;
    let mut empty = true;
    let mut i: usize = from;
    while i < to
        invariant
            from <= i <= to <= chars.len(),
            (text@, gap) == collapsing(chars@.subrange(from as int, i as int)),
            empty == (text@.len() == 0),
        decreases to - i,
    {
        let c = chars[i];
        proof {
            let read = chars@.subrange(from as int, i + 1);
            assert(read.drop_last() =~= chars@.subrange(from as int, i as int));
        }
        if is_whitespace(c) {
            gap = true;
        } else if c != '\\' {
            if gap && !empty {
                text.push(' ');
            }
            text.push(c);
            gap = false;
            empty = false;
        }
        i += 1;
    }
    text
}

/// The decimal digit for `d`.
pub open spec fn digit(d: nat) -> char
    recommends
        d < 10,
{
    "0123456789"@[d as int]
}

/// The decimal numeral for `n`, without leading zeros.
pub open spec fn decimal(n: nat) -> Seq<char>
    decreases n,
{
    if n < 10 {
        seq![digit(n)]
    } else {
        decimal(n / 10).push(digit(n % 10))
    }
}

/// The decimal numeral for `n`.
pub fn to_decimal(n: usize) -> (text: String)
    ensures
        text@ == decimal(n as nat),
    decreases n,
{
    proof {
        reveal_strlit("0123456789");
    }
    if n < 10 {
        single("0123456789".get_char(n))
    } else {
        let mut text = to_decimal(n / 10);
        text.push("0123456789".get_char(n % 10));
        text
    }
}

} // verus!
