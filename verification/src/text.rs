//! Cutting a text at byte positions.
//!
//! A match is reported by the byte positions of its two ends in the UTF-8 form
//! of the text that was searched. The functions here say what part of a text
//! lies between two such positions, and cut it out.

use vstd::prelude::*;
use vstd::string::*;
use vstd::utf8::*;

verus! {

/// Whether `text` can be cut at byte position `at`: the position lies within
/// the text and between two characters.
pub open spec fn is_cut(text: Seq<char>, at: int) -> bool {
    &&& 0 <= at <= encode_utf8(text).len()
    &&& is_char_boundary(encode_utf8(text), at)
}

/// The part of `text` between the byte positions `from` and `to`.
pub open spec fn text_between(text: Seq<char>, from: int, to: int) -> Seq<char> {
    decode_utf8(encode_utf8(text).subrange(from, to))
}

/// The part of `text` that starts at byte position `from`.
pub open spec fn text_from(text: Seq<char>, from: int) -> Seq<char> {
    text_between(text, from, encode_utf8(text).len() as int)
}

/// A cut inside the first part of a text is a cut of that part.
pub proof fn lemma_cut_of_prefix(text: Seq<char>, from: int, to: int)
    requires
        is_cut(text, from),
        is_cut(text, to),
        from <= to,
    ensures
        valid_utf8(encode_utf8(text).subrange(0, to)),
        is_char_boundary(encode_utf8(text).subrange(0, to), from),
{
    let bytes = encode_utf8(text);
    let head = bytes.subrange(0, to);
    encode_utf8_valid_utf8(text);
    valid_utf8_split(bytes, to);
    if from == to {
        is_char_boundary_start_end_of_seq(head);
    } else {
        is_char_boundary_iff_not_is_continuation_byte(bytes, from);
        is_char_boundary_iff_not_is_continuation_byte(head, from);
    }
}

/// Tells whether `text` can be cut at byte position `at`.
pub fn can_cut(text: &str, at: usize) -> (b: bool)
    ensures
        b == is_cut(text@, at as int),
{
    let bytes = text.as_bytes();
    proof {
        vstd::slice::axiom_spec_len(bytes);
    }
    at <= bytes.len() && text.is_char_boundary(at)
}

/// The part of `text` that starts at byte position `from`.
pub fn tail_from<'a>(text: &'a str, from: usize) -> (rest: &'a str)
    requires
        is_cut(text@, from as int),
    ensures
        rest@ == text_from(text@, from as int),
{
    let parts = text.split_at(from);
    proof {
        encode_utf8_decode_utf8(parts.1@);
    }
    parts.1
}

/// The part of `text` between the byte positions `from` and `to`.
pub fn slice_between<'a>(text: &'a str, from: usize, to: usize) -> (part: &'a str)
    requires
        is_cut(text@, from as int),
        is_cut(text@, to as int),
        from <= to,
    ensures
        part@ == text_between(text@, from as int, to as int),
{
    let head = text.split_at(to).0;
    proof {
        lemma_cut_of_prefix(text@, from as int, to as int);
    }
    let parts = head.split_at(from);
    proof {
        encode_utf8_decode_utf8(parts.1@);
        assert(encode_utf8(text@).subrange(0, to as int).subrange(from as int, to as int)
            =~= encode_utf8(text@).subrange(from as int, to as int));
    }
    parts.1
}

/// The character of a decimal digit.
pub open spec fn digit_char(d: nat) -> char {
    if d == 0 {
        '0'
    } else if d == 1 {
        '1'
    } else if d == 2 {
        '2'
    } else if d == 3 {
        '3'
    } else if d == 4 {
        '4'
    } else if d == 5 {
        '5'
    } else if d == 6 {
        '6'
    } else if d == 7 {
        '7'
    } else if d == 8 {
        '8'
    } else {
        '9'
    }
}

/// A number written in decimal digits, without leading zeros.
pub open spec fn decimal(n: nat) -> Seq<char>
    decreases n,
{
    if n < 10 {
        seq![digit_char(n)]
    } else {
        decimal(n / 10).push(digit_char(n % 10))
    }
}

fn digit_text(d: usize) -> (text: &'static str)
    requires
        d < 10,
    ensures
        text@ == seq![digit_char(d as nat)],
{
    proof {
        reveal_strlit("0");
        reveal_strlit("1");
        reveal_strlit("2");
        reveal_strlit("3");
        reveal_strlit("4");
        reveal_strlit("5");
        reveal_strlit("6");
        reveal_strlit("7");
        reveal_strlit("8");
        reveal_strlit("9");
    }
    let text = if d == 0 {
        "0"
    } else if d == 1 {
        "1"
    } else if d == 2 {
        "2"
    } else if d == 3 {
        "3"
    } else if d == 4 {
        "4"
    } else if d == 5 {
        "5"
    } else if d == 6 {
        "6"
    } else if d == 7 {
        "7"
    } else if d == 8 {
        "8"
    } else {
        "9"
    };
    assert(text@ =~= seq![digit_char(d as nat)]);
    text
}

/// Writes a number in decimal digits.
pub fn decimal_text(n: usize) -> (text: String)
    ensures
        text@ == decimal(n as nat),
    decreases n,
{
    if n < 10 {
        String::from_str(digit_text(n))
    } else {
        let mut text = decimal_text(n / 10);
        text.append(digit_text(n % 10));
        assert(text@ =~= decimal(n as nat));
        text
    }
}

} // verus!
