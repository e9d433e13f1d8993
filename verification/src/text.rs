//! Building blocks of the diagnostic text: numbers in decimal and in
//! hexadecimal notation, and what it means that a text shows some lines.

use vstd::prelude::*;

verus! {

/// The version of the layout of the diagnostic text.
///
/// Version 1 is the layout of the packet-dump format that the texts follow
/// line by line. Version 2, this one, differs from it in one point: the line
/// on a header's options (`No options` or `Options: ` and a count) begins
/// with the tag of its layer, `IP: ` or `TCP: `, so that every line of a
/// layer's text carries the layer's tag. Version 1 printed that line without
/// a tag.
pub const OUTPUT_FORMAT_VERSION: u32 = 2;

/// `String::push`: appends one character to the end of the string.
pub assume_specification[ String::push ](text: &mut String, c: char)
    ensures
        final(text)@ == old(text)@.push(c),
;

/// The character for one digit; the digits above nine are the lower-case
/// letters `a` to `f`.
pub open spec fn digit_char(d: int) -> char {
    if d == 0 {
        '0'
    } else if d == 1 {
        '1'
    } else if d == 2 {
        '2'
    } else if d == 3 {
        '3'
    } else if d == 4 {
        '4'
    } else if d == 5 {
        '5'
    } else if d == 6 {
        '6'
    } else if d == 7 {
        '7'
    } else if d == 8 {
        '8'
    } else if d == 9 {
        '9'
    } else if d == 10 {
        'a'
    } else if d == 11 {
        'b'
    } else if d == 12 {
        'c'
    } else if d == 13 {
        'd'
    } else if d == 14 {
        'e'
    } else {
        'f'
    }
}

/// A number in decimal notation, without sign, padding or leading zeros.
pub open spec fn decimal(n: nat) -> Seq<char>
    decreases n,
{
    if n < 10 {
        seq![digit_char(n as int)]
    } else {
        decimal(n / 10).push(digit_char((n % 10) as int))
    }
}

/// A number in lower-case hexadecimal notation, without prefix, padding or
/// leading zeros.
pub open spec fn hexadecimal(n: nat) -> Seq<char>
    decreases n,
{
    if n < 16 {
        seq![digit_char(n as int)]
    } else {
        hexadecimal(n / 16).push(digit_char((n % 16) as int))
    }
}

/// Whether a text holds the given lines, one run of characters among the
/// others.
pub open spec fn shows(text: Seq<char>, lines: Seq<char>) -> bool {
    exists|before: Seq<char>, after: Seq<char>| text == #[trigger] (before + lines + after)
}

/// A text that shows some lines still shows them between any two other
/// texts.
pub proof fn lemma_shows_within(first: Seq<char>, text: Seq<char>, last: Seq<char>, lines: Seq<char>)
    requires
        shows(text, lines),
    ensures
        shows(first + text + last, lines),
{
    let (before, after) = choose|before: Seq<char>, after: Seq<char>|
        text == #[trigger] (before + lines + after);
    assert(first + text + last =~= (first + before) + lines + (after + last));
}

/// The character for the digit `d`.
pub fn digit(d: u8) -> (c: char)
    requires
        d < 16,
    ensures
        c == digit_char(d as int),
{
    match d {
        0 => '0',
        1 => '1',
        2 => '2',
        3 => '3',
        4 => '4',
        5 => '5',
        6 => '6',
        7 => '7',
        8 => '8',
        9 => '9',
        10 => 'a',
        11 => 'b',
        12 => 'c',
        13 => 'd',
        14 => 'e',
        _ => 'f',
    }
}

/// Appends `n` in decimal notation.
pub fn push_decimal(text: &mut String, n: u64)
    ensures
        final(text)@ == old(text)@ + decimal(n as nat),
    decreases n,
{
    if n >= 10 {
        push_decimal(text, n / 10);
    }
    text.push(digit((n % 10) as u8));
    assert(text@ =~= old(text)@ + decimal(n as nat));
}

/// Appends `n` in lower-case hexadecimal notation.
pub fn push_hexadecimal(text: &mut String, n: u64)
    ensures
        final(text)@ == old(text)@ + hexadecimal(n as nat),
    decreases n,
{
    if n >= 16 {
        push_hexadecimal(text, n / 16);
    }
    text.push(digit((n % 16) as u8));
    assert(text@ =~= old(text)@ + hexadecimal(n as nat));
}

} // verus!
