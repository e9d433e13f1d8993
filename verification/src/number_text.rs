//! Reading numbers and dotted addresses from text.

use vstd::prelude::*;

verus! {

/// The value of a decimal digit, or nothing for any other character.
pub open spec fn digit_of(c: char) -> Option<nat> {
    if c == '0' {
        Some(0)
    } else if c == '1' {
        Some(1)
    } else if c == '2' {
        Some(2)
    } else if c == '3' {
        Some(3)
    } else if c == '4' {
        Some(4)
    } else if c == '5' {
        Some(5)
    } else if c == '6' {
        Some(6)
    } else if c == '7' {
        Some(7)
    } else if c == '8' {
        Some(8)
    } else if c == '9' {
        Some(9)
    } else {
        None
    }
}

/// Whether every character is a decimal digit.
pub open spec fn all_digits(text: Seq<char>) -> bool {
    forall|i: int| 0 <= i < text.len() ==> (#[trigger] digit_of(text[i])) is Some
}

/// The number that a run of decimal digits spells.
pub open spec fn digits_value(text: Seq<char>) -> nat
    decreases text.len(),
{
    if text.len() == 0 {
        0
    } else {
        10 * digits_value(text.drop_last()) + match digit_of(text.last()) {
            Some(d) => d,
            None => 0,
        }
    }
}

/// What a text without sign means as a number of at most `max`: it must be
/// one or more decimal digits whose value does not exceed `max`.
pub open spec fn digits_text(text: Seq<char>, max: nat) -> Option<nat> {
    if text.len() > 0 && all_digits(text) && digits_value(text) <= max {
        Some(digits_value(text))
    } else {
        None
    }
}

/// What a text means as an unsigned number of at most `max`: decimal
/// digits, with or without one plus sign before them.
pub open spec fn unsigned_text(text: Seq<char>, max: nat) -> Option<nat> {
    if text.len() > 0 && text[0] == '+' {
        digits_text(text.skip(1), max)
    } else {
        digits_text(text, max)
    }
}

/// What a text means as a signed number of 32 bits: decimal digits, with or
/// without one plus or minus sign before them.
pub open spec fn signed_text(text: Seq<char>) -> Option<int> {
    if text.len() > 0 && text[0] == '-' {
        match digits_text(text.skip(1), 2147483648) {
            Some(magnitude) => Some(-(magnitude as int)),
            None => None,
        }
    } else {
        match unsigned_text(text, 2147483647) {
            Some(value) => Some(value as int),
            None => None,
        }
    }
}

/// The index of the first full stop of a text, or the length of the text if
/// it has none.
pub open spec fn first_dot(text: Seq<char>) -> int
    decreases text.len(),
{
    if text.len() == 0 {
        0
    } else if text[0] == '.' {
        0
    } else {
        1 + first_dot(text.skip(1))
    }
}

/// The part of a text before its first full stop.
pub open spec fn head(text: Seq<char>) -> Seq<char> {
    text.take(first_dot(text))
}

/// The part of a text after its first full stop, if it has one.
pub open spec fn tail(text: Seq<char>) -> Option<Seq<char>> {
    if first_dot(text) < text.len() {
        Some(text.skip(first_dot(text) + 1))
    } else {
        None
    }
}

/// The four bytes that a dotted address names: the first four parts of the
/// text between full stops, each an unsigned number of at most 255. Parts
/// after the fourth are not looked at.
pub open spec fn dotted_quad(text: Seq<char>) -> Option<Seq<u8>> {
    match tail(text) {
        None => None,
        Some(second) => match tail(second) {
            None => None,
            Some(third) => match tail(third) {
                None => None,
                Some(fourth) => match (
                    unsigned_text(head(text), 255),
                    unsigned_text(head(second), 255),
                    unsigned_text(head(third), 255),
                    unsigned_text(head(fourth), 255),
                ) {
                    (Some(a), Some(b), Some(c), Some(d)) => Some(
                        seq![a as u8, b as u8, c as u8, d as u8],
                    ),
                    _ => None,
                },
            },
        },
    }
}

/// One more digit at the end of a run multiplies its value by ten and adds
/// the digit.
pub proof fn lemma_digits_value_step(text: Seq<char>, k: int)
    requires
        0 <= k < text.len(),
    ensures
        digits_value(text.take(k + 1)) == 10 * digits_value(text.take(k)) + match digit_of(
            text[k],
        ) {
            Some(d) => d,
            None => 0,
        },
{
    let run = text.take(k + 1);
    assert(run.drop_last() =~= text.take(k));
    assert(run.last() == text[k]);
}

/// A run of digits is worth at least as much as any of its beginnings.
pub proof fn lemma_digits_value_grows(text: Seq<char>, k: int)
    requires
        0 <= k <= text.len(),
    ensures
        digits_value(text.take(k)) <= digits_value(text),
    decreases text.len(),
{
    if k == text.len() {
        assert(text.take(k) =~= text);
    } else {
        lemma_digits_value_grows(text.drop_last(), k);
        assert(text.drop_last().take(k) =~= text.take(k));
    }
}

/// The first full stop of a text lies inside it or at its end, no character
/// before it is a full stop, and the character at it is one.
pub proof fn lemma_first_dot(text: Seq<char>)
    ensures
        0 <= first_dot(text) <= text.len(),
        forall|i: int| 0 <= i < first_dot(text) ==> text[i] != '.',
        first_dot(text) < text.len() ==> text[first_dot(text)] == '.',
    decreases text.len(),
{
    if text.len() > 0 && text[0] != '.' {
        lemma_first_dot(text.skip(1));
        assert forall|i: int| 0 <= i < first_dot(text) implies text[i] != '.' by {
            if i > 0 {
                assert(text.skip(1)[i - 1] == text[i]);
            }
        }
    }
}

/// A position that no full stop precedes and that holds one, or is the end,
/// is the first full stop.
pub proof fn lemma_first_dot_is(text: Seq<char>, d: int)
    requires
        0 <= d <= text.len(),
        forall|i: int| 0 <= i < d ==> text[i] != '.',
        d < text.len() ==> text[d] == '.',
    ensures
        first_dot(text) == d,
{
    lemma_first_dot(text);
    let f = first_dot(text);
    if f < d {
        assert(text[f] == '.');
    } else if d < f {
        assert(text[d] == '.');
    }
}

/// The characters of a text, one by one.
pub fn chars_of(text: &str) -> (chars: Vec<char>)
    ensures
        chars@ == text@,
{
    let length = text.unicode_len();
    let mut chars: Vec<char> = Vec::new();
    let mut i: usize = 0;
    while i < length
        invariant
            i <= length,
            length == text@.len(),
            chars@ == text@.take(i as int),
        decreases length - i,
    {
        chars.push(text.get_char(i));
        i = i + 1;
        assert(chars@ =~= text@.take(i as int));
    }
    assert(text@.take(length as int) =~= text@);
    chars
}

/// The value of a decimal digit.
pub fn digit_value(c: char) -> (value: Option<u64>)
    ensures
        match value {
            Some(d) => digit_of(c) == Some(d as nat),
            None => digit_of(c) is None,
        },
{
    match c {
        '0' => Some(0),
        '1' => Some(1),
        '2' => Some(2),
        '3' => Some(3),
        '4' => Some(4),
        '5' => Some(5),
        '6' => Some(6),
        '7' => Some(7),
        '8' => Some(8),
        '9' => Some(9),
        _ => None,
    }
}

/// Reads the characters from `from` up to `to` as a number without sign of
/// at most `max`. The limit must leave room for one more digit in 64 bits.
pub fn parse_digits(chars: &[char], from: usize, to: usize, max: u64) -> (value: Option<u64>)
    requires
        from <= to <= chars@.len(),
        max <= (u64::MAX - 9) / 10,
    ensures
        match value {
            Some(n) => digits_text(chars@.subrange(from as int, to as int), max as nat) == Some(
                n as nat,
            ),
            None => digits_text(chars@.subrange(from as int, to as int), max as nat) is None,
        },
{
    let ghost text = chars@.subrange(from as int, to as int);
    if from == to {
        return None;
    }
    let mut total: u64 = 0;
    let mut i: usize = from;
    assert(digits_value(text.take(0)) == 0);
    while i < to
        invariant
            from <= i <= to <= chars@.len(),
            text == chars@.subrange(from as int, to as int),
            max <= (u64::MAX - 9) / 10,
            total <= max,
            total == digits_value(text.take(i - from)),
            all_digits(text.take(i - from)),
        decreases to - i,
    {
        proof {
            lemma_digits_value_step(text, i - from);
            assert(text[i - from] == chars@[i as int]);
        }
        match digit_value(chars[i]) {
            None => {
                assert(!all_digits(text));
                return None;
            },
            Some(d) => {
                total = total * 10 + d;
                proof {
                    assert forall|j: int| 0 <= j < i + 1 - from implies (#[trigger] digit_of(
                        text.take(i + 1 - from)[j],
                    )) is Some by {
                        if j < i - from {
                            assert(text.take(i - from)[j] == text[j]);
                        }
                    }
                }
                if total > max {
                    proof {
                        lemma_digits_value_grows(text, i + 1 - from);
                    }
                    return None;
                }
            },
        }
        i = i + 1;
    }
    assert(text.take(to - from) =~= text);
    Some(total)
}

/// Reads the characters from `from` up to `to` as an unsigned number of at
/// most `max`. The limit must leave room for one more digit in 64 bits.
pub fn parse_unsigned(chars: &[char], from: usize, to: usize, max: u64) -> (value: Option<u64>)
    requires
        from <= to <= chars@.len(),
        max <= (u64::MAX - 9) / 10,
    ensures
        match value {
            Some(n) => unsigned_text(chars@.subrange(from as int, to as int), max as nat) == Some(
                n as nat,
            ),
            None => unsigned_text(chars@.subrange(from as int, to as int), max as nat) is None,
        },
{
    let ghost text = chars@.subrange(from as int, to as int);
    if from < to && chars[from] == '+' {
        assert(text[0] == '+');
        assert(text.skip(1) =~= chars@.subrange(from + 1, to as int));
        parse_digits(chars, from + 1, to, max)
    } else {
        if from < to {
            assert(text[0] == chars@[from as int]);
        }
        parse_digits(chars, from, to, max)
    }
}

/// Reads a whole text as a signed number of 32 bits.
pub fn parse_signed(chars: &[char]) -> (value: Option<i32>)
    ensures
        match value {
            Some(n) => signed_text(chars@) == Some(n as int),
            None => signed_text(chars@) is None,
        },
{
    let length = chars.len();
    assert(chars@.subrange(0, length as int) =~= chars@);
    if length > 0 && chars[0] == '-' {
        assert(chars@.skip(1) =~= chars@.subrange(1, length as int));
        match parse_digits(chars, 1, length, 2147483648) {
            Some(magnitude) => {
                let wide: i64 = 0 - (magnitude as i64);
                Some(wide as i32)
            },
            None => None,
        }
    } else {
        match parse_unsigned(chars, 0, length, 2147483647) {
            Some(n) => Some(n as i32),
            None => None,
        }
    }
}

/// The index of the first full stop at or after `from`, or the length of
/// the text if there is none.
pub fn find_dot(chars: &[char], from: usize) -> (end: usize)
    requires
        from <= chars@.len(),
    ensures
        from <= end <= chars@.len(),
        end - from == first_dot(chars@.skip(from as int)),
{
    let mut end = from;
    while end < chars.len() && chars[end] != '.'
        invariant
            from <= end <= chars@.len(),
            forall|i: int| from <= i < end ==> chars@[i] != '.',
        decreases chars@.len() - end,
    {
        end = end + 1;
    }
    proof {
        lemma_first_dot_is(chars@.skip(from as int), end - from);
    }
    end
}

/// Reads the part of a text that starts at `from` and ends before the next
/// full stop as a number of at most 255, and says where that full stop is.
fn parse_octet(chars: &[char], from: usize) -> (result: (Option<u8>, usize))
    requires
        from <= chars@.len(),
    ensures
        from <= result.1 <= chars@.len(),
        result.1 - from == first_dot(chars@.skip(from as int)),
        match result.0 {
            Some(n) => unsigned_text(head(chars@.skip(from as int)), 255) == Some(n as nat),
            None => unsigned_text(head(chars@.skip(from as int)), 255) is None,
        },
{
    let end = find_dot(chars, from);
    assert(head(chars@.skip(from as int)) =~= chars@.subrange(from as int, end as int));
    match parse_unsigned(chars, from, end, 255) {
        Some(n) => (Some(n as u8), end),
        None => (None, end),
    }
}

/// Reads a dotted address.
pub fn parse_dotted_quad(chars: &[char]) -> (address: Option<[u8; 4]>)
    ensures
        match address {
            Some(bytes) => dotted_quad(chars@) == Some(bytes@),
            None => dotted_quad(chars@) is None,
        },
{
    let length = chars.len();
    assert(chars@.skip(0) =~= chars@);
    let (first, end) = parse_octet(chars, 0);
    if end == length {
        return None;
    }
    let ghost second_text = chars@.skip(end + 1);
    let (second, end) = parse_octet(chars, end + 1);
    if end == length {
        return None;
    }
    assert(second_text.skip(first_dot(second_text) + 1) =~= chars@.skip(end + 1));
    let ghost third_text = chars@.skip(end + 1);
    let (third, end) = parse_octet(chars, end + 1);
    if end == length {
        return None;
    }
    assert(third_text.skip(first_dot(third_text) + 1) =~= chars@.skip(end + 1));
    let (fourth, _) = parse_octet(chars, end + 1);
    match (first, second, third, fourth) {
        (Some(a), Some(b), Some(c), Some(d)) => {
            let bytes = [a, b, c, d];
            assert(bytes@ =~= seq![a, b, c, d]);
            Some(bytes)
        },
        _ => None,
    }
}

} // verus!
