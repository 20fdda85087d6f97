use vstd::prelude::*;

verus! {

/// Whether a character is one of the ten decimal digits.
pub open spec fn is_digit(c: char) -> bool {
    48 <= c as int <= 57
}

/// The value of a decimal digit.
pub open spec fn digit_value(c: char) -> int {
    c as int - 48
}

/// Whether a string consists of decimal digits only.
pub open spec fn all_digits(s: Seq<char>) -> bool {
    forall|i: int| 0 <= i < s.len() ==> is_digit(#[trigger] s[i])
}

/// The number that a string of decimal digits writes, its first digit counting most.
pub open spec fn decimal_value(s: Seq<char>) -> int
    decreases s.len(),
{
    if s.len() == 0 {
        0
    } else {
        decimal_value(s.drop_last()) * 10 + digit_value(s.last())
    }
}

/// The number that a parameter writes: the string must be one or more decimal
/// digits and its value at most `max`. Anything else is no number.
pub open spec fn parse_number(s: Seq<char>, max: int) -> Option<int> {
    if s.len() > 0 && all_digits(s) && decimal_value(s) <= max {
        Some(decimal_value(s))
    } else {
        None
    }
}

/// The number that a parameter writes, or `default` where it writes none.
pub open spec fn number_or(s: Seq<char>, max: int, default: int) -> int {
    match parse_number(s, max) {
        Some(n) => n,
        None => default,
    }
}

/// The index of the first `;` at or after `from`, or the length of the string if
/// there is none.
pub open spec fn piece_end(s: Seq<char>, from: int) -> int
    decreases s.len() - from,
{
    if from < 0 || from >= s.len() {
        s.len() as int
    } else if s[from] == ';' {
        from
    } else {
        piece_end(s, from + 1)
    }
}

/// The pieces into which the `;`s cut the string from `from` on. There is always
/// at least one piece, and a piece may be empty.
pub open spec fn pieces_from(s: Seq<char>, from: int) -> Seq<Seq<char>>
    decreases s.len() - from,
{
    let end = piece_end(s, from);
    if from <= end < s.len() {
        seq![s.subrange(from, end)] + pieces_from(s, end + 1)
    } else {
        seq![s.subrange(from, s.len() as int)]
    }
}

/// The pieces into which the `;`s cut a parameter string.
pub open spec fn split_params(s: Seq<char>) -> Seq<Seq<char>> {
    pieces_from(s, 0)
}

/// The end of a piece lies between its start and the end of the string, and no
/// `;` stands inside the piece.
pub proof fn lemma_piece_end(s: Seq<char>, from: int)
    requires
        0 <= from <= s.len(),
    ensures
        from <= piece_end(s, from) <= s.len(),
        piece_end(s, from) < s.len() ==> s[piece_end(s, from)] == ';',
        forall|i: int| from <= i < piece_end(s, from) ==> s[i] != ';',
    decreases s.len() - from,
{
    if from < s.len() && s[from] != ';' {
        lemma_piece_end(s, from + 1);
    }
}

/// A string of digits is worth at least as much as any of its prefixes.
pub proof fn lemma_decimal_value_prefix(s: Seq<char>, k: int)
    requires
        all_digits(s),
        0 <= k <= s.len(),
    ensures
        0 <= decimal_value(s.take(k)) <= decimal_value(s),
    decreases s.len() - k,
{
    if k == s.len() {
        assert(s.take(k) == s);
        lemma_decimal_value_nonnegative(s);
    } else {
        lemma_decimal_value_prefix(s, k + 1);
        lemma_decimal_value_step(s, k);
        lemma_decimal_value_nonnegative(s.take(k));
    }
}

/// The value of a string of digits is not negative.
pub proof fn lemma_decimal_value_nonnegative(s: Seq<char>)
    requires
        all_digits(s),
    ensures
        0 <= decimal_value(s),
    decreases s.len(),
{
    if s.len() > 0 {
        lemma_decimal_value_nonnegative(s.drop_last());
    }
}

/// One more digit multiplies the value so far by ten and adds the digit.
pub proof fn lemma_decimal_value_step(s: Seq<char>, k: int)
    requires
        0 <= k < s.len(),
    ensures
        decimal_value(s.take(k + 1)) == decimal_value(s.take(k)) * 10 + digit_value(s[k]),
{
    assert(s.take(k + 1).drop_last() == s.take(k));
}

/// The number of a character: its Unicode scalar value.
pub fn scalar_value(c: char) -> (n: u32)
    ensures
        n == c as int,
        n <= 0x10FFFF,
        !(0xD800 <= n <= 0xDFFF),
{
    c as u32
}

/// Finds where the piece that starts at `from` ends.
pub fn find_piece_end(chars: &Vec<char>, from: usize) -> (end: usize)
    requires
        from <= chars.len(),
    ensures
        end == piece_end(chars@, from as int),
        from <= end <= chars.len(),
{
    let mut end: usize = from;
    while end < chars.len() && chars[end] != ';'
        invariant
            from <= end <= chars.len(),
            piece_end(chars@, from as int) == piece_end(chars@, end as int),
        decreases chars.len() - end,
    {
        end += 1;
    }
    end
}

/// Reads the characters from `from` up to `to` as a decimal number that is at most
/// `max`.
pub fn parse_digits(chars: &Vec<char>, from: usize, to: usize, max: usize) -> (r: Option<usize>)
    requires
        from <= to <= chars.len(),
    ensures
        match parse_number(chars@.subrange(from as int, to as int), max as int) {
            Some(n) => r == Some(n as usize) && 0 <= n <= max,
            None => r is None,
        },
{
    let ghost s = chars@.subrange(from as int, to as int);
    if from == to {
        return None;
    }
    let mut value: usize = 0;
    let mut i: usize = from;
    while i < to
        invariant
            from <= i <= to <= chars.len(),
            s == chars@.subrange(from as int, to as int),
            all_digits(s.take(i - from)),
            value == decimal_value(s.take(i - from)),
            value <= max,
        decreases to - i,
    {
        let c: u32 = scalar_value(chars[i]);
        if c < 48 || c > 57 {
            assert(!is_digit(s[i - from]));
            return None;
        }
        assert(is_digit(s[i - from]));
        let digit: usize = (c - 48) as usize;
        proof {
            lemma_decimal_value_step(s, i - from);
            assert(all_digits(s.take(i - from + 1))) by {
                assert forall|j: int| 0 <= j < i - from + 1 implies is_digit(
                    #[trigger] s.take(i - from + 1)[j],
                ) by {
                    if j < i - from {
                        assert(s.take(i - from + 1)[j] == s.take(i - from)[j]);
                    }
                }
            }
        }
        if digit > max || value > (max - digit) / 10 {
            proof {
                if all_digits(s) {
                    lemma_decimal_value_prefix(s, i - from + 1);
                }
            }
            return None;
        }
        value = value * 10 + digit;
        i += 1;
    }
    proof {
        assert(s.take(to - from) == s);
        lemma_decimal_value_nonnegative(s);
    }
    Some(value)
}

} // verus!
