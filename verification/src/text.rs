//! Text helpers: the characters of a string slice, trimming, matching a
//! word without regard to case, and writing numbers.

use vstd::prelude::*;
use vstd::string::{StrSliceExecFns, StringExecFns};

verus! {

/// The characters of `text`, in order.
pub fn chars_of(text: &str) -> (chars: Vec<char>)
    ensures
        chars@ == text@,
{
    let mut chars: Vec<char> = Vec::new();
    for c in it: text.chars()
        invariant
            it.seq() == text@,
            chars@ == text@.take(it.index() as int),
    {
        chars.push(c);
    }
    chars
}

/// Whether `c` is white space: a code point with the Unicode property
/// `White_Space`.
pub open spec fn is_whitespace(c: char) -> bool {
    let n = c as u32;
    ||| 0x0009 <= n <= 0x000D
    ||| n == 0x0020
    ||| n == 0x0085
    ||| n == 0x00A0
    ||| n == 0x1680
    ||| 0x2000 <= n <= 0x200A
    ||| n == 0x2028
    ||| n == 0x2029
    ||| n == 0x202F
    ||| n == 0x205F
    ||| n == 0x3000
}

/// Whether `c` is white space.
pub fn char_is_whitespace(c: char) -> (white: bool)
    ensures
        white == is_whitespace(c),
{
    let n: u32 = c as u32;
    (0x0009 <= n && n <= 0x000D) || n == 0x0020 || n == 0x0085 || n == 0x00A0 || n == 0x1680 || (
    0x2000 <= n && n <= 0x200A) || n == 0x2028 || n == 0x2029 || n == 0x202F || n == 0x205F || n
        == 0x3000
}

/// `s` without its leading white space.
pub open spec fn trim_start(s: Seq<char>) -> Seq<char>
    decreases s.len(),
{
    if s.len() > 0 && is_whitespace(s.first()) {
        trim_start(s.drop_first())
    } else {
        s
    }
}

/// `s` without its trailing white space.
pub open spec fn trim_end(s: Seq<char>) -> Seq<char>
    decreases s.len(),
{
    if s.len() > 0 && is_whitespace(s.last()) {
        trim_end(s.drop_last())
    } else {
        s
    }
}

/// `s` without leading and trailing white space.
pub open spec fn trimmed(s: Seq<char>) -> Seq<char> {
    trim_end(trim_start(s))
}

/// `text` without leading and trailing white space.
pub fn trim(text: &str) -> (out: String)
    ensures
        out@ == trimmed(text@),
{
    let chars = chars_of(text);
    let n = chars.len();
    let mut start: usize = 0;
    assert(chars@.subrange(0, n as int) =~= chars@);
    while start < n && char_is_whitespace(chars[start])
        invariant
            start <= n,
            n == chars@.len(),
            trim_start(chars@) == trim_start(chars@.subrange(start as int, n as int)),
        decreases n - start,
    {
        assert(chars@.subrange(start as int, n as int).drop_first() =~= chars@.subrange(
            start as int + 1,
            n as int,
        ));
        start = start + 1;
    }
    let mut end: usize = n;
    while end > start && char_is_whitespace(chars[end - 1])
        invariant
            start <= end <= n,
            n == chars@.len(),
            trim_end(chars@.subrange(start as int, n as int)) == trim_end(
                chars@.subrange(start as int, end as int),
            ),
        decreases end,
    {
        assert(chars@.subrange(start as int, end as int).drop_last() =~= chars@.subrange(
            start as int,
            end as int - 1,
        ));
        end = end - 1;
    }
    assert(trim_start(chars@) == chars@.subrange(start as int, n as int));
    assert(trim_end(chars@.subrange(start as int, end as int)) == chars@.subrange(
        start as int,
        end as int,
    ));
    text.substring_char(start, end).to_owned()
}

/// The Kelvin sign, which lower-cases to the letter `k`.
pub const KELVIN_SIGN: char = '\u{212A}';

/// The ASCII letter that `c` lower-cases to, and `c` itself where it
/// lower-cases to none. Besides the ASCII capitals only the Kelvin sign
/// lower-cases to an ASCII letter.
pub open spec fn lower(c: char) -> char {
    if 'A' <= c <= 'Z' {
        ((c as u8) + 32) as char
    } else if c == KELVIN_SIGN {
        'k'
    } else {
        c
    }
}

/// `s` with every character that lower-cases to an ASCII letter replaced by
/// that letter.
pub open spec fn lowercase(s: Seq<char>) -> Seq<char> {
    Seq::new(s.len(), |i: int| lower(s[i]))
}

/// The ASCII letter that `c` lower-cases to, and `c` itself where it
/// lower-cases to none.
pub fn char_lower(c: char) -> (letter: char)
    ensures
        letter == lower(c),
{
    let n: u32 = c as u32;
    if 65 <= n && n <= 90 {
        let b: u8 = c as u8;
        (b + 32) as char
    } else if n == 0x212A {
        'k'
    } else {
        c
    }
}

/// Whether the characters `chars[from..to]` spell `word` once they are
/// lower-cased.
pub fn lowercase_matches(chars: &Vec<char>, from: usize, to: usize, word: &str) -> (same: bool)
    requires
        from <= to <= chars@.len(),
    ensures
        same == (lowercase(chars@.subrange(from as int, to as int)) == word@),
{
    let letters = chars_of(word);
    let ghost field = chars@.subrange(from as int, to as int);
    if letters.len() != to - from {
        assert(lowercase(field).len() != word@.len());
        return false;
    }
    let mut k: usize = 0;
    while k < letters.len()
        invariant
            k <= letters@.len(),
            letters@ == word@,
            letters@.len() == to - from,
            from <= to <= chars@.len(),
            field == chars@.subrange(from as int, to as int),
            forall|j: int| 0 <= j < k ==> lower(#[trigger] field[j]) == letters@[j],
        decreases letters@.len() - k,
    {
        if char_lower(chars[from + k]) != letters[k] {
            assert(lowercase(field)[k as int] != word@[k as int]);
            return false;
        }
        k = k + 1;
    }
    assert(lowercase(field) =~= word@);
    true
}

/// Whether two texts are the same.
pub fn same_text(a: &str, b: &str) -> (same: bool)
    ensures
        same == (a@ == b@),
{
    let left = chars_of(a);
    let right = chars_of(b);
    if left.len() != right.len() {
        return false;
    }
    let mut k: usize = 0;
    while k < left.len()
        invariant
            k <= left@.len(),
            left@.len() == right@.len(),
            left@ == a@,
            right@ == b@,
            forall|j: int| 0 <= j < k ==> left@[j] == right@[j],
        decreases left@.len() - k,
    {
        if left[k] != right[k] {
            return false;
        }
        k = k + 1;
    }
    assert(left@ =~= right@);
    true
}

/// The digit that stands for `n` in base 16, capitals for ten to fifteen.
pub open spec fn digit_char(n: nat) -> char
    recommends
        n < 16,
{
    if n < 10 {
        (48 + n) as char
    } else {
        (55 + n) as char
    }
}

/// The decimal digits of `n`, without leading zeros.
pub open spec fn decimal(n: nat) -> Seq<char>
    decreases n,
{
    if n < 10 {
        seq![digit_char(n)]
    } else {
        decimal(n / 10).push(digit_char(n % 10))
    }
}

/// The decimal digits of `n`, with a leading zero where there is only one.
pub open spec fn two_digits(n: nat) -> Seq<char> {
    if n < 10 {
        seq!['0', digit_char(n)]
    } else {
        decimal(n)
    }
}

/// The two digits of a byte in base 16.
pub open spec fn hex_byte(byte: u8) -> Seq<char> {
    seq![digit_char((byte / 16) as nat), digit_char((byte % 16) as nat)]
}

/// The digit that stands for `n` in base 16, as a text.
pub fn digit_text(n: u8) -> (digit: &'static str)
    requires
        n < 16,
    ensures
        digit@ == seq![digit_char(n as nat)],
{
    proof {
        reveal_strlit("0");
        reveal_strlit("1");
        reveal_strlit("2");
        reveal_strlit("3");
        reveal_strlit("4");
        reveal_strlit("5");
        reveal_strlit("6");
        reveal_strlit("7");
        reveal_strlit("8");
        reveal_strlit("9");
        reveal_strlit("A");
        reveal_strlit("B");
        reveal_strlit("C");
        reveal_strlit("D");
        reveal_strlit("E");
        reveal_strlit("F");
    }
    let digit = match n {
        0 => "0",
        1 => "1",
        2 => "2",
        3 => "3",
        4 => "4",
        5 => "5",
        6 => "6",
        7 => "7",
        8 => "8",
        9 => "9",
        10 => "A",
        11 => "B",
        12 => "C",
        13 => "D",
        14 => "E",
        _ => "F",
    };
    assert(digit@ =~= seq![digit_char(n as nat)]);
    digit
}

/// The decimal digits of `n`, without leading zeros.
pub fn decimal_text(n: u64) -> (digits: String)
    ensures
        digits@ == decimal(n as nat),
    decreases n,
{
    if n < 10 {
        String::from_str(digit_text(n as u8))
    } else {
        let digits = decimal_text(n / 10).concat(digit_text((n % 10) as u8));
        assert(digits@ =~= decimal(n as nat));
        digits
    }
}

/// The decimal digits of `n`, with a leading zero where there is only one.
pub fn two_digits_text(n: u64) -> (digits: String)
    ensures
        digits@ == two_digits(n as nat),
{
    if n < 10 {
        proof {
            reveal_strlit("0");
        }
        let digits = String::from_str("0").concat(digit_text(n as u8));
        assert(digits@ =~= two_digits(n as nat));
        digits
    } else {
        decimal_text(n)
    }
}

/// The two digits of a byte in base 16.
pub fn hex_byte_text(byte: u8) -> (digits: String)
    ensures
        digits@ == hex_byte(byte),
{
    let digits = String::from_str(digit_text(byte / 16)).concat(digit_text(byte % 16));
    assert(digits@ =~= hex_byte(byte));
    digits
}

} // verus!
