//! Reading and writing decimal numbers, character by character.
use vstd::prelude::*;
use vstd::string::StringExecFns;

verus! {

/// Whether the character is one of the ten decimal digits.
pub open spec fn is_digit(c: char) -> bool {
    '0' <= c && c <= '9'
}

/// The number that a decimal digit stands for.
pub open spec fn digit_value(c: char) -> int {
    c as int - '0' as int
}

/// The character that writes a number below ten.
pub open spec fn digit_glyph(d: int) -> char {
    if d == 0 {
        '0'
    } else if d == 1 {
        '1'
    } else if d == 2 {
        '2'
    } else if d == 3 {
        '3'
    } else if d == 4 {
        '4'
    } else if d == 5 {
        '5'
    } else if d == 6 {
        '6'
    } else if d == 7 {
        '7'
    } else if d == 8 {
        '8'
    } else {
        '9'
    }
}

/// Whether every character of the text is a decimal digit.
pub open spec fn all_digits(text: Seq<char>) -> bool {
    forall|i: int| 0 <= i < text.len() ==> is_digit(#[trigger] text[i])
}

/// The number that a run of digits writes, the first digit weighing most.
/// The empty run writes zero.
pub open spec fn digits_value(text: Seq<char>) -> nat
    decreases text.len(),
{
    if text.len() == 0 {
        0
    } else {
        (digits_value(text.drop_last()) * 10 + digit_value(text.last())) as nat
    }
}

/// The digits that write a natural number, without leading zeros.
pub open spec fn decimal_digits(n: nat) -> Seq<char>
    decreases n,
{
    if n < 10 {
        seq![digit_glyph(n as int)]
    } else {
        decimal_digits(n / 10).push(digit_glyph((n % 10) as int))
    }
}

/// The text that writes an integer: a minus sign where it is negative, then
/// its digits.
pub open spec fn decimal(n: int) -> Seq<char> {
    if n < 0 {
        seq!['-'] + decimal_digits((-n) as nat)
    } else {
        decimal_digits(n as nat)
    }
}

/// The text after an optional sign: a leading `+` is always dropped, a
/// leading `-` only where a sign is allowed.
pub open spec fn unsigned_part(text: Seq<char>, signed: bool) -> Seq<char> {
    if text.len() > 0 && (text[0] == '+' || (signed && text[0] == '-')) {
        text.skip(1)
    } else {
        text
    }
}

/// The integer that a text writes: an optional sign, then at least one digit
/// and nothing else. There is no bound on the number here.
pub open spec fn parse_integer(text: Seq<char>, signed: bool) -> Option<int> {
    let digits = unsigned_part(text, signed);
    if digits.len() == 0 || !all_digits(digits) {
        None
    } else if signed && text[0] == '-' {
        Some(-(digits_value(digits) as int))
    } else {
        Some(digits_value(digits) as int)
    }
}

/// The number from 0 to 255 that a text writes, where it writes one: an
/// optional `+`, then digits.
pub open spec fn parse_u8(text: Seq<char>) -> Option<u8> {
    match parse_integer(text, false) {
        Some(n) => if n <= u8::MAX {
            Some(n as u8)
        } else {
            None
        },
        None => None,
    }
}

/// The number from -128 to 127 that a text writes, where it writes one: an
/// optional sign, then digits.
pub open spec fn parse_i8(text: Seq<char>) -> Option<i8> {
    match parse_integer(text, true) {
        Some(n) => if i8::MIN <= n <= i8::MAX {
            Some(n as i8)
        } else {
            None
        },
        None => None,
    }
}

/// A run of digits is worth at least as much as any of its beginnings.
pub proof fn lemma_digits_value_grows(text: Seq<char>, k: int)
    requires
        all_digits(text),
        0 <= k <= text.len(),
    ensures
        digits_value(text.take(k)) <= digits_value(text),
    decreases text.len(),
{
    if k == text.len() {
        assert(text.take(k) =~= text);
    } else {
        let shorter = text.drop_last();
        assert(shorter.take(k) =~= text.take(k));
        assert(is_digit(text.last()));
        lemma_digits_value_grows(shorter, k);
    }
}

/// The digits that write a number are digits, and they write that number.
pub proof fn lemma_decimal_digits(n: nat)
    ensures
        decimal_digits(n).len() >= 1,
        all_digits(decimal_digits(n)),
        digits_value(decimal_digits(n)) == n,
    decreases n,
{
    let digits = decimal_digits(n);
    if n < 10 {
        assert(digits.drop_last() =~= Seq::<char>::empty());
        assert(digits_value(digits.drop_last()) == 0);
        assert(digits.last() == digit_glyph(n as int));
        assert(digits_value(digits) == n);
    } else {
        let front = decimal_digits(n / 10);
        lemma_decimal_digits(n / 10);
        assert(digits.drop_last() =~= front);
        assert(digits.last() == digit_glyph((n % 10) as int));
        assert forall|i: int| 0 <= i < digits.len() implies is_digit(#[trigger] digits[i]) by {
            if i < front.len() {
                assert(digits[i] == front[i]);
            }
        }
        assert(digits_value(digits) == n);
    }
}

/// An integer is read back from the text that writes it.
pub proof fn lemma_decimal_round_trip(n: int)
    ensures
        parse_integer(decimal(n), true) == Some(n),
        n >= 0 ==> parse_integer(decimal(n), false) == Some(n),
{
    if n < 0 {
        let digits = decimal_digits((-n) as nat);
        lemma_decimal_digits((-n) as nat);
        let text = decimal(n);
        assert(text[0] == '-');
        assert(text.skip(1) =~= digits);
    } else {
        let digits = decimal_digits(n as nat);
        lemma_decimal_digits(n as nat);
        assert(is_digit(digits[0]));
    }
}

/// The characters of a string, one by one.
pub fn chars_of(s: &str) -> (v: Vec<char>)
    ensures
        v@ == s@,
{
    let mut v: Vec<char> = Vec::new();
    for c in it: s.chars()
        invariant
            v@ == it.seq().take(it.index() as int),
            it.seq() == s@,
    {
        v.push(c);
    }
    v
}

/// Whether a character is a decimal digit.
pub fn char_is_digit(c: char) -> (r: bool)
    ensures
        r == is_digit(c),
{
    '0' <= c && c <= '9'
}

/// Reads the digits `text[from..to]` as a number, giving up as soon as the
/// number passes `limit` or a character is no digit.
pub fn read_digits(text: &[char], from: usize, to: usize, limit: u32) -> (r: Option<u32>)
    requires
        from <= to <= text.len(),
        limit <= 1_000_000,
    ensures
        r == (if all_digits(text@.subrange(from as int, to as int)) && digits_value(
            text@.subrange(from as int, to as int),
        ) <= limit {
            Some(digits_value(text@.subrange(from as int, to as int)) as u32)
        } else {
            None
        }),
{
    let ghost run = text@.subrange(from as int, to as int);
    let mut value: u32 = 0;
    let mut i: usize = from;
    while i < to
        invariant
            from <= i <= to <= text.len(),
            limit <= 1_000_000,
            run == text@.subrange(from as int, to as int),
            all_digits(run.take(i - from)),
            value == digits_value(run.take(i - from)),
            value <= limit,
        decreases to - i,
    {
        let c = text[i];
        let ghost before = run.take(i - from);
        let ghost after = run.take(i + 1 - from);
        proof {
            assert(after.drop_last() =~= before);
            assert(after.last() == c);
            assert(run[i - from] == c);
        }
        if !char_is_digit(c) {
            return None;
        }
        let d: u32 = (c as u32) - ('0' as u32);
        value = value * 10 + d;
        if value > limit {
            proof {
                if all_digits(run) {
                    lemma_digits_value_grows(run, i + 1 - from);
                }
            }
            return None;
        }
        i = i + 1;
    }
    proof {
        assert(run.take(i - from) =~= run);
    }
    Some(value)
}

/// Reads `text[from..to]` as a number from 0 to 255.
pub fn read_u8(text: &[char], from: usize, to: usize) -> (r: Option<u8>)
    requires
        from <= to <= text.len(),
    ensures
        r == parse_u8(text@.subrange(from as int, to as int)),
{
    let ghost whole = text@.subrange(from as int, to as int);
    let start: usize = if from < to && text[from] == '+' {
        from + 1
    } else {
        from
    };
    proof {
        assert(unsigned_part(whole, false) =~= text@.subrange(start as int, to as int));
    }
    if start == to {
        return None;
    }
    match read_digits(text, start, to, 255) {
        Some(n) => Some(n as u8),
        None => None,
    }
}

/// Reads `text[from..to]` as a number from -128 to 127.
pub fn read_i8(text: &[char], from: usize, to: usize) -> (r: Option<i8>)
    requires
        from <= to <= text.len(),
    ensures
        r == parse_i8(text@.subrange(from as int, to as int)),
{
    let ghost whole = text@.subrange(from as int, to as int);
    let negative: bool = from < to && text[from] == '-';
    let start: usize = if from < to && (text[from] == '+' || text[from] == '-') {
        from + 1
    } else {
        from
    };
    proof {
        assert(unsigned_part(whole, true) =~= text@.subrange(start as int, to as int));
    }
    if start == to {
        return None;
    }
    match read_digits(text, start, to, 128) {
        Some(n) => {
            if negative {
                Some((0 - (n as i32)) as i8)
            } else if n <= 127 {
                Some(n as i8)
            } else {
                None
            }
        },
        None => None,
    }
}

/// The string that writes one decimal digit.
pub fn digit_str(d: u8) -> (r: &'static str)
    requires
        d < 10,
    ensures
        r@ == seq![digit_glyph(d as int)],
{
    proof {
        reveal_strlit("0");
        reveal_strlit("1");
        reveal_strlit("2");
        reveal_strlit("3");
        reveal_strlit("4");
        reveal_strlit("5");
        reveal_strlit("6");
        reveal_strlit("7");
        reveal_strlit("8");
        reveal_strlit("9");
    }
    let r = if d == 0 {
        "0"
    } else if d == 1 {
        "1"
    } else if d == 2 {
        "2"
    } else if d == 3 {
        "3"
    } else if d == 4 {
        "4"
    } else if d == 5 {
        "5"
    } else if d == 6 {
        "6"
    } else if d == 7 {
        "7"
    } else if d == 8 {
        "8"
    } else {
        "9"
    };
    assert(r@ =~= seq![digit_glyph(d as int)]);
    r
}

/// Writes a natural number in decimal digits.
pub fn natural_to_string(n: u32) -> (r: String)
    ensures
        r@ == decimal_digits(n as nat),
    decreases n,
{
    if n < 10 {
        String::from_str(digit_str(n as u8))
    } else {
        let r = natural_to_string(n / 10).concat(digit_str((n % 10) as u8));
        assert(r@ =~= decimal_digits(n as nat));
        r
    }
}

/// Writes an integer in decimal, with a minus sign where it is negative.
pub fn integer_to_string(n: i32) -> (r: String)
    requires
        n > i32::MIN,
    ensures
        r@ == decimal(n as int),
{
    if n < 0 {
        proof {
            reveal_strlit("-");
        }
        let digits = natural_to_string((0 - n) as u32);
        let r = String::from_str("-").concat(digits.as_str());
        assert(r@ =~= decimal(n as int));
        r
    } else {
        natural_to_string(n as u32)
    }
}

} // verus!
