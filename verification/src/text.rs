//! Text as sequences of characters: decimal numerals and identifier tokens.

use vstd::prelude::*;

verus! {

/// Whether `c` is one of the ten ASCII digits.
pub open spec fn is_digit(c: char) -> bool {
    '0' as u32 <= c as u32 <= '9' as u32
}

/// What the digit `c` counts for; zero for a character below `'0'`.
pub open spec fn digit_value(c: char) -> nat {
    if c as u32 >= '0' as u32 {
        (c as u32 - '0' as u32) as nat
    } else {
        0
    }
}

/// The digit that stands for `d`, for `d` below ten.
pub open spec fn digit_char(d: nat) -> char {
    ('0' as u32 + d) as char
}

/// Whether every character of `s` is an ASCII digit.
pub open spec fn all_digits(s: Seq<char>) -> bool {
    forall|i: int| 0 <= i < s.len() ==> is_digit(#[trigger] s[i])
}

/// The number that a string of digits denotes in base ten; zero for the empty
/// string.
pub open spec fn decimal_value(s: Seq<char>) -> nat
    decreases s.len(),
{
    if s.len() == 0 {
        0
    } else {
        10 * decimal_value(s.drop_last()) + digit_value(s.last())
    }
}

/// The numeral of `n` in base ten, without leading zeros.
pub open spec fn decimal(n: nat) -> Seq<char>
    decreases n,
{
    if n < 10 {
        seq![digit_char(n)]
    } else {
        decimal(n / 10).push(digit_char(n % 10))
    }
}

/// A token without its leading plus sign, if it has one.
pub open spec fn unsigned(token: Seq<char>) -> Seq<char> {
    if token.len() > 0 && token[0] == '+' {
        token.skip(1)
    } else {
        token
    }
}

/// The identifier that a token denotes: an optional plus sign, then one or
/// more ASCII digits whose value fits in 64 bits. Anything else, the empty
/// token and surrounding blanks included, denotes none.
pub open spec fn parsed_id(token: Seq<char>) -> Option<u64> {
    let digits = unsigned(token);
    if digits.len() > 0 && all_digits(digits) && decimal_value(digits) <= u64::MAX {
        Some(decimal_value(digits) as u64)
    } else {
        None
    }
}

/// A numeral's beginning denotes no more than the numeral.
pub proof fn lemma_decimal_value_prefix(s: Seq<char>, k: int)
    requires
        0 <= k <= s.len(),
    ensures
        decimal_value(s.take(k)) <= decimal_value(s),
    decreases s.len(),
{
    if k == s.len() {
        assert(s.take(k) =~= s);
    } else {
        assert(s.drop_last().take(k) =~= s.take(k));
        lemma_decimal_value_prefix(s.drop_last(), k);
    }
}

/// The numeral of a number is made of digits, and denotes that number.
pub proof fn lemma_decimal_denotes(n: nat)
    ensures
        decimal(n).len() > 0,
        all_digits(decimal(n)),
        decimal_value(decimal(n)) == n,
    decreases n,
{
    if n < 10 {
        assert(decimal(n).drop_last() =~= Seq::<char>::empty());
        assert(decimal_value(decimal(n).drop_last()) == 0);
    } else {
        lemma_decimal_denotes(n / 10);
        assert(decimal(n).drop_last() =~= decimal(n / 10));
    }
}

/// Reading a number's numeral as an identifier gives the number back.
pub proof fn lemma_parse_decimal(n: u64)
    ensures
        parsed_id(decimal(n as nat)) == Some(n),
{
    lemma_decimal_denotes(n as nat);
    assert(is_digit(decimal(n as nat)[0]));
}

/// Whether `c` is white space, as `char::is_whitespace` tells: whether
/// Unicode lists it under `White_Space`.
pub uninterp spec fn is_whitespace(c: char) -> bool;

/// A text without the white space at its two ends.
pub open spec fn trimmed(s: Seq<char>) -> Seq<char>
    decreases s.len(),
{
    if s.len() > 0 && is_whitespace(s.first()) {
        trimmed(s.drop_first())
    } else if s.len() > 0 && is_whitespace(s.last()) {
        trimmed(s.drop_last())
    } else {
        s
    }
}

/// Calls `str::trim`. Trusted: the result is the text without its leading
/// and trailing white space, white space being what `char::is_whitespace`
/// accepts; so what is left neither begins nor ends with white space.
#[verifier::external_body]
pub(crate) fn trim(s: &str) -> (t: &str)
    ensures
        t@ == trimmed(s@),
        t@.len() > 0 ==> !is_whitespace(t@.first()) && !is_whitespace(t@.last()),
{
    s.trim()
}

/// The characters of a string slice, as a vector.
pub fn chars_of(s: &str) -> (chars: Vec<char>)
    ensures
        chars@ == s@,
{
    let mut chars: Vec<char> = Vec::new();
    for c in it: s.chars()
        invariant
            it.seq() == s@,
            chars@ == s@.take(it.index() as int),
    {
        chars.push(c);
        assert(s@.take(it.index() + 1) =~= s@.take(it.index() as int).push(c));
    }
    assert(s@.take(s@.len() as int) =~= s@);
    chars
}

/// Reads the characters from place `from` on as an identifier.
pub fn parse_id_from(chars: &Vec<char>, from: usize) -> (id: Option<u64>)
    requires
        from <= chars.len(),
    ensures
        id == parsed_id(chars@.skip(from as int)),
{
    let ghost token = chars@.skip(from as int);
    let n = chars.len();
    let mut at: usize = from;
    if at < n && chars[at] == '+' {
        at += 1;
    }
    let start = at;
    let ghost digits = chars@.skip(start as int);
    assert(digits =~= unsigned(token));
    if at == n {
        return None;
    }
    let mut value: u64 = 0;
    while at < n
        invariant
            start <= at <= n,
            n == chars.len(),
            digits == unsigned(chars@.skip(from as int)),
            digits == chars@.skip(start as int),
            all_digits(digits.take(at - start)),
            value == decimal_value(digits.take(at - start)),
        decreases n - at,
    {
        let c: char = chars[at];
        let code = c as u32;
        assert(digits[at - start] == c);
        if code < '0' as u32 || code > '9' as u32 {
            return None;
        }
        let digit = (code - '0' as u32) as u64;
        proof {
            let upto = digits.take(at - start + 1);
            assert(upto.drop_last() =~= digits.take(at - start));
            assert(upto.last() == c);
            lemma_decimal_value_prefix(digits, at - start + 1);
        }
        let tens = match value.checked_mul(10) {
            Some(tens) => tens,
            None => {
                return None;
            },
        };
        value = match tens.checked_add(digit) {
            Some(sum) => sum,
            None => {
                return None;
            },
        };
        at += 1;
    }
    assert(digits.take(at - start) =~= digits);
    Some(value)
}

/// Reads a token as an identifier: see [`parsed_id`].
pub fn parse_id(token: &str) -> (id: Option<u64>)
    ensures
        id == parsed_id(token@),
{
    let chars = chars_of(token);
    assert(chars@.skip(0) =~= chars@);
    parse_id_from(&chars, 0)
}

/// The one-character string of a digit.
fn digit_str(d: u64) -> (s: &'static str)
    requires
        d < 10,
    ensures
        s@ == seq![digit_char(d as nat)],
{
    proof {
        reveal_strlit("0");
        reveal_strlit("1");
        reveal_strlit("2");
        reveal_strlit("3");
        reveal_strlit("4");
        reveal_strlit("5");
        reveal_strlit("6");
        reveal_strlit("7");
        reveal_strlit("8");
        reveal_strlit("9");
    }
    let s = if d == 0 {
        "0"
    } else if d == 1 {
        "1"
    } else if d == 2 {
        "2"
    } else if d == 3 {
        "3"
    } else if d == 4 {
        "4"
    } else if d == 5 {
        "5"
    } else if d == 6 {
        "6"
    } else if d == 7 {
        "7"
    } else if d == 8 {
        "8"
    } else {
        "9"
    };
    assert(s@ =~= seq![digit_char(d as nat)]);
    s
}

/// Writes a number in base ten.
pub fn decimal_string(n: u64) -> (s: String)
    ensures
        s@ == decimal(n as nat),
    decreases n,
{
    if n < 10 {
        digit_str(n).to_owned()
    } else {
        let mut s = decimal_string(n / 10);
        s.append(digit_str(n % 10));
        assert(s@ =~= decimal(n as nat));
        s
    }
}

} // verus!
