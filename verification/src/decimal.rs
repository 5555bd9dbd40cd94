//! Decimal text of unsigned integers: formatting, parsing, and their round trip.

use vstd::prelude::*;

use crate::text::chars_of;

verus! {

/// Whether `c` is one of the ASCII digits `0` to `9`.
pub open spec fn is_digit(c: char) -> bool {
    '0' <= c && c <= '9'
}

/// The value of an ASCII digit.
pub open spec fn digit_value(c: char) -> int {
    c as int - '0' as int
}

/// The ASCII digit for `d` in `0..10`.
pub open spec fn digit_char(d: int) -> char
    recommends
        0 <= d < 10,
{
    (d + '0' as int) as char
}

/// Every character of `s` is an ASCII digit.
pub open spec fn all_digits(s: Seq<char>) -> bool {
    forall|i: int| 0 <= i < s.len() ==> is_digit(#[trigger] s[i])
}

/// The number that the digits of `s` denote, most significant first.
pub open spec fn digits_value(s: Seq<char>) -> int
    decreases s.len(),
{
    if s.len() == 0 {
        0
    } else {
        digits_value(s.drop_last()) * 10 + digit_value(s.last())
    }
}

/// The shortest decimal text of `n`, without sign and without leading zeros.
pub open spec fn decimal_text(n: nat) -> Seq<char>
    decreases n,
{
    if n < 10 {
        seq![digit_char(n as int)]
    } else {
        decimal_text(n / 10).push(digit_char((n % 10) as int))
    }
}

/// Drops one leading `+`, as the standard parser of unsigned integers does.
pub open spec fn without_plus(s: Seq<char>) -> Seq<char> {
    if s.len() > 0 && s[0] == '+' {
        s.drop_first()
    } else {
        s
    }
}

/// What parsing `s` as a `u64` yields: an optional `+`, then at least one
/// ASCII digit and nothing else, of a value that fits in 64 bits.
pub open spec fn parse_u64_spec(s: Seq<char>) -> Option<u64> {
    let d = without_plus(s);
    if d.len() > 0 && all_digits(d) && digits_value(d) <= u64::MAX {
        Some(digits_value(d) as u64)
    } else {
        None
    }
}

/// The value of a digit string is not negative and bounds that of each prefix.
pub proof fn lemma_prefix_value_le(s: Seq<char>, k: int)
    requires
        all_digits(s),
        0 <= k <= s.len(),
    ensures
        0 <= digits_value(s.take(k)) <= digits_value(s),
    decreases s.len(),
{
    if k == s.len() {
        assert(s.take(k) =~= s);
        if s.len() > 0 {
            lemma_prefix_value_le(s.drop_last(), k - 1);
            assert(s.drop_last().take(k - 1) =~= s.drop_last());
        }
    } else {
        let t = s.drop_last();
        lemma_prefix_value_le(t, k);
        assert(t.take(k) =~= s.take(k));
        lemma_prefix_value_le(t, t.len() as int);
        assert(t.take(t.len() as int) =~= t);
    }
}

/// A digit character denotes the digit it was made from.
pub proof fn lemma_digit_char_value(d: int)
    requires
        0 <= d < 10,
    ensures
        is_digit(digit_char(d)),
        digit_value(digit_char(d)) == d,
{
    assert(digit_char(0) == '0');
    assert(digit_char(1) == '1');
    assert(digit_char(2) == '2');
    assert(digit_char(3) == '3');
    assert(digit_char(4) == '4');
    assert(digit_char(5) == '5');
    assert(digit_char(6) == '6');
    assert(digit_char(7) == '7');
    assert(digit_char(8) == '8');
    assert(digit_char(9) == '9');
}

/// The decimal text of `n` is made of digits and denotes `n`.
pub proof fn lemma_decimal_text_digits(n: nat)
    ensures
        decimal_text(n).len() > 0,
        all_digits(decimal_text(n)),
        digits_value(decimal_text(n)) == n,
    decreases n,
{
    lemma_digit_char_value((n % 10) as int);
    if n >= 10 {
        lemma_decimal_text_digits(n / 10);
        let t = decimal_text(n);
        assert(t.drop_last() =~= decimal_text(n / 10));
        assert(t.last() == digit_char((n % 10) as int));
        assert(digits_value(t) == digits_value(t.drop_last()) * 10 + digit_value(t.last()));
        assert(digits_value(t) == (n / 10) * 10 + n % 10);
    } else {
        lemma_digit_char_value(n as int);
        let t = decimal_text(n);
        assert(t.drop_last() =~= Seq::<char>::empty());
        assert(digits_value(Seq::<char>::empty()) == 0);
        assert(digits_value(t) == digits_value(t.drop_last()) * 10 + digit_value(t.last()));
    }
}

/// Parsing the decimal text of a `u64` gives that number back.
pub proof fn lemma_decimal_round_trip(n: u64)
    ensures
        parse_u64_spec(decimal_text(n as nat)) == Some(n),
{
    lemma_decimal_text_digits(n as nat);
    let t = decimal_text(n as nat);
    assert(is_digit(t[0]));
    assert(without_plus(t) == t);
}

/// The text of one decimal digit.
fn digit_text(d: u64) -> (s: &'static str)
    requires
        d < 10,
    ensures
        s@ == seq![digit_char(d as int)],
{
    proof {
        reveal_strlit("0");
        reveal_strlit("1");
        reveal_strlit("2");
        reveal_strlit("3");
        reveal_strlit("4");
        reveal_strlit("5");
        reveal_strlit("6");
        reveal_strlit("7");
        reveal_strlit("8");
        reveal_strlit("9");
    }
    match d {
        0 => "0",
        1 => "1",
        2 => "2",
        3 => "3",
        4 => "4",
        5 => "5",
        6 => "6",
        7 => "7",
        8 => "8",
        _ => "9",
    }
}

/// Formats `n` in decimal, as `n.to_string()` does.
pub fn u64_to_decimal(n: u64) -> (s: String)
    ensures
        s@ == decimal_text(n as nat),
    decreases n,
{
    if n < 10 {
        digit_text(n).to_owned()
    } else {
        let mut s = u64_to_decimal(n / 10);
        s.append(digit_text(n % 10));
        s
    }
}

/// Parses `s` as a `u64`, as `s.parse::<u64>().ok()` does.
pub fn parse_u64_decimal(s: &str) -> (r: Option<u64>)
    ensures
        r == parse_u64_spec(s@),
{
    let chars = chars_of(s);
    parse_u64_chars(&chars)
}

/// Parses the characters of `chars` as a `u64`.
pub fn parse_u64_chars(chars: &Vec<char>) -> (r: Option<u64>)
    ensures
        r == parse_u64_spec(chars@),
{
    let n = chars.len();
    let start: usize = if n > 0 && chars[0] == '+' { 1 } else { 0 };
    let ghost d = without_plus(chars@);
    assert(d =~= chars@.skip(start as int));
    if start >= n {
        return None;
    }
    let mut acc: u64 = 0;
    let mut i: usize = start;
    while i < n
        invariant
            n == chars@.len(),
            start <= i <= n,
            start < n,
            d == chars@.skip(start as int),
            d == without_plus(chars@),
            all_digits(d.take(i - start)),
            acc as int == digits_value(d.take(i - start)),
        decreases n - i,
    {
        let c = chars[i];
        let k: usize = i - start;
        assert(d[k as int] == c);
        if !('0' <= c && c <= '9') {
            assert(!is_digit(d[k as int]));
            assert(!all_digits(d));
            return None;
        }
        let dv: u64 = (c as u32 - '0' as u32) as u64;
        assert(d.take(k + 1).drop_last() =~= d.take(k as int));
        assert(d.take(k + 1).last() == c);
        assert(digits_value(d.take(k + 1)) == acc * 10 + dv);
        if acc > 1844674407370955161 || (acc == 1844674407370955161 && dv > 5) {
            proof {
                if all_digits(d) {
                    lemma_prefix_value_le(d, k + 1);
                }
            }
            return None;
        }
        acc = acc * 10 + dv;
        i = i + 1;
        assert(all_digits(d.take(i - start)));
    }
    assert(d.take(n - start) =~= d);
    Some(acc)
}

} // verus!
