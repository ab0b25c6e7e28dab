use vstd::prelude::*;

verus! {

/// The character that writes the decimal digit `d` (`0 <= d < 10`).
pub open spec fn digit_char(d: int) -> char {
    if d == 0 { '0' }
    else if d == 1 { '1' }
    else if d == 2 { '2' }
    else if d == 3 { '3' }
    else if d == 4 { '4' }
    else if d == 5 { '5' }
    else if d == 6 { '6' }
    else if d == 7 { '7' }
    else if d == 8 { '8' }
    else { '9' }
}

/// Decimal digits of a natural number, most significant first, without
/// leading zeros (zero itself is written `0`).
pub open spec fn nat_decimal(n: nat) -> Seq<char>
    decreases n,
{
    if n < 10 {
        seq![digit_char(n as int)]
    } else {
        nat_decimal(n / 10).push(digit_char((n % 10) as int))
    }
}

/// Decimal text of an integer as `Display` writes it: a `-` before the
/// digits of a negative number, no sign otherwise.
pub open spec fn int_decimal(i: int) -> Seq<char> {
    if i < 0 {
        seq!['-'] + nat_decimal((-i) as nat)
    } else {
        nat_decimal(i as nat)
    }
}

/// `c` is an ASCII decimal digit.
pub open spec fn is_digit(c: char) -> bool {
    48 <= (c as int) <= 57
}

/// Numeric value of an ASCII decimal digit.
pub open spec fn digit_value(c: char) -> int {
    (c as int) - 48
}

/// Every character of `s` is an ASCII decimal digit.
pub open spec fn all_digits(s: Seq<char>) -> bool {
    forall|i: int| 0 <= i < s.len() ==> #[trigger] is_digit(s[i])
}

/// Value of a string of decimal digits, most significant first.
pub open spec fn digits_value(s: Seq<char>) -> int
    decreases s.len(),
{
    if s.len() == 0 {
        0
    } else {
        digits_value(s.drop_last()) * 10 + digit_value(s.last())
    }
}

/// The sign-stripped part of a number's text: `(negative, digits)`. One
/// leading `-` or `+` is a sign; anything else belongs to the digits.
pub open spec fn split_sign(s: Seq<char>) -> (bool, Seq<char>) {
    if s.len() > 0 && s[0] == '-' {
        (true, s.drop_first())
    } else if s.len() > 0 && s[0] == '+' {
        (false, s.drop_first())
    } else {
        (false, s)
    }
}

/// What `str::parse::<i32>` accepts: an optional sign followed by at least
/// one ASCII digit and nothing else, whose value lies in the range of `i32`.
pub open spec fn parse_i32_spec(s: Seq<char>) -> Option<i32> {
    let (negative, digits) = split_sign(s);
    if digits.len() == 0 || !all_digits(digits) {
        None
    } else {
        let v = if negative { -digits_value(digits) } else { digits_value(digits) };
        if i32::MIN <= v <= i32::MAX {
            Some(v as i32)
        } else {
            None
        }
    }
}

/// The number text `s` read as an `i32`, or `default` where it is no `i32`.
pub open spec fn parse_i32_or_spec(s: Seq<char>, default: i32) -> i32 {
    match parse_i32_spec(s) {
        Some(v) => v,
        None => default,
    }
}

proof fn lemma_digits_value_nonneg(s: Seq<char>)
    requires
        all_digits(s),
    ensures
        digits_value(s) >= 0,
    decreases s.len(),
{
    if s.len() > 0 {
        assert(is_digit(s[s.len() - 1]));
        assert(all_digits(s.drop_last())) by {
            assert forall|i: int| 0 <= i < s.drop_last().len() implies #[trigger] is_digit(
                s.drop_last()[i],
            ) by {
                assert(is_digit(s[i]));
            }
        }
        lemma_digits_value_nonneg(s.drop_last());
    }
}

/// The value of a digit string is at least the value of any of its prefixes.
proof fn lemma_digits_value_prefix(s: Seq<char>, k: int)
    requires
        all_digits(s),
        0 <= k <= s.len(),
    ensures
        digits_value(s.subrange(0, k)) <= digits_value(s),
    decreases s.len(),
{
    if k < s.len() {
        let t = s.drop_last();
        assert(all_digits(t)) by {
            assert forall|i: int| 0 <= i < t.len() implies #[trigger] is_digit(t[i]) by {
                assert(is_digit(s[i]));
            }
        }
        lemma_digits_value_prefix(t, k);
        assert(t.subrange(0, k) =~= s.subrange(0, k));
        lemma_digits_value_nonneg(t);
        assert(is_digit(s[s.len() - 1]));
    } else {
        assert(s.subrange(0, k) =~= s);
    }
}

fn digit_text(d: u64) -> (r: &'static str)
    requires
        d < 10,
    ensures
        r@ == seq![digit_char(d as int)],
{
    if d == 0 {
        proof { reveal_strlit("0"); }
        "0"
    } else if d == 1 {
        proof { reveal_strlit("1"); }
        "1"
    } else if d == 2 {
        proof { reveal_strlit("2"); }
        "2"
    } else if d == 3 {
        proof { reveal_strlit("3"); }
        "3"
    } else if d == 4 {
        proof { reveal_strlit("4"); }
        "4"
    } else if d == 5 {
        proof { reveal_strlit("5"); }
        "5"
    } else if d == 6 {
        proof { reveal_strlit("6"); }
        "6"
    } else if d == 7 {
        proof { reveal_strlit("7"); }
        "7"
    } else if d == 8 {
        proof { reveal_strlit("8"); }
        "8"
    } else {
        proof { reveal_strlit("9"); }
        "9"
    }
}

/// Appends the decimal digits of `n` to `out`.
fn push_nat_decimal(out: &mut String, n: u64)
    ensures
        final(out)@ == old(out)@ + nat_decimal(n as nat),
    decreases n,
{
    if n >= 10 {
        push_nat_decimal(out, n / 10);
    }
    out.append(digit_text(n % 10));
    proof {
        if n >= 10 {
            assert(old(out)@ + nat_decimal(n as nat) =~= old(out)@ + nat_decimal((n / 10) as nat)
                + seq![digit_char((n % 10) as int)]);
        } else {
            assert(nat_decimal(n as nat) =~= seq![digit_char((n % 10) as int)]);
        }
    }
}

/// Appends the decimal text of `n` to `out`, as `write!(out, "{}", n)` does.
pub fn push_i64_decimal(out: &mut String, n: i64)
    ensures
        final(out)@ == old(out)@ + int_decimal(n as int),
{
    if n < 0 {
        proof { reveal_strlit("-"); }
        out.append("-");
        let magnitude: u64 = ((-(n + 1)) as u64) + 1;
        push_nat_decimal(out, magnitude);
        proof {
            assert(magnitude as int == -(n as int));
        }
        assert(final(out)@ =~= old(out)@ + int_decimal(n as int)) by {
            assert(int_decimal(n as int) == seq!['-'] + nat_decimal(magnitude as nat));
        }
    } else {
        push_nat_decimal(out, n as u64);
    }
}

/// Decimal text of `n`, as `n.to_string()` gives it.
pub fn i64_to_decimal(n: i64) -> (r: String)
    ensures
        r@ == int_decimal(n as int),
{
    let mut out = String::new();
    push_i64_decimal(&mut out, n);
    assert(out@ =~= int_decimal(n as int));
    out
}

/// Reads `s` as `s.parse::<i32>()` does: `Some` of the value exactly when
/// `s` is an optional `+` or `-` followed by one or more ASCII digits whose
/// value fits in an `i32`.
pub fn parse_i32(s: &str) -> (r: Option<i32>)
    ensures
        r == parse_i32_spec(s@),
{
    let n = s.unicode_len();
    let mut negative = false;
    let mut start: usize = 0;
    if n > 0 {
        let c0 = s.get_char(0);
        if c0 == '-' {
            negative = true;
            start = 1;
        } else if c0 == '+' {
            start = 1;
        }
    }
    let ghost digits = split_sign(s@).1;
    assert(digits =~= s@.subrange(start as int, n as int));
    assert(negative == split_sign(s@).0);
    if start == n {
        return None;
    }
    let mut i: usize = start;
    let mut acc: u64 = 0;
    while i < n
        invariant
            start <= i <= n,
            n == s@.len(),
            digits == s@.subrange(start as int, n as int),
            digits == split_sign(s@).1,
            acc as int == digits_value(s@.subrange(start as int, i as int)),
            acc <= 2147483648,
            all_digits(s@.subrange(start as int, i as int)),
        decreases n - i,
    {
        let c = s.get_char(i);
        let code = c as u32;
        let ghost prefix = s@.subrange(start as int, i as int);
        let ghost next = s@.subrange(start as int, i + 1);
        assert(next.drop_last() =~= prefix);
        assert(next.last() == c);
        if code < 48 || code > 57 {
            assert(!all_digits(digits)) by {
                assert(digits[i - start] == c);
                assert(!is_digit(digits[i - start]));
            }
            return None;
        }
        let d: u64 = (code - 48) as u64;
        assert(all_digits(next)) by {
            assert forall|j: int| 0 <= j < next.len() implies #[trigger] is_digit(next[j]) by {
                if j < prefix.len() {
                    assert(next[j] == prefix[j]);
                }
            }
        }
        if acc * 10 + d > 2147483648 {
            proof {
                assert(digits_value(next) == acc * 10 + d);
                if all_digits(digits) {
                    lemma_digits_value_prefix(digits, (i + 1 - start) as int);
                    assert(digits.subrange(0, (i + 1 - start) as int) =~= next);
                }
            }
            return None;
        }
        acc = acc * 10 + d;
        i = i + 1;
    }
    assert(s@.subrange(start as int, i as int) =~= digits);
    if negative {
        let v: i64 = 0 - (acc as i64);
        Some(v as i32)
    } else if acc <= 2147483647 {
        Some(acc as i32)
    } else {
        None
    }
}

/// `s` read as an `i32`, or `default` where it is none: `s.parse().unwrap_or(default)`.
pub fn parse_i32_or(s: &str, default: i32) -> (r: i32)
    ensures
        r == parse_i32_or_spec(s@, default),
{
    match parse_i32(s) {
        Some(v) => v,
        None => default,
    }
}


proof fn lemma_digit_char_value(d: int)
    requires
        0 <= d < 10,
    ensures
        48 <= (digit_char(d) as int) <= 57,
        is_digit(digit_char(d)),
        digit_value(digit_char(d)) == d,
{
    assert(('0' as int) == 48);
    assert(('1' as int) == 49);
    assert(('2' as int) == 50);
    assert(('3' as int) == 51);
    assert(('4' as int) == 52);
    assert(('5' as int) == 53);
    assert(('6' as int) == 54);
    assert(('7' as int) == 55);
    assert(('8' as int) == 56);
    assert(('9' as int) == 57);
}

/// The decimal text of a natural number is made of ASCII digits only
/// (character codes 48 to 57), starts with a non-zero digit unless the number
/// is zero, and reads back as that number.
pub proof fn lemma_nat_decimal_digits(n: nat)
    ensures
        nat_decimal(n).len() >= 1,
        forall|i: int| 0 <= i < nat_decimal(n).len() ==> 48 <= (#[trigger] nat_decimal(n)[i] as int) <= 57,
        all_digits(nat_decimal(n)),
        digits_value(nat_decimal(n)) == n,
        n > 0 ==> nat_decimal(n)[0] != '0',
    decreases n,
{
    if n < 10 {
        lemma_digit_char_value(n as int);
        assert(nat_decimal(n) =~= seq![digit_char(n as int)]);
        assert(nat_decimal(n).drop_last() =~= Seq::<char>::empty());
        assert(digits_value(Seq::<char>::empty()) == 0);
        assert(nat_decimal(n).last() == digit_char(n as int));
        if n > 0 {
            assert(('0' as int) == 48);
        }
    } else {
        lemma_nat_decimal_digits(n / 10);
        lemma_digit_char_value((n % 10) as int);
        let t = nat_decimal(n / 10);
        assert(nat_decimal(n) == t.push(digit_char((n % 10) as int)));
        assert(nat_decimal(n).drop_last() =~= t);
        assert(nat_decimal(n).last() == digit_char((n % 10) as int));
        assert(digits_value(nat_decimal(n)) == digits_value(t) * 10 + digit_value(digit_char((n % 10) as int)));
        assert((n / 10) * 10 + n % 10 == n);
        assert forall|i: int| 0 <= i < nat_decimal(n).len() implies 48 <= (#[trigger] nat_decimal(n)[i] as int)
            <= 57 by {
            if i < t.len() {
                assert(nat_decimal(n)[i] == t[i]);
            }
        }
        assert(all_digits(nat_decimal(n))) by {
            assert forall|i: int| 0 <= i < nat_decimal(n).len() implies #[trigger] is_digit(nat_decimal(n)[i]) by {
                assert(48 <= (nat_decimal(n)[i] as int) <= 57);
            }
        }
        assert(nat_decimal(n)[0] == t[0]);
    }
}

/// Reading back the decimal text of an `i32` gives that number: what
/// [`i64_to_decimal`] writes, [`parse_i32`] reads, for every `i32`.
pub proof fn lemma_decimal_roundtrip(x: i32)
    ensures
        parse_i32_spec(int_decimal(x as int)) == Some(x),
{
    if x < 0 {
        let m = (-(x as int)) as nat;
        lemma_nat_decimal_digits(m);
        let s = int_decimal(x as int);
        assert(s == seq!['-'] + nat_decimal(m));
        assert(s[0] == '-');
        assert(s.drop_first() =~= nat_decimal(m));
    } else {
        lemma_nat_decimal_digits(x as nat);
        let s = int_decimal(x as int);
        assert(48 <= (s[0] as int) <= 57);
        assert(('-' as int) == 45);
        assert(('+' as int) == 43);
        assert(split_sign(s).1 == s);
    }
}

/// A text with a leading sign other than one `-` or `+`, any character that is
/// not an ASCII digit, or no digit at all is not an `i32`.
pub proof fn lemma_parse_rejects(s: Seq<char>)
    ensures
        s.len() == 0 ==> parse_i32_spec(s) is None,
        s == seq!['-'] || s == seq!['+'] ==> parse_i32_spec(s) is None,
        (exists|i: int| 1 <= i < s.len() && !(48 <= #[trigger] (s[i] as int) <= 57)) ==> parse_i32_spec(s) is None,
        s.len() > 0 && s[0] != '-' && s[0] != '+' && !(48 <= (s[0] as int) <= 57) ==> parse_i32_spec(s) is None,
{
    if exists|i: int| 1 <= i < s.len() && !(48 <= #[trigger] (s[i] as int) <= 57) {
        let i = choose|i: int| 1 <= i < s.len() && !(48 <= #[trigger] (s[i] as int) <= 57);
        let d = split_sign(s).1;
        if s[0] == '-' || s[0] == '+' {
            assert(d[i - 1] == s[i]);
            assert(!is_digit(d[i - 1]));
        } else {
            assert(d[i] == s[i]);
            assert(!is_digit(d[i]));
        }
    }
    if s.len() > 0 && s[0] != '-' && s[0] != '+' && !(48 <= (s[0] as int) <= 57) {
        assert(!is_digit(split_sign(s).1[0]));
    }
    if s == seq!['-'] || s == seq!['+'] {
        assert(split_sign(s).1.len() == 0);
    }
}
} // verus!
