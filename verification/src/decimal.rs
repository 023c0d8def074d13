//! Decimal notation of integers, as written into and read back from the
//! subject of a claim set.

use vstd::prelude::*;

verus! {

/// The character of the decimal digit `d`.
pub open spec fn digit_char(d: int) -> char
    recommends
        0 <= d <= 9,
{
    (0x30 + d) as char
}

/// `c` is one of `'0'` to `'9'`.
pub open spec fn is_digit(c: char) -> bool {
    0x30 <= c as u32 <= 0x39
}

/// The value of the decimal digit `c`.
pub open spec fn digit_value(c: char) -> int
    recommends
        is_digit(c),
{
    c as u32 - 0x30
}

/// The decimal digits of `n`, most significant first, without leading zeros.
pub open spec fn digits_of(n: nat) -> Seq<char>
    decreases n,
{
    if n < 10 {
        seq![digit_char(n as int)]
    } else {
        digits_of(n / 10).push(digit_char((n % 10) as int))
    }
}

/// The decimal notation of `n`: a minus sign for a negative number, then its
/// digits.
pub open spec fn decimal(n: int) -> Seq<char> {
    if n < 0 {
        seq!['-'] + digits_of((-n) as nat)
    } else {
        digits_of(n as nat)
    }
}

/// Every character of `s` is a decimal digit.
pub open spec fn all_digits(s: Seq<char>) -> bool {
    forall|i: int| 0 <= i < s.len() ==> is_digit(#[trigger] s[i])
}

/// The number that the digits `s` denote; zero for no digits.
pub open spec fn digits_value(s: Seq<char>) -> int
    decreases s.len(),
{
    if s.len() == 0 {
        0
    } else {
        digits_value(s.drop_last()) * 10 + digit_value(s.last())
    }
}

/// `s` begins with a sign character.
pub open spec fn has_sign(s: Seq<char>) -> bool {
    s.len() > 0 && (s[0] == '-' || s[0] == '+')
}

/// The integer written in `s`: an optional `+` or `-`, then one or more
/// decimal digits and nothing else. `None` for any other text.
pub open spec fn parse_decimal(s: Seq<char>) -> Option<int> {
    let body = if has_sign(s) {
        s.drop_first()
    } else {
        s
    };
    if body.len() == 0 || !all_digits(body) {
        None
    } else if s[0] == '-' {
        Some(-digits_value(body))
    } else {
        Some(digits_value(body))
    }
}

/// The 32-bit integer written in `s`, if `s` is a decimal integer in range.
pub open spec fn parse_i32(s: Seq<char>) -> Option<i32> {
    match parse_decimal(s) {
        Some(v) => if i32::MIN <= v <= i32::MAX {
            Some(v as i32)
        } else {
            None
        },
        None => None,
    }
}

fn digit_to_char(d: u32) -> (c: char)
    requires
        d <= 9,
    ensures
        c == digit_char(d as int),
        is_digit(c),
        digit_value(c) == d,
{
    let b: u8 = 0x30 + d as u8;
    b as char
}

/// The digits of a number are decimal digits, and denote that number.
pub proof fn lemma_digits_of(n: nat)
    ensures
        digits_of(n).len() >= 1,
        all_digits(digits_of(n)),
        digits_value(digits_of(n)) == n,
        !has_sign(digits_of(n)),
    decreases n,
{
    reveal_with_fuel(digits_value, 2);
    if n < 10 {
        let s = digits_of(n);
        assert(s.drop_last().len() == 0);
    } else {
        lemma_digits_of(n / 10);
        let head = digits_of(n / 10);
        let s = head.push(digit_char((n % 10) as int));
        assert(s.drop_last() =~= head);
        assert(s[0] == head[0]);
    }
}

/// Reading back the decimal notation of a number gives that number.
pub proof fn lemma_parse_decimal_of_decimal(n: int)
    ensures
        parse_decimal(decimal(n)) == Some(n),
{
    if n < 0 {
        let m = (-n) as nat;
        lemma_digits_of(m);
        let s = seq!['-'] + digits_of(m);
        assert(s.drop_first() =~= digits_of(m));
    } else {
        lemma_digits_of(n as nat);
    }
}

/// The decimal notation of `n`.
pub fn decimal_string(n: i32) -> (s: String)
    ensures
        s@ == decimal(n as int),
{
    let m0: u32 = if n < 0 {
        (-(n as i64)) as u32
    } else {
        n as u32
    };
    let mut rest: u32 = m0 / 10;
    let mut rev: Vec<char> = Vec::new();
    rev.push(digit_to_char(m0 % 10));
    while rest > 0
        invariant
            rev.len() >= 1,
            digits_of(m0 as nat) =~= (if rest > 0 {
                digits_of(rest as nat)
            } else {
                Seq::<char>::empty()
            }) + rev@.reverse(),
        decreases rest,
    {
        let d: char = digit_to_char(rest % 10);
        proof {
            let before = rev@;
            let after = rev@.push(d);
            assert(after.reverse() =~= seq![d] + before.reverse());
            if rest >= 10 {
                assert(digits_of(rest as nat) =~= digits_of((rest / 10) as nat).push(d));
            }
        }
        rev.push(d);
        rest = rest / 10;
    }
    let mut s: String = String::new();
    if n < 0 {
        s.push('-');
    }
    let ghost sign = s@;
    let mut i: usize = rev.len();
    while i > 0
        invariant
            i <= rev.len(),
            s@ =~= sign + rev@.reverse().take(rev.len() - i),
        decreases i,
    {
        i = i - 1;
        s.push(rev[i]);
        proof {
            let r = rev@.reverse();
            let k = rev.len() - i - 1;
            assert(r[k] == rev@[i as int]);
            assert(r.take(k + 1) =~= r.take(k).push(r[k]));
        }
    }
    proof {
        assert(rev@.reverse().take(rev.len() as int) =~= rev@.reverse());
    }
    s
}

/// More digits never denote a smaller number.
pub proof fn lemma_digits_value_prefix(s: Seq<char>, k: int)
    requires
        0 <= k <= s.len(),
        all_digits(s),
    ensures
        0 <= digits_value(s.take(k)) <= digits_value(s),
    decreases s.len() - k,
{
    if k == s.len() {
        assert(s.take(k) =~= s);
        lemma_digits_value_nonnegative(s);
    } else {
        let shorter = s.drop_last();
        assert(all_digits(shorter)) by {
            assert forall|i: int| 0 <= i < shorter.len() implies is_digit(
                #[trigger] shorter[i],
            ) by {
                assert(shorter[i] == s[i]);
            }
        }
        lemma_digits_value_prefix(shorter, k);
        assert(shorter.take(k) =~= s.take(k));
        assert(is_digit(s.last()));
    }
}

/// Digits denote a number that is not negative.
pub proof fn lemma_digits_value_nonnegative(s: Seq<char>)
    requires
        all_digits(s),
    ensures
        0 <= digits_value(s),
    decreases s.len(),
{
    if s.len() > 0 {
        let shorter = s.drop_last();
        assert forall|i: int| 0 <= i < shorter.len() implies is_digit(#[trigger] shorter[i]) by {
            assert(shorter[i] == s[i]);
        }
        lemma_digits_value_nonnegative(shorter);
        assert(is_digit(s.last()));
    }
}

/// Reads a 32-bit integer in decimal notation, as `str::parse::<i32>` does:
/// an optional sign, then digits only. `None` for any other text and for a
/// number out of range.
pub fn parse_i32_str(s: &str) -> (r: Option<i32>)
    ensures
        r == parse_i32(s@),
{
    let len: usize = s.unicode_len();
    if len == 0 {
        return None;
    }
    let first: char = s.get_char(0);
    let negative: bool = first == '-';
    let off: usize = if first == '-' || first == '+' {
        1
    } else {
        0
    };
    let ghost body = if has_sign(s@) {
        s@.drop_first()
    } else {
        s@
    };
    assert(body =~= s@.skip(off as int));
    let mut acc: i64 = 0;
    let mut i: usize = 0;
    for c in it: s.chars()
        invariant
            i == it.index(),
            it.seq() == s@,
            len == s@.len(),
            off <= len,
            off == (if has_sign(s@) {
                1int
            } else {
                0int
            }),
            body == s@.skip(off as int),
            body == (if has_sign(s@) {
                s@.drop_first()
            } else {
                s@
            }),
            0 <= acc <= 0x8000_0000,
            i >= off ==> all_digits(body.take(i - off)) && acc == digits_value(
                body.take(i - off),
            ),
            i < off ==> acc == 0,
    {
        if i >= off {
            let v: u32 = c as u32;
            let ghost k = i - off;
            assert(body[k] == c);
            assert(body.take(k + 1).drop_last() =~= body.take(k));
            assert(body.take(k + 1).last() == c);
            if !(0x30 <= v && v <= 0x39) {
                assert(!is_digit(body[k]));
                return None;
            }
            assert forall|j: int| 0 <= j < k + 1 implies is_digit(
                #[trigger] body.take(k + 1)[j],
            ) by {
                if j < k {
                    assert(body.take(k)[j] == body.take(k + 1)[j]);
                }
            }
            let next: i64 = acc * 10 + (v as i64 - 0x30);
            if next > 0x8000_0000 {
                proof {
                    if all_digits(body) {
                        lemma_digits_value_prefix(body, k + 1);
                        assert(digits_value(body) > 0x8000_0000);
                    }
                }
                return None;
            }
            acc = next;
        } else {
            assert(body.take(0) =~= Seq::<char>::empty());
        }
        i = i + 1;
    }
    proof {
        assert(body.take(len - off) =~= body);
    }
    if len == off {
        None
    } else if negative {
        Some((-acc) as i32)
    } else if acc <= 0x7FFF_FFFF {
        Some(acc as i32)
    } else {
        None
    }
}

} // verus!
