//! Checks on single text fields.

use vstd::prelude::*;
use vstd::string::StringSliceAdditionalSpecFns;
use crate::text::{is_blank, is_blank_str, trimmed};

verus! {

/// The text reads as an address: it has an `@`, and between its first `@`
/// and the next one, or the end, stands a dot.
pub open spec fn email_shaped(s: Seq<char>) -> bool {
    exists|at: int, dot: int|
        0 <= at < dot < s.len() && s[at] == '@' && s[dot] == '.' && #[trigger] no_at_but(
            s,
            at,
            dot,
        )
}

/// Before position `end`, `s` holds no `@` other than the one at `at`.
pub open spec fn no_at_but(s: Seq<char>, at: int, end: int) -> bool {
    forall|k: int| 0 <= k < end && k != at ==> #[trigger] s[k] != '@'
}

/// Tells whether `value` holds anything but white space.
pub fn is_not_empty(value: &str) -> (filled: bool)
    ensures
        filled == !is_blank(value@),
        filled == (trimmed(value@).len() > 0),
{
    !is_blank_str(value)
}

/// Tells whether `value` is at least `min_length` bytes long in UTF-8.
pub fn has_min_length(value: &str, min_length: usize) -> (long_enough: bool)
    ensures
        long_enough == (value.spec_bytes().len() >= min_length),
{
    value.as_bytes().len() >= min_length
}

/// Tells whether `email` has the basic shape of an address.
pub fn is_valid_email(email: &str) -> (valid: bool)
    ensures
        valid == email_shaped(email@),
{
    let ghost s = email@;
    let mut at: Option<usize> = None;
    let mut i: usize = 0;
    let len: usize = email.unicode_len();
    for c in it: email.chars()
        invariant
            i == it.index(),
            it.seq() == s,
            s == email@,
            len == s.len(),
            at is None ==> forall|k: int| 0 <= k < i ==> #[trigger] s[k] != '@',
            at matches Some(a) ==> a < i && s[a as int] == '@' && no_at_but(s, a as int, i as int)
                && forall|k: int| a < k < i ==> #[trigger] s[k] != '.',
    {
        match at {
            None => {
                if c == '@' {
                    at = Some(i);
                }
            },
            Some(a) => {
                if c == '.' {
                    assert(no_at_but(s, a as int, i as int));
                    assert(s[i as int] == '.');
                    return true;
                }
                if c == '@' {
                    assert forall|p: int, q: int|
                        0 <= p < q < s.len() && s[p] == '@' && s[q] == '.' implies !#[trigger] no_at_but(
                        s,
                        p,
                        q,
                    ) by {
                        if p < a {
                            assert(s[a as int] == '@');
                        } else if p == a {
                            if q < i {
                                assert(s[q] != '.');
                            } else {
                                assert(s[i as int] == '@');
                            }
                        } else if p < i {
                            assert(s[p] != '@');
                        } else {
                            assert(s[a as int] == '@');
                        }
                    }
                    return false;
                }
            },
        }
        i = i + 1;
    }
    proof {
        assert forall|p: int, q: int|
            0 <= p < q < s.len() && s[p] == '@' && s[q] == '.' implies !#[trigger] no_at_but(
            s,
            p,
            q,
        ) by {
            match at {
                None => {
                    assert(s[p] != '@');
                },
                Some(a) => {
                    if p < a {
                        assert(s[a as int] == '@');
                    } else if p == a {
                        assert(s[q] != '.');
                    } else {
                        assert(s[p] != '@');
                    }
                },
            }
        }
    }
    false
}

} // verus!
