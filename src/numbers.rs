//! Reading integers and two-decimal numbers from text, and writing
//! two-decimal numbers.
use vstd::prelude::*;
use vstd::string::*;

use crate::text::{decimal, digit, u64_to_string};

verus! {

pub open spec fn is_digit(c: char) -> bool {
    '0' <= c && c <= '9'
}

pub open spec fn all_digits(s: Seq<char>) -> bool {
    forall|i: int| 0 <= i < s.len() ==> is_digit(#[trigger] s[i])
}

/// The value of a run of decimal digits (0 for an empty run).
pub open spec fn digits_value(s: Seq<char>) -> int
    decreases s.len(),
{
    if s.len() == 0 {
        0
    } else {
        digits_value(s.drop_last()) * 10 + (s.last() as int - 48)
    }
}

/// An optionally signed run of one or more digits, as `i64::from_str` reads it.
pub open spec fn int_text(s: Seq<char>) -> Option<int> {
    if s.len() > 1 && (s[0] == '-' || s[0] == '+') && all_digits(s.drop_first()) {
        if s[0] == '-' {
            Some(-digits_value(s.drop_first()))
        } else {
            Some(digits_value(s.drop_first()))
        }
    } else if s.len() > 0 && all_digits(s) {
        Some(digits_value(s))
    } else {
        None
    }
}

/// The `i64` a text denotes, if it is an integer in range.
pub open spec fn i64_text(s: Seq<char>) -> Option<i64> {
    match int_text(s) {
        Some(v) => if i64::MIN <= v <= i64::MAX {
            Some(v as i64)
        } else {
            None
        },
        None => None,
    }
}

const DIGITS_CAP: u128 = 9223372036854775809;

proof fn lemma_digits_nonneg(s: Seq<char>)
    requires
        all_digits(s),
    ensures
        digits_value(s) >= 0,
    decreases s.len(),
{
    if s.len() > 0 {
        assert(is_digit(s[s.len() - 1]));
        lemma_digits_nonneg(s.drop_last());
    }
}

/// The value of the digits in `s[from..]`, capped just above `i64::MAX + 1`;
/// `None` if any character there is not a digit.
fn digits_capped(s: &str, from: usize) -> (r: Option<u128>)
    requires
        from <= s@.len(),
    ensures
        match r {
            Some(v) => all_digits(s@.subrange(from as int, s@.len() as int)) && v as int == (if digits_value(
                s@.subrange(from as int, s@.len() as int),
            ) < DIGITS_CAP as int {
                digits_value(s@.subrange(from as int, s@.len() as int))
            } else {
                DIGITS_CAP as int
            }),
            None => !all_digits(s@.subrange(from as int, s@.len() as int)),
        },
{
    let n = s.unicode_len();
    let mut acc: u128 = 0;
    let mut i: usize = from;
    while i < n
        invariant
            n == s@.len(),
            from <= i <= n,
            all_digits(s@.subrange(from as int, i as int)),
            acc <= DIGITS_CAP,
            acc as int == (if digits_value(s@.subrange(from as int, i as int)) < DIGITS_CAP as int {
                digits_value(s@.subrange(from as int, i as int))
            } else {
                DIGITS_CAP as int
            }),
        decreases n - i,
    {
        let c = s.get_char(i);
        let ghost pre = s@.subrange(from as int, i as int);
        let ghost next = s@.subrange(from as int, i + 1);
        assert(next.drop_last() =~= pre);
        assert(next.last() == c);
        if !('0' <= c && c <= '9') {
            assert(!is_digit(s@.subrange(from as int, n as int)[i - from]));
            return None;
        }
        let d: u128 = (c as u32 - 48) as u128;
        proof {
            lemma_digits_nonneg(pre);
        }
        let grown: u128 = acc * 10 + d;
        acc = if grown < DIGITS_CAP {
            grown
        } else {
            DIGITS_CAP
        };
        assert(all_digits(next)) by {
            assert forall|k: int| 0 <= k < next.len() implies is_digit(#[trigger] next[k]) by {
                if k < pre.len() {
                    assert(next[k] == pre[k]);
                }
            }
        }
        i = i + 1;
    }
    Some(acc)
}

/// Reads an optionally signed decimal integer, as `i64::from_str` does.
pub fn parse_i64(s: &str) -> (r: Option<i64>)
    ensures
        r == i64_text(s@),
{
    let n = s.unicode_len();
    if n == 0 {
        return None;
    }
    let first = s.get_char(0);
    if (first == '-' || first == '+') && n > 1 {
        assert(s@.subrange(1, n as int) =~= s@.drop_first());
        match digits_capped(s, 1) {
            None => None,
            Some(v) => {
                if first == '-' {
                    if v <= 9223372036854775808 {
                        Some((0 - v as i128) as i64)
                    } else {
                        None
                    }
                } else {
                    if v <= 9223372036854775807 {
                        Some(v as i64)
                    } else {
                        None
                    }
                }
            },
        }
    } else {
        assert(s@.subrange(0, n as int) =~= s@);
        if first == '-' || first == '+' {
            assert(!is_digit(s@[0]));
            return None;
        }
        match digits_capped(s, 0) {
            None => None,
            Some(v) => {
                if v <= 9223372036854775807 {
                    Some(v as i64)
                } else {
                    None
                }
            },
        }
    }
}

pub open spec fn dot_index(s: Seq<char>) -> int {
    if exists|i: int| 0 <= i < s.len() && s[i] == '.' {
        choose|i: int| 0 <= i < s.len() && s[i] == '.' && forall|j: int| 0 <= j < i ==> s[j] != '.'
    } else {
        s.len() as int
    }
}

/// Some digit is not zero.
pub open spec fn has_nonzero(f: Seq<char>) -> bool {
    exists|i: int| 0 <= i < f.len() && f[i] != '0'
}

/// The fractional digit at position `i`, zero past the end.
pub open spec fn frac_digit(frac: Seq<char>, i: int) -> int {
    if i < frac.len() {
        frac[i] as int - 48
    } else {
        0
    }
}

/// An unsigned decimal such as `2`, `2.555` or `.75`, in hundredths rounded
/// to the nearest (a third decimal of 5 or more rounds up). A value above
/// zero never rounds to zero: it is at least one hundredth. At least one
/// digit must be present.
pub open spec fn unsigned_centi(s: Seq<char>) -> Option<int> {
    let k = dot_index(s);
    let whole = s.subrange(0, k);
    let frac = if k < s.len() {
        s.subrange(k + 1, s.len() as int)
    } else {
        Seq::empty()
    };
    let r = digits_value(whole) * 100 + frac_digit(frac, 0) * 10 + frac_digit(frac, 1) + (if frac_digit(
        frac,
        2,
    ) >= 5 {
        1int
    } else {
        0int
    });
    let above_zero = digits_value(whole) > 0 || has_nonzero(frac);
    if all_digits(whole) && all_digits(frac) && whole.len() + frac.len() > 0 {
        Some(
            if above_zero && r == 0 {
                1
            } else {
                r
            },
        )
    } else {
        None
    }
}

/// A decimal with an optional sign, in hundredths as `unsigned_centi` rounds
/// it; `None` when it is not a decimal or its size does not fit in an `i64`.
pub open spec fn centi_text(s: Seq<char>) -> Option<i64> {
    let signed = s.len() > 0 && (s[0] == '-' || s[0] == '+');
    let body = if signed {
        s.drop_first()
    } else {
        s
    };
    match unsigned_centi(body) {
        Some(v) => if v <= i64::MAX {
            Some(
                (if signed && s[0] == '-' {
                    -v
                } else {
                    v
                }) as i64,
            )
        } else {
            None
        },
        None => None,
    }
}

fn find_dot(s: &str) -> (r: usize)
    ensures
        r as int == dot_index(s@),
        r <= s@.len(),
{
    let n = s.unicode_len();
    let mut i: usize = 0;
    while i < n
        invariant
            n == s@.len(),
            i <= n,
            forall|j: int| 0 <= j < i ==> s@[j] != '.',
        decreases n - i,
    {
        if s.get_char(i) == '.' {
            assert(exists|q: int| 0 <= q < s@.len() && s@[q] == '.');
            let ghost c = choose|q: int|
                0 <= q < s@.len() && s@[q] == '.' && forall|j: int| 0 <= j < q ==> s@[j] != '.';
            assert(0 <= i < s@.len() && s@[i as int] == '.' && forall|j: int| 0 <= j < i ==> s@[j] != '.');
            assert(c == i) by {
                if c < i {
                    assert(s@[c] != '.');
                } else if c > i {
                    assert(s@[i as int] != '.');
                }
            }
            return i;
        }
        i = i + 1;
    }
    n
}

fn any_nonzero(frac: &str) -> (r: bool)
    ensures
        r == has_nonzero(frac@),
{
    let n = frac.unicode_len();
    let mut i: usize = 0;
    while i < n
        invariant
            n == frac@.len(),
            i <= n,
            forall|j: int| 0 <= j < i ==> frac@[j] == '0',
        decreases n - i,
    {
        if frac.get_char(i) != '0' {
            return true;
        }
        i = i + 1;
    }
    false
}

/// Reads an unsigned decimal in hundredths; `None` when it is not one or is
/// too large for an `i64`.
fn parse_unsigned_centi(s: &str) -> (r: Option<u128>)
    ensures
        match r {
            Some(v) => unsigned_centi(s@) == Some(v as int) && v <= i64::MAX,
            None => unsigned_centi(s@) is None || unsigned_centi(s@)->Some_0 > i64::MAX,
        },
{
    let n = s.unicode_len();
    let k = find_dot(s);
    let whole = s.substring_char(0, k);
    let frac_start = if k < n {
        k + 1
    } else {
        n
    };
    let frac = s.substring_char(frac_start, n);
    assert(frac@ == (if (k as int) < s@.len() {
        s@.subrange(k + 1, s@.len() as int)
    } else {
        Seq::<char>::empty()
    }));
    let wn = whole.unicode_len();
    let fnn = frac.unicode_len();
    if wn + fnn == 0 {
        return None;
    }
    assert(whole@.subrange(0, wn as int) =~= whole@);
    assert(frac@.subrange(0, fnn as int) =~= frac@);
    let w = match digits_capped(whole, 0) {
        None => return None,
        Some(v) => v,
    };
    if digits_capped(frac, 0).is_none() {
        return None;
    }
    proof {
        lemma_digits_nonneg(whole@);
    }
    if w >= 92233720368547759 {
        return None;
    }
    let f1: u128 = if fnn >= 1 {
        assert(is_digit(frac@[0]));
        (frac.get_char(0) as u32 - 48) as u128
    } else {
        0
    };
    let f2: u128 = if fnn >= 2 {
        assert(is_digit(frac@[1]));
        (frac.get_char(1) as u32 - 48) as u128
    } else {
        0
    };
    let f3: u128 = if fnn >= 3 {
        assert(is_digit(frac@[2]));
        (frac.get_char(2) as u32 - 48) as u128
    } else {
        0
    };
    let up: u128 = if f3 >= 5 {
        1
    } else {
        0
    };
    assert(w as int == digits_value(whole@));
    assert(f1 as int == frac_digit(frac@, 0));
    assert(f2 as int == frac_digit(frac@, 1));
    assert(f3 as int == frac_digit(frac@, 2));
    let rounded: u128 = w * 100 + f1 * 10 + f2 + up;
    let above_zero = w > 0 || any_nonzero(frac);
    assert(whole@ == s@.subrange(0, dot_index(s@)));
    assert(above_zero == (digits_value(whole@) > 0 || has_nonzero(frac@)));
    let v: u128 = if above_zero && rounded == 0 {
        1
    } else {
        rounded
    };
    assert(all_digits(whole@) && all_digits(frac@));
    assert((rounded as int) == digits_value(whole@) * 100 + frac_digit(frac@, 0) * 10 + frac_digit(
        frac@,
        1,
    ) + (if frac_digit(frac@, 2) >= 5 {
        1int
    } else {
        0int
    }));
    assert(unsigned_centi(s@) == Some(v as int));
    if v > 9223372036854775807 {
        return None;
    }
    Some(v)
}

/// Reads a decimal such as `2`, `+2.555`, `-1` or `.75`, in hundredths
/// rounded to the nearest, a value above zero giving at least one hundredth.
pub fn parse_centi(s: &str) -> (r: Option<i64>)
    ensures
        r == centi_text(s@),
{
    let n = s.unicode_len();
    let signed = n > 0 && (s.get_char(0) == '-' || s.get_char(0) == '+');
    if signed {
        let negative = s.get_char(0) == '-';
        let body = s.substring_char(1, n);
        assert(body@ =~= s@.drop_first());
        match parse_unsigned_centi(body) {
            None => None,
            Some(v) => {
                if negative {
                    Some(-(v as i64))
                } else {
                    Some(v as i64)
                }
            },
        }
    } else {
        match parse_unsigned_centi(s) {
            None => None,
            Some(v) => Some(v as i64),
        }
    }
}

/// Hundredths written with two decimals, e.g. `2.00` or `-0.50`.
pub open spec fn centi_display(h: i64) -> Seq<char> {
    let m: nat = if h < 0 {
        (-(h as int)) as nat
    } else {
        h as nat
    };
    (if h < 0 {
        "-"@
    } else {
        Seq::empty()
    }) + decimal(m / 100) + "."@ + seq![digit((m % 100) / 10), digit(m % 10)]
}

pub fn format_centi(h: i64) -> (r: String)
    ensures
        r@ == centi_display(h),
{
    let m: u64 = if h < 0 {
        ((-(h as i128)) as u64)
    } else {
        h as u64
    };
    let mut s = if h < 0 {
        String::from_str("-")
    } else {
        String::new()
    };
    let whole = u64_to_string(m / 100);
    s.append(whole.as_str());
    s.append(".");
    let tens = u64_to_string((m % 100) / 10);
    let ones = u64_to_string(m % 10);
    s.append(tens.as_str());
    s.append(ones.as_str());
    proof {
        reveal_strlit("-");
        reveal_strlit(".");
    }
    assert(s@ =~= centi_display(h));
    s
}

} // verus!
