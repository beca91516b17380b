use vstd::prelude::*;

verus! {

/// Decimal values are held in millionths.
pub const MICROS: u64 = 1_000_000;

/// The largest count a match-record field may hold.
pub const MAX_COUNT: u16 = 65535;

pub open spec fn is_digit(c: char) -> bool {
    '0' <= c && c <= '9'
}

pub open spec fn digit_value(c: char) -> nat {
    (c as u32 - '0' as u32) as nat
}

pub open spec fn all_digits(s: Seq<char>) -> bool {
    forall|i: int| 0 <= i < s.len() ==> #[trigger] is_digit(s[i])
}

/// The number written by a string of decimal digits, most significant first.
pub open spec fn digits_value(s: Seq<char>) -> nat
    decreases s.len(),
{
    if s.len() == 0 {
        0
    } else {
        digits_value(s.drop_last()) * 10 + digit_value(s.last())
    }
}

pub open spec fn pow10(n: nat) -> nat
    decreases n,
{
    if n == 0 {
        1
    } else {
        10 * pow10((n - 1) as nat)
    }
}

/// The text without one leading `+`.
pub open spec fn unsigned_body(s: Seq<char>) -> Seq<char> {
    if s.len() > 0 && s[0] == '+' {
        s.skip(1)
    } else {
        s
    }
}

/// A count field: an optional `+`, then one or more digits, at most 65535.
pub open spec fn count_field(s: Seq<char>) -> Option<nat> {
    let body = unsigned_body(s);
    if body.len() > 0 && all_digits(body) && digits_value(body) <= MAX_COUNT {
        Some(digits_value(body))
    } else {
        None
    }
}

/// The number of digits a string begins with.
pub open spec fn leading_digits(s: Seq<char>) -> nat
    decreases s.len(),
{
    if s.len() > 0 && is_digit(s[0]) {
        1 + leading_digits(s.skip(1))
    } else {
        0
    }
}

/// The first six fractional digits in millionths; further digits are dropped.
pub open spec fn fraction_micros(f: Seq<char>) -> nat {
    if f.len() >= 6 {
        digits_value(f.take(6))
    } else {
        digits_value(f) * pow10((6 - f.len()) as nat)
    }
}

/// A decimal field in millionths: an optional `+`, digits, and optionally a
/// point followed by digits, with at least one digit in all. Digits past the
/// sixth after the point are dropped; a value beyond `u64` is refused.
pub open spec fn decimal_field(s: Seq<char>) -> Option<nat> {
    let body = unsigned_body(s);
    let k = leading_digits(body) as int;
    let whole = body.take(k);
    let rest = body.skip(k);
    let frac = rest.skip(1);
    let well_formed = if rest.len() == 0 {
        k > 0
    } else {
        rest[0] == '.' && all_digits(frac) && (k > 0 || frac.len() > 0)
    };
    let value = digits_value(whole) * MICROS + if rest.len() == 0 {
        0
    } else {
        fraction_micros(frac)
    };
    if well_formed && value <= u64::MAX {
        Some(value as nat)
    } else {
        None
    }
}

proof fn lemma_digits_value_push(s: Seq<char>, i: int)
    requires
        0 <= i < s.len(),
    ensures
        digits_value(s.take(i + 1)) == digits_value(s.take(i)) * 10 + digit_value(s[i]),
{
    assert(s.take(i + 1).drop_last() == s.take(i));
}

proof fn lemma_leading_digits(s: Seq<char>, i: int)
    requires
        0 <= i <= s.len(),
        all_digits(s.take(i)),
        i == s.len() || !is_digit(s[i]),
    ensures
        leading_digits(s) == i,
    decreases i,
{
    if i > 0 {
        assert(is_digit(s.take(i)[0]));
        let t = s.skip(1);
        assert forall|j: int| 0 <= j < i - 1 implies #[trigger] is_digit(t.take(i - 1)[j]) by {
            assert(is_digit(s.take(i)[j + 1]));
        }
        lemma_leading_digits(t, i - 1);
    }
}

proof fn lemma_pow10_monotone(a: nat, b: nat)
    requires
        a <= b,
    ensures
        1 <= pow10(a) <= pow10(b),
    decreases b,
{
    if b > 0 {
        if a == b {
            lemma_pow10_monotone((a - 1) as nat, (b - 1) as nat);
        } else {
            lemma_pow10_monotone(a, (b - 1) as nat);
        }
    }
}

proof fn lemma_pow10_six()
    ensures
        pow10(6) == 1_000_000,
{
    reveal_with_fuel(pow10, 7);
}

proof fn lemma_digits_bound(s: Seq<char>)
    requires
        all_digits(s),
    ensures
        digits_value(s) < pow10(s.len()),
    decreases s.len(),
{
    if s.len() > 0 {
        let t = s.drop_last();
        assert(all_digits(t)) by {
            assert forall|i: int| 0 <= i < t.len() implies #[trigger] is_digit(t[i]) by {
                assert(is_digit(s[i]));
            }
        }
        lemma_digits_bound(t);
        assert(is_digit(s[s.len() - 1]));
    }
}

/// Reads a count field of a match record.
pub fn parse_count(s: &str) -> (r: Option<u16>)
    ensures
        r matches Some(v) ==> count_field(s@) == Some(v as nat),
        r is None ==> count_field(s@) is None,
{
    let n = s.unicode_len();
    let mut start: usize = 0;
    if n > 0 && s.get_char(0) == '+' {
        start = 1;
    }
    let ghost body = unsigned_body(s@);
    assert(body == s@.skip(start as int));
    if start == n {
        assert(body.len() == 0);
        return None;
    }
    // the value read so far, held at 65536 once it passes the largest count
    let mut acc: u32 = 0;
    let mut i: usize = start;
    while i < n
        invariant
            n == s@.len(),
            start <= i <= n,
            body == s@.skip(start as int),
            body == unsigned_body(s@),
            all_digits(body.take(i - start)),
            acc as nat == if digits_value(body.take(i - start)) <= MAX_COUNT {
                digits_value(body.take(i - start))
            } else {
                (MAX_COUNT + 1) as nat
            },
        decreases n - i,
    {
        let c = s.get_char(i);
        if c < '0' || c > '9' {
            assert(!is_digit(body[i - start]));
            assert(!all_digits(body));
            return None;
        }
        proof {
            lemma_digits_value_push(body, i - start);
            assert forall|j: int| 0 <= j < i - start + 1 implies #[trigger] is_digit(
                body.take(i - start + 1)[j],
            ) by {
                if j < i - start {
                    assert(is_digit(body.take(i - start)[j]));
                }
            }
        }
        let d = (c as u32) - ('0' as u32);
        let next = acc * 10 + d;
        acc = if next > 65535 {
            65536
        } else {
            next
        };
        i = i + 1;
    }
    assert(body.take(n - start) == body);
    if acc > 65535 {
        None
    } else {
        Some(acc as u16)
    }
}

/// Reads a decimal field of a match record, in millionths.
pub fn parse_decimal(s: &str) -> (r: Option<u64>)
    ensures
        r matches Some(v) ==> decimal_field(s@) == Some(v as nat),
        r is None ==> decimal_field(s@) is None,
{
    let n = s.unicode_len();
    let mut start: usize = 0;
    if n > 0 && s.get_char(0) == '+' {
        start = 1;
    }
    let ghost body = unsigned_body(s@);
    assert(body == s@.skip(start as int));
    // the whole part, held at `cap` once it is too large for the result:
    // `cap` millions exceed `u64::MAX`
    let cap: u128 = 18_446_744_073_710;
    let mut whole: u128 = 0;
    let mut i: usize = start;
    while i < n
        invariant
            n == s@.len(),
            start <= i <= n,
            body == s@.skip(start as int),
            cap == 18_446_744_073_710,
            all_digits(body.take(i - start)),
            whole as nat == if digits_value(body.take(i - start)) < cap {
                digits_value(body.take(i - start))
            } else {
                cap as nat
            },
        ensures
            i == n || !is_digit(body[i - start]),
        decreases n - i,
    {
        let c = s.get_char(i);
        if c < '0' || c > '9' {
            break;
        }
        proof {
            lemma_digits_value_push(body, i - start);
            assert forall|j: int| 0 <= j < i - start + 1 implies #[trigger] is_digit(
                body.take(i - start + 1)[j],
            ) by {
                if j < i - start {
                    assert(is_digit(body.take(i - start)[j]));
                }
            }
        }
        let d = ((c as u32) - ('0' as u32)) as u128;
        let next = whole * 10 + d;
        whole = if next >= cap {
            cap
        } else {
            next
        };
        i = i + 1;
    }
    let k: usize = i - start;
    proof {
        lemma_leading_digits(body, k as int);
    }
    let ghost rest = body.skip(k as int);
    assert(rest == s@.skip(i as int));
    let mut fraction: u128 = 0;
    if i < n {
        if s.get_char(i) != '.' {
            return None;
        }
        let ghost frac = rest.skip(1);
        assert(frac == s@.skip(i + 1));
        let fstart: usize = i + 1;
        let mut j: usize = fstart;
        // the first six fractional digits
        while j < n
            invariant
                n == s@.len(),
                fstart <= j <= n,
                frac == s@.skip(fstart as int),
                frac == rest.skip(1),
                rest.len() > 0,
                rest[0] == '.',
                body == unsigned_body(s@),
                leading_digits(body) == k,
                rest == body.skip(k as int),
                all_digits(frac.take(j - fstart)),
                j - fstart <= 6 ==> fraction as nat == digits_value(frac.take(j - fstart)),
                j - fstart > 6 ==> fraction as nat == digits_value(frac.take(6)),
                fraction < 1_000_000,
            decreases n - j,
        {
            let c = s.get_char(j);
            if c < '0' || c > '9' {
                assert(!is_digit(frac[j - fstart]));
                assert(!all_digits(frac));
                return None;
            }
            proof {
                assert forall|t: int| 0 <= t < j - fstart + 1 implies #[trigger] is_digit(
                    frac.take(j - fstart + 1)[t],
                ) by {
                    if t < j - fstart {
                        assert(is_digit(frac.take(j - fstart)[t]));
                    }
                }
            }
            if j - fstart < 6 {
                proof {
                    lemma_digits_value_push(frac, j - fstart);
                }
                let d = ((c as u32) - ('0' as u32)) as u128;
                proof {
                    lemma_digits_bound(frac.take(j - fstart + 1));
                    lemma_pow10_monotone((j - fstart + 1) as nat, 6);
                    lemma_pow10_six();
                }
                fraction = fraction * 10 + d;
            }
            j = j + 1;
        }
        assert(frac.take(n - fstart) == frac);
        if k == 0 && fstart == n {
            return None;
        }
        let used: usize = if n - fstart >= 6 {
            6
        } else {
            n - fstart
        };
        proof {
            lemma_digits_bound(frac.take(used as int));
            lemma_pow10_monotone(used as nat, 6);
            lemma_pow10_six();
            let v = digits_value(frac.take(used as int));
            assert(pow10(0) == 1);
            assert(v * pow10(0) == v) by (nonlinear_arith)
                requires
                    pow10(0) == 1,
            ;
        }
        let mut m: usize = used;
        while m < 6
            invariant
                used <= m <= 6,
                used == if frac.len() >= 6 {
                    6
                } else {
                    frac.len()
                },
                fraction as nat == digits_value(frac.take(used as int)) * pow10((m - used) as nat),
                fraction < pow10(m as nat),
                pow10(m as nat) <= pow10(6),
                pow10(6) == 1_000_000,
            decreases 6 - m,
        {
            proof {
                lemma_pow10_monotone((m + 1) as nat, 6);
                let v = digits_value(frac.take(used as int));
                let p = pow10((m - used) as nat);
                assert(pow10((m + 1 - used) as nat) == 10 * p);
                assert(v * (10 * p) == (v * p) * 10) by (nonlinear_arith);
            }
            fraction = fraction * 10;
            m = m + 1;
        }
        assert(frac.take(used as int) == frac || frac.len() >= 6);
        assert(fraction as nat == fraction_micros(frac));
    } else if k == 0 {
        return None;
    }
    if whole >= cap {
        return None;
    }
    let total: u128 = whole * 1_000_000 + fraction;
    if total > u64::MAX as u128 {
        None
    } else {
        Some(total as u64)
    }
}

} // verus!
