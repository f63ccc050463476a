use vstd::prelude::*;
use crate::body::{in_limit, INPUT_LIMIT};

verus! {

pub open spec fn is_digit(b: u8) -> bool {
    48 <= b <= 57
}

pub open spec fn all_digits(s: Seq<u8>) -> bool {
    forall|i: int| 0 <= i < s.len() ==> is_digit(#[trigger] s[i])
}

/// The number that a string of decimal digits spells.
pub open spec fn digits_value(s: Seq<u8>) -> int
    decreases s.len(),
{
    if s.len() == 0 {
        0
    } else {
        digits_value(s.drop_last()) * 10 + (s.last() - 48)
    }
}

/// Thousandths per unit of the last place of a fraction of `n` digits.
pub open spec fn fraction_scale(n: int) -> int {
    if n == 0 {
        1000
    } else if n == 1 {
        100
    } else if n == 2 {
        10
    } else {
        1
    }
}

/// `b` is digits, a point at `k`, and at most three digits, with at least one digit.
pub open spec fn is_point_at(b: Seq<u8>, k: int) -> bool {
    &&& 0 <= k < b.len()
    &&& b[k] == 46u8
    &&& all_digits(b.subrange(0, k))
    &&& all_digits(b.subrange(k + 1, b.len() as int))
    &&& b.len() - (k + 1) <= 3
    &&& b.len() > 1
}

/// The value in thousandths of an unsigned decimal: digits, or digits with a point
/// and at most three fractional digits.
pub open spec fn unsigned_milli(b: Seq<u8>) -> Option<int> {
    if all_digits(b) {
        if b.len() > 0 {
            Some(digits_value(b) * 1000)
        } else {
            None
        }
    } else if exists|k: int| is_point_at(b, k) {
        let k = choose|k: int| is_point_at(b, k);
        let frac = b.subrange(k + 1, b.len() as int);
        Some(digits_value(b.subrange(0, k)) * 1000 + digits_value(frac) * fraction_scale(frac.len() as int))
    } else {
        None
    }
}

/// `b` without its leading sign, if any.
pub open spec fn unsigned_part(b: Seq<u8>) -> Seq<u8> {
    if b.len() > 0 && (b[0] == 45u8 || b[0] == 43u8) {
        b.drop_first()
    } else {
        b
    }
}

/// The value in thousandths of a decimal with an optional sign (`-` or `+`), or
/// `None` where the text is no such decimal or its magnitude exceeds `INPUT_LIMIT`.
pub open spec fn spec_parse_milli(b: Seq<u8>) -> Option<int> {
    let negative = b.len() > 0 && b[0] == 45u8;
    match unsigned_milli(unsigned_part(b)) {
        Some(v) => if v <= INPUT_LIMIT {
            Some(if negative { -v } else { v })
        } else {
            None
        },
        None => None,
    }
}

proof fn lemma_digits_value_nonneg(s: Seq<u8>)
    requires
        all_digits(s),
    ensures
        digits_value(s) >= 0,
    decreases s.len(),
{
    if s.len() > 0 {
        assert(all_digits(s.drop_last()));
        lemma_digits_value_nonneg(s.drop_last());
        assert(is_digit(s[s.len() - 1]));
    }
}

proof fn lemma_point_unique(b: Seq<u8>, k: int, j: int)
    requires
        is_point_at(b, k),
        is_point_at(b, j),
    ensures
        k == j,
{
    if j < k {
        assert(b.subrange(0, k)[j] == b[j]);
    } else if k < j {
        assert(b.subrange(0, j)[k] == b[k]);
    }
}

/// Caps a running value just above one million.
spec fn capped(x: int) -> int {
    if x > 1_000_000 {
        1_000_001
    } else {
        x
    }
}

/// Reads a decimal with an optional sign and at most three fractional digits, in
/// thousandths.
pub fn parse_milli(b: &[u8]) -> (r: Option<i64>)
    ensures
        r matches Some(v) ==> spec_parse_milli(b@) == Some(v as int) && in_limit(v as int),
        r is None ==> spec_parse_milli(b@) is None,
{
    let n = b.len();
    let negative = n > 0 && b[0] == 45u8;
    let start: usize = if n > 0 && (b[0] == 45u8 || b[0] == 43u8) { 1 } else { 0 };
    let ghost body = unsigned_part(b@);
    assert(body =~= b@.subrange(start as int, n as int));
    let mut i: usize = start;
    let mut whole: i64 = 0;
    while i < n && 48u8 <= b[i] && b[i] <= 57u8
        invariant
            start <= i <= n,
            n == b@.len(),
            body =~= b@.subrange(start as int, n as int),
            body == unsigned_part(b@),
            negative == (n > 0 && b@[0] == 45u8),
            all_digits(b@.subrange(start as int, i as int)),
            whole == capped(digits_value(b@.subrange(start as int, i as int))),
        decreases n - i,
    {
        let ghost prev = b@.subrange(start as int, i as int);
        let ghost next = b@.subrange(start as int, i + 1);
        assert(next.drop_last() =~= prev);
        proof {
            lemma_digits_value_nonneg(prev);
        }
        let d = (b[i] - 48u8) as i64;
        if whole > 1_000_000 {
            whole = 1_000_001;
        } else {
            whole = whole * 10 + d;
            if whole > 1_000_000 {
                whole = 1_000_001;
            }
        }
        i = i + 1;
        assert(all_digits(next)) by {
            assert forall|j: int| 0 <= j < next.len() implies is_digit(#[trigger] next[j]) by {
                if j < prev.len() {
                    assert(next[j] == prev[j]);
                }
            }
        }
    }
    let ghost ip = b@.subrange(start as int, i as int);
    proof {
        lemma_digits_value_nonneg(ip);
    }
    assert(body.subrange(0, i - start) =~= ip);
    let mut frac: i64 = 0;
    let mut frac_len: usize = 0;
    if i < n {
        if b[i] != 46u8 {
            proof {
                let p = (i - start) as int;
                assert(body[p] == b@[i as int]);
                assert(!all_digits(body));
                assert forall|k: int| !is_point_at(body, k) by {
                    if is_point_at(body, k) && k > p {
                        assert(body.subrange(0, k)[p] == body[p]);
                    }
                    if is_point_at(body, k) && k < p {
                        assert(ip[k] == body[k]);
                    }
                }
            }
            return None;
        }
        let ghost k = (i - start) as int;
        let ghost fr = body.subrange(k + 1, body.len() as int);
        if n - i - 1 > 3 {
            proof {
                assert forall|j: int| !is_point_at(body, j) by {
                    if is_point_at(body, j) && j != k {
                        if j < k {
                            assert(ip[j] == body[j]);
                        } else {
                            assert(body.subrange(0, j)[k] == body[k]);
                        }
                    }
                }
                assert(!all_digits(body)) by {
                    assert(body[k] == 46u8);
                }
            }
            return None;
        }
        let mut j: usize = i + 1;
        while j < n
            invariant
                i < j <= n,
                start <= i,
                n - i - 1 <= 3,
                b@[i as int] == 46u8,
                body =~= b@.subrange(start as int, n as int),
                body == unsigned_part(b@),
                negative == (n > 0 && b@[0] == 45u8),
                k == i - start,
                fr == body.subrange(k + 1, body.len() as int),
                ip == b@.subrange(start as int, i as int),
                all_digits(ip),
                n == b@.len(),
                frac_len == j - i - 1,
                all_digits(b@.subrange(i + 1, j as int)),
                frac == digits_value(b@.subrange(i + 1, j as int)),
                0 <= frac < 1000,
            decreases n - j,
        {
            if b[j] < 48u8 || b[j] > 57u8 {
                proof {
                    assert(fr[j - i - 1] == b@[j as int]);
                    assert(!all_digits(body)) by {
                        assert(body[k] == 46u8);
                    }
                    assert forall|m: int| !is_point_at(body, m) by {
                        if is_point_at(body, m) {
                            if m < k {
                                assert(ip[m] == body[m]);
                            } else if m > k {
                                assert(body.subrange(0, m)[k] == body[k]);
                            } else {
                                assert(fr[j - i - 1] == body.subrange(m + 1, body.len() as int)[j - i - 1]);
                            }
                        }
                    }
                }
                return None;
            }
            let ghost prev = b@.subrange(i + 1, j as int);
            let ghost next = b@.subrange(i + 1, j + 1);
            assert(next.drop_last() =~= prev);
            assert(all_digits(next)) by {
                assert forall|m: int| 0 <= m < next.len() implies is_digit(#[trigger] next[m]) by {
                    if m < prev.len() {
                        assert(next[m] == prev[m]);
                    }
                }
            }
            proof {
                lemma_digits_value_bound(next);
                reveal_with_fuel(pow10, 4);
                assert(pow10(3) == 1000);
            }
            frac = frac * 10 + (b[j] - 48u8) as i64;
            frac_len = frac_len + 1;
            j = j + 1;
        }
        if i == start && frac_len == 0 {
            proof {
                assert(body.len() == 1);
                assert(body[0] == b@[i as int]);
                assert(!all_digits(body)) by {
                    assert(body[0] == 46u8);
                }
                assert forall|m: int| !is_point_at(body, m) by {}
            }
            return None;
        }
        proof {
            assert(fr =~= b@.subrange(i + 1, n as int));
            assert(is_point_at(body, k));
            assert(!all_digits(body)) by {
                assert(body[k] == 46u8);
            }
            let c = choose|m: int| is_point_at(body, m);
            lemma_point_unique(body, c, k);
        }
    } else {
        if i == start {
            return None;
        }
        assert(ip =~= body);
    }
    if whole > 1_000_000 {
        return None;
    }
    let scale: i64 = if frac_len == 0 {
        1000
    } else if frac_len == 1 {
        100
    } else if frac_len == 2 {
        10
    } else {
        1
    };
    let v: i64 = whole * 1000 + frac * scale;
    if v > INPUT_LIMIT {
        return None;
    }
    if negative {
        Some(-v)
    } else {
        Some(v)
    }
}

proof fn lemma_digits_value_bound(s: Seq<u8>)
    requires
        all_digits(s),
    ensures
        digits_value(s) < pow10(s.len() as nat),
    decreases s.len(),
{
    if s.len() > 0 {
        assert(all_digits(s.drop_last()));
        lemma_digits_value_bound(s.drop_last());
        assert(is_digit(s[s.len() - 1]));
    }
}

spec fn pow10(n: nat) -> int
    decreases n,
{
    if n == 0 {
        1
    } else {
        10 * pow10((n - 1) as nat)
    }
}

} // verus!
