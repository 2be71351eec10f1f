//! The fixed-point converter: an external decimal price string becomes an
//! unsigned integer scaled by `PRICE_SCALE`, truncating toward zero, with the
//! saturation of a native float-to-int cast at the ends of the `u32` range.

use vstd::prelude::*;

use crate::Error;
use crate::PRICE_SCALE;

verus! {

pub open spec fn is_ascii_digit(b: u8) -> bool {
    48 <= b <= 57
}

pub open spec fn all_digits(s: Seq<u8>) -> bool {
    forall|i: int| 0 <= i < s.len() ==> is_ascii_digit(s[i])
}

/// The number that a string of decimal digits denotes.
pub open spec fn digits_val(s: Seq<u8>) -> int
    decreases s.len(),
{
    if s.len() == 0 {
        0
    } else {
        digits_val(s.drop_last()) * 10 + (s.last() - 48)
    }
}

pub open spec fn pow10(n: nat) -> int
    decreases n,
{
    if n == 0 {
        1
    } else {
        10 * pow10((n - 1) as nat)
    }
}

/// Index of the first `.` in `s`, or `s.len()` if there is none.
pub open spec fn first_dot(s: Seq<u8>) -> int
    decreases s.len(),
{
    if s.len() == 0 {
        0
    } else if s[0] == 46 {
        0
    } else {
        1 + first_dot(s.skip(1))
    }
}

/// The input without its optional leading sign.
pub open spec fn unsigned_digits(s: Seq<u8>) -> Seq<u8> {
    if s.len() > 0 && (s[0] == 43 || s[0] == 45) {
        s.skip(1)
    } else {
        s
    }
}

pub open spec fn is_negative(s: Seq<u8>) -> bool {
    s.len() > 0 && s[0] == 45
}

pub open spec fn int_part(t: Seq<u8>) -> Seq<u8> {
    t.take(first_dot(t))
}

pub open spec fn frac_part(t: Seq<u8>) -> Seq<u8> {
    if first_dot(t) == t.len() {
        Seq::empty()
    } else {
        t.skip(first_dot(t) + 1)
    }
}

/// A decimal number: an optional sign, then digits with at most one point,
/// at least one digit in all.
pub open spec fn valid_decimal(s: Seq<u8>) -> bool {
    &&& all_digits(int_part(unsigned_digits(s)))
    &&& all_digits(frac_part(unsigned_digits(s)))
    &&& int_part(unsigned_digits(s)).len() + frac_part(unsigned_digits(s)).len() >= 1
}

/// The fractional digits contribute the first four of them, padded with
/// zeros: every later digit is truncated away by the scaling.
pub open spec fn frac_scaled(f: Seq<u8>) -> int {
    if f.len() >= 4 {
        digits_val(f.take(4))
    } else {
        digits_val(f) * pow10((4 - f.len()) as nat)
    }
}

/// The exact mathematical value of the input times `PRICE_SCALE`, truncated
/// toward zero.
pub open spec fn scaled_value(s: Seq<u8>) -> int {
    digits_val(int_part(unsigned_digits(s))) * (PRICE_SCALE as int) + frac_scaled(
        frac_part(unsigned_digits(s)),
    )
}

/// What conversion returns: `None` for input that does not denote a decimal
/// number; otherwise the scaled value, clamped into the `u32` range as a
/// native float-to-int cast would clamp it.
pub open spec fn parse_price(s: Seq<u8>) -> Option<u32> {
    if !valid_decimal(s) {
        None
    } else if is_negative(s) {
        Some(0u32)
    } else if scaled_value(s) > u32::MAX {
        Some(u32::MAX)
    } else {
        Some(scaled_value(s) as u32)
    }
}

proof fn lemma_digits_val_push(s: Seq<u8>, b: u8)
    ensures
        digits_val(s.push(b)) == digits_val(s) * 10 + (b - 48),
{
    assert(s.push(b).drop_last() =~= s);
    assert(s.push(b).last() == b);
}

proof fn lemma_digits_val_bound(s: Seq<u8>)
    requires
        all_digits(s),
    ensures
        0 <= digits_val(s) < pow10(s.len()),
    decreases s.len(),
{
    if s.len() > 0 {
        lemma_digits_val_bound(s.drop_last());
    }
}

proof fn lemma_pow10_small()
    ensures
        pow10(0) == 1,
        pow10(1) == 10,
        pow10(2) == 100,
        pow10(3) == 1000,
        pow10(4) == 10000,
{
    assert(pow10(1) == 10 * pow10(0));
    assert(pow10(2) == 10 * pow10(1));
    assert(pow10(3) == 10 * pow10(2));
    assert(pow10(4) == 10 * pow10(3));
}

proof fn lemma_first_dot(s: Seq<u8>)
    ensures
        0 <= first_dot(s) <= s.len(),
        first_dot(s) < s.len() ==> s[first_dot(s)] == 46,
        forall|j: int| 0 <= j < first_dot(s) ==> s[j] != 46,
    decreases s.len(),
{
    if s.len() > 0 && s[0] != 46 {
        let tail = s.skip(1);
        lemma_first_dot(tail);
        assert forall|j: int| 0 <= j < first_dot(s) implies s[j] != 46 by {
            if j > 0 {
                assert(s[j] == tail[j - 1]);
            }
        }
    }
}

/// Turns the fetched decimal byte string into the scaled fixed-point price.
/// Input that does not denote a decimal number is rejected with `ParseError`.
pub fn vec_to_u32(val_u8: Vec<u8>) -> (r: Result<u32, Error>)
    ensures
        parse_price(val_u8@) matches Some(p) ==> r == Ok::<u32, Error>(p),
        parse_price(val_u8@) is None ==> r == Err::<u32, Error>(Error::ParseError),
{
    let ghost sv = val_u8@;
    let n = val_u8.len();
    let mut i: usize = 0;
    let mut neg = false;
    if n > 0 && (val_u8[0] == 43 || val_u8[0] == 45) {
        neg = val_u8[0] == 45;
        i = 1;
    }
    let start = i;
    let ghost t = unsigned_digits(sv);
    proof {
        assert(t =~= sv.skip(start as int));
        lemma_first_dot(t);
        lemma_pow10_small();
    }

    // integer part, accumulated with saturation one past the u32 range
    let mut int_acc: u64 = 0;
    while i < n && 48 <= val_u8[i] && val_u8[i] <= 57
        invariant
            sv == val_u8@,
            n == sv.len(),
            start <= i <= n,
            start <= 1,
            forall|j: int| start <= j < i ==> is_ascii_digit(sv[j]),
            int_acc <= 4294967296,
            digits_val(sv.subrange(start as int, i as int)) <= 4294967295 ==> int_acc
                == digits_val(sv.subrange(start as int, i as int)),
            digits_val(sv.subrange(start as int, i as int)) > 4294967295 ==> int_acc
                == 4294967296,
        decreases n - i,
    {
        let b = val_u8[i];
        proof {
            let ip = sv.subrange(start as int, i as int);
            assert(sv.subrange(start as int, i as int + 1) =~= ip.push(b));
            lemma_digits_val_push(ip, b);
            lemma_digits_val_bound(ip);
        }
        let d = (b - 48) as u64;
        if int_acc > 4294967295 {
            int_acc = 4294967296;
        } else {
            int_acc = int_acc * 10 + d;
            if int_acc > 4294967295 {
                int_acc = 4294967296;
            }
        }
        i = i + 1;
    }
    let int_end = i;
    let ghost fd = first_dot(t);

    let mut f4: u64 = 0;
    let mut cnt: usize = 0;
    let mut frac_len: usize = 0;
    if int_end < n {
        let b = val_u8[int_end];
        if b != 46 {
            // a character that is neither digit nor point: the integer part
            // of the number would have to contain it
            proof {
                assert(t[int_end - start] == sv[int_end as int]);
                assert(fd > int_end - start);
                assert(!is_ascii_digit(int_part(t)[int_end - start]));
            }
            return Err(Error::ParseError);
        }
        proof {
            assert(t[int_end - start] == 46);
            assert(fd == int_end - start);
        }
        // fractional part: every character must be a digit; the first four
        // carry into the scaled value
        let mut j = int_end + 1;
        while j < n
            invariant
                sv == val_u8@,
                n == sv.len(),
                int_end + 1 <= j <= n,
                int_end < n,
                start <= int_end,
                t == sv.skip(start as int),
                t == unsigned_digits(sv),
                first_dot(t) == int_end - start,
                forall|k: int| int_end + 1 <= k < j ==> is_ascii_digit(sv[k]),
                j - (int_end + 1) < 4 ==> cnt == j - (int_end + 1),
                j - (int_end + 1) >= 4 ==> cnt == 4,
                cnt <= 4,
                f4 == digits_val(sv.subrange(int_end + 1 as int, int_end + 1 + cnt as int)),
                f4 < pow10(cnt as nat),
                pow10(0) == 1 && pow10(1) == 10 && pow10(2) == 100 && pow10(3) == 1000 && pow10(
                    4,
                ) == 10000,
            decreases n - j,
        {
            let b2 = val_u8[j];
            if b2 < 48 || b2 > 57 {
                proof {
                    let m = j - (int_end + 1);
                    assert(first_dot(t) < t.len());
                    assert(frac_part(t)[m] == t[first_dot(t) + 1 + m]);
                    assert(t[first_dot(t) + 1 + m] == sv[j as int]);
                    assert(!all_digits(frac_part(unsigned_digits(sv))));
                }
                return Err(Error::ParseError);
            }
            if cnt < 4 {
                proof {
                    let fp_seen = sv.subrange(int_end + 1 as int, int_end + 1 + cnt as int);
                    assert(sv.subrange(int_end + 1 as int, int_end + 1 + (cnt + 1) as int)
                        =~= fp_seen.push(b2));
                    lemma_digits_val_push(fp_seen, b2);
                }
                f4 = f4 * 10 + ((b2 - 48) as u64);
                cnt = cnt + 1;
            }
            j = j + 1;
        }
        frac_len = n - (int_end + 1);
    } else {
        proof {
            assert(fd == t.len());
        }
    }

    let ghost ip = int_part(t);
    let ghost fp = frac_part(t);
    proof {
        assert(ip =~= sv.subrange(start as int, int_end as int));
        if fd < t.len() {
            assert(fp =~= sv.subrange(int_end + 1 as int, n as int));
        } else {
            assert(fp =~= Seq::<u8>::empty());
        }
        assert(all_digits(ip));
        assert(all_digits(fp));
    }

    if int_end - start == 0 && frac_len == 0 {
        proof {
            assert(ip.len() + fp.len() == 0);
        }
        return Err(Error::ParseError);
    }
    proof {
        assert(valid_decimal(sv));
    }

    proof {
        assert(pow10(2) == 100 && pow10(3) == 1000);
        assert(cnt <= 4);
        assert(frac_len < 4 ==> cnt == frac_len);
        assert(f4 < pow10(cnt as nat));
    }
    // the scaled fractional contribution
    let f4s: u64 = if frac_len >= 4 {
        proof {
            assert(fp.take(4) =~= sv.subrange(int_end + 1 as int, int_end + 1 + cnt as int));
        }
        f4
    } else {
        proof {
            if fd < t.len() {
                assert(fp =~= sv.subrange(int_end + 1 as int, int_end + 1 + cnt as int));
            }
        }
        if frac_len == 0 {
            proof {
                assert(digits_val(fp) == 0);
            }
            0
        } else if frac_len == 1 {
            f4 * 1000
        } else if frac_len == 2 {
            f4 * 100
        } else {
            f4 * 10
        }
    };
    proof {
        assert(f4s == frac_scaled(fp));
        assert(f4s < 10000);
        lemma_digits_val_bound(fp);
    }

    if neg {
        return Ok(0);
    }
    let ghost dv = digits_val(ip);
    let total: u64 = int_acc * 10000 + f4s;
    proof {
        lemma_digits_val_bound(ip);
        if dv <= 4294967295 {
            assert(total == scaled_value(sv));
        } else {
            assert(total == 4294967296u64 * 10000 + f4s);
            assert(scaled_value(sv) == dv * 10000 + frac_scaled(fp));
            assert(dv * 10000 >= 4294967296 * 10000) by (nonlinear_arith)
                requires
                    dv >= 4294967296,
            ;
        }
    }
    if total > 4294967295 {
        Ok(4294967295)
    } else {
        Ok(total as u32)
    }
}

} // verus!
