use vstd::prelude::*;

verus! {

/// A decimal digit character.
pub open spec fn is_dec_digit(c: char) -> bool {
    48 <= c as u32 <= 57
}

/// Numeric value of one digit character.
pub open spec fn digit_val(c: char) -> int {
    c as u32 - 48
}

/// Whether every character of a sequence is a decimal digit.
pub open spec fn all_dec_digits(s: Seq<char>) -> bool {
    forall|i: int| 0 <= i < s.len() ==> is_dec_digit(#[trigger] s[i])
}

/// Value of a sequence of digit characters, most significant first.
pub open spec fn digits_val(s: Seq<char>) -> int
    decreases s.len(),
{
    if s.len() == 0 {
        0
    } else {
        digits_val(s.drop_last()) * 10 + digit_val(s.last())
    }
}

/// The integer a string denotes, with the semantics of `i32::from_str`:
/// an optional single sign, then one or more decimal digits, and the
/// value must fit in `i32`. The feed's garage identifiers arrive as
/// such strings.
pub open spec fn parsed_id(s: Seq<char>) -> Option<int> {
    let has_sign = s.len() > 0 && (s[0] == '-' || s[0] == '+');
    let digits = if has_sign { s.subrange(1, s.len() as int) } else { s };
    if digits.len() == 0 || !all_dec_digits(digits) {
        None
    } else {
        let v = if has_sign && s[0] == '-' {
            -digits_val(digits)
        } else {
            digits_val(digits)
        };
        if i32::MIN <= v <= i32::MAX {
            Some(v)
        } else {
            None
        }
    }
}

proof fn lemma_digits_val_nonneg(s: Seq<char>)
    requires
        all_dec_digits(s),
    ensures
        digits_val(s) >= 0,
    decreases s.len(),
{
    if s.len() > 0 {
        assert(all_dec_digits(s.drop_last()));
        lemma_digits_val_nonneg(s.drop_last());
    }
}

/// The value of a digit string only grows as more digits follow.
proof fn lemma_digits_val_prefix(s: Seq<char>, i: int)
    requires
        all_dec_digits(s),
        0 <= i <= s.len(),
    ensures
        digits_val(s.take(i)) <= digits_val(s),
    decreases s.len() - i,
{
    if i == s.len() {
        assert(s.take(i) =~= s);
    } else {
        assert(all_dec_digits(s.take(i)));
        assert(all_dec_digits(s.take(i + 1)));
        lemma_digits_val_nonneg(s.take(i));
        assert(s.take(i + 1).drop_last() =~= s.take(i));
        assert(s.take(i + 1).last() == s[i]);
        assert(digits_val(s.take(i + 1)) == digits_val(s.take(i)) * 10 + digit_val(s[i]));
        lemma_digits_val_prefix(s, i + 1);
    }
}

/// Parse a garage identifier with `i32::from_str` semantics: `Some`
/// exactly when the string is an optionally signed run of decimal
/// digits whose value fits in `i32`.
pub fn parse_garage_id(s: &str) -> (r: Option<i32>)
    ensures
        r matches Some(v) ==> parsed_id(s@) == Some(v as int),
        r is None ==> parsed_id(s@) is None,
{
    let n = s.unicode_len();
    let mut start: usize = 0;
    let mut neg: bool = false;
    if n > 0 {
        let c0 = s.get_char(0);
        if c0 == '-' {
            neg = true;
            start = 1;
        } else if c0 == '+' {
            start = 1;
        }
    }
    if start == n {
        // No digits at all: an empty string or a bare sign.
        return None;
    }
    let ghost digits = if start == 1 {
        s@.subrange(1, s@.len() as int)
    } else {
        s@
    };
    let mut acc: i64 = 0;
    let mut i: usize = start;
    proof {
        assert(digits.take(0) =~= Seq::<char>::empty());
    }
    while i < n
        invariant
            start <= i <= n,
            start < n,
            n == s@.len(),
            start == 0 || start == 1,
            start == 1 ==> (s@[0] == '-' || s@[0] == '+'),
            start == 0 ==> !(s@.len() > 0 && (s@[0] == '-' || s@[0] == '+')),
            neg <==> (start == 1 && s@[0] == '-'),
            digits == (if start == 1 { s@.subrange(1, s@.len() as int) } else { s@ }),
            all_dec_digits(digits.take(i - start)),
            acc == digits_val(digits.take(i - start)),
            0 <= acc <= 2147483648,
        decreases n - i,
    {
        let c = s.get_char(i);
        let cv = c as u32;
        proof {
            assert(digits[i - start] == s@[i as int]);
        }
        if cv < 48 || cv > 57 {
            // A non-digit character: the identifier does not parse.
            proof {
                assert(!is_dec_digit(digits[i - start]));
                assert(!all_dec_digits(digits));
            }
            return None;
        }
        let d = (cv - 48) as i64;
        let next = acc * 10 + d;
        proof {
            assert(digits.take(i - start + 1).drop_last() =~= digits.take(i - start));
            assert(digits.take(i - start + 1).last() == digits[i - start]);
            assert(all_dec_digits(digits.take(i - start + 1)));
        }
        if next > 2147483648 {
            // The magnitude already exceeds every value an i32 can
            // hold, whatever digits follow.
            proof {
                assert(digits_val(digits.take(i - start + 1)) == next);
                if all_dec_digits(digits) {
                    lemma_digits_val_prefix(digits, i - start + 1);
                    assert(digits_val(digits) >= next);
                }
            }
            return None;
        }
        acc = next;
        i = i + 1;
    }
    proof {
        assert(digits.take(i - start) =~= digits);
        assert(digits.len() > 0);
    }
    if neg {
        proof {
            assert(parsed_id(s@) == Some(-digits_val(digits)));
        }
        Some((-acc) as i32)
    } else {
        if acc > 2147483647 {
            // 2147483648 without a minus sign does not fit in i32.
            return None;
        }
        proof {
            assert(parsed_id(s@) == Some(digits_val(digits)));
        }
        Some(acc as i32)
    }
}

} // verus!
