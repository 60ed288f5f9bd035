//! Rendering fixed-point metric values as the short decimal strings the
//! display shows.
//!
//! The decimal precision (0, 1 or 2 places) is picked from the value's
//! magnitude so the printed string never outgrows the fixed on-screen
//! field; an absent value renders as a placeholder glyph run.

use vstd::prelude::*;

use crate::units::in_value_range;

verus! {

/// The decimal digit character for `d`.
pub open spec fn digit_char(d: int) -> char
    recommends
        0 <= d < 10,
{
    if d == 0 {
        '0'
    } else if d == 1 {
        '1'
    } else if d == 2 {
        '2'
    } else if d == 3 {
        '3'
    } else if d == 4 {
        '4'
    } else if d == 5 {
        '5'
    } else if d == 6 {
        '6'
    } else if d == 7 {
        '7'
    } else if d == 8 {
        '8'
    } else {
        '9'
    }
}

/// The usual base-ten rendering of `n`, most significant digit first.
pub open spec fn spec_digits(n: nat) -> Seq<char>
    decreases n,
{
    if n < 10 {
        seq![digit_char(n as int)]
    } else {
        spec_digits(n / 10) + seq![digit_char((n % 10) as int)]
    }
}

/// Ten to the `k`.
pub open spec fn pow10(k: nat) -> nat
    decreases k,
{
    if k == 0 {
        1
    } else {
        10 * pow10((k - 1) as nat)
    }
}

/// A number below `pow10(k)` renders in at most `k` digits.
pub proof fn lemma_digits_len(n: nat, k: nat)
    requires
        k >= 1,
        n < pow10(k),
    ensures
        spec_digits(n).len() <= k,
    decreases k,
{
    if n < 10 {
    } else {
        assert(pow10(k) == 10 * pow10((k - 1) as nat));
        assert(n / 10 < pow10((k - 1) as nat)) by (nonlinear_arith)
            requires
                n < 10 * pow10((k - 1) as nat),
        ;
        assert(k - 1 >= 1) by {
            if k == 1 {
                assert(pow10(1nat) == 10);
            }
        }
        lemma_digits_len(n / 10, (k - 1) as nat);
    }
}

/// How a nonzero magnitude `a`, in thousandths, renders: no decimal
/// places from a hundred units up, one place from ten units up, two
/// places below that.  Extra thousandths beyond the printed precision
/// are cut off, not rounded.
pub open spec fn spec_format_magnitude(a: nat) -> Seq<char> {
    let whole = a / 1000;
    if a >= 100_000 {
        spec_digits(whole)
    } else if a >= 10_000 {
        spec_digits(whole) + seq!['.', digit_char(((a % 1000) / 100) as int)]
    } else {
        spec_digits(whole) + seq![
            '.',
            digit_char(((a % 1000) / 100) as int),
            digit_char(((a % 100) / 10) as int),
        ]
    }
}

/// How a fixed-point value renders: zero is the bare glyph `0`, a
/// negative value carries a leading minus, and the magnitude follows
/// [`spec_format_magnitude`].
pub open spec fn spec_format_value(v: int) -> Seq<char> {
    if v == 0 {
        seq!['0']
    } else if v > 0 {
        spec_format_magnitude(v as nat)
    } else {
        seq!['-'] + spec_format_magnitude((-v) as nat)
    }
}

/// How a possibly-absent metric renders: a present value as its decimal
/// string, an absent one as the placeholder glyph run.
pub open spec fn spec_format_metric(v: Option<i64>) -> Seq<char> {
    match v {
        Some(x) => spec_format_value(x as int),
        None => seq!['.', '.', '.'],
    }
}

/// Append the single decimal digit `d` to `s`.
fn append_digit(s: &mut String, d: u64)
    requires
        d < 10,
    ensures
        final(s)@ == old(s)@ + seq![digit_char(d as int)],
{
    if d == 0 {
        s.append("0");
        proof {
            reveal_strlit("0");
            assert(s@ =~= old(s)@ + seq![digit_char(0)]);
        }
    } else if d == 1 {
        s.append("1");
        proof {
            reveal_strlit("1");
            assert(s@ =~= old(s)@ + seq![digit_char(1)]);
        }
    } else if d == 2 {
        s.append("2");
        proof {
            reveal_strlit("2");
            assert(s@ =~= old(s)@ + seq![digit_char(2)]);
        }
    } else if d == 3 {
        s.append("3");
        proof {
            reveal_strlit("3");
            assert(s@ =~= old(s)@ + seq![digit_char(3)]);
        }
    } else if d == 4 {
        s.append("4");
        proof {
            reveal_strlit("4");
            assert(s@ =~= old(s)@ + seq![digit_char(4)]);
        }
    } else if d == 5 {
        s.append("5");
        proof {
            reveal_strlit("5");
            assert(s@ =~= old(s)@ + seq![digit_char(5)]);
        }
    } else if d == 6 {
        s.append("6");
        proof {
            reveal_strlit("6");
            assert(s@ =~= old(s)@ + seq![digit_char(6)]);
        }
    } else if d == 7 {
        s.append("7");
        proof {
            reveal_strlit("7");
            assert(s@ =~= old(s)@ + seq![digit_char(7)]);
        }
    } else if d == 8 {
        s.append("8");
        proof {
            reveal_strlit("8");
            assert(s@ =~= old(s)@ + seq![digit_char(8)]);
        }
    } else {
        s.append("9");
        proof {
            reveal_strlit("9");
            assert(s@ =~= old(s)@ + seq![digit_char(9)]);
        }
    }
}

/// Append the base-ten rendering of `n` to `s`.
fn append_u64(s: &mut String, n: u64)
    ensures
        final(s)@ == old(s)@ + spec_digits(n as nat),
    decreases n,
{
    if n < 10 {
        append_digit(s, n);
    } else {
        append_u64(s, n / 10);
        append_digit(s, n % 10);
        proof {
            assert(s@ =~= old(s)@ + spec_digits(n as nat));
        }
    }
}

/// Render a fixed-point value as its on-screen decimal string.  For
/// values whose magnitude stays below a hundred thousand units the
/// string fits the eight-character display field.
pub fn format_value(v: i64) -> (r: String)
    requires
        in_value_range(v as int),
    ensures
        r@ == spec_format_value(v as int),
        -100_000_000 < v < 100_000_000 ==> r@.len() <= 8,
{
    if v == 0 {
        let r = String::from_str("0");
        proof {
            reveal_strlit("0");
            assert(r@ =~= spec_format_value(0));
        }
        return r;
    }
    let mut s = String::new();
    let a: u64 = if v < 0 {
        s.append("-");
        proof {
            reveal_strlit("-");
            assert(s@ =~= seq!['-']);
        }
        (-v) as u64
    } else {
        v as u64
    };
    let whole = a / 1000;
    if a >= 100_000 {
        append_u64(&mut s, whole);
    } else if a >= 10_000 {
        append_u64(&mut s, whole);
        s.append(".");
        append_digit(&mut s, (a % 1000) / 100);
        proof {
            reveal_strlit(".");
        }
    } else {
        append_u64(&mut s, whole);
        s.append(".");
        append_digit(&mut s, (a % 1000) / 100);
        append_digit(&mut s, (a % 100) / 10);
        proof {
            reveal_strlit(".");
        }
    }
    proof {
        assert(s@ =~= spec_format_value(v as int));
        if -100_000_000 < v < 100_000_000 {
            reveal_with_fuel(pow10, 6);
            assert(pow10(5) == 100_000);
            lemma_digits_len((a / 1000) as nat, 5);
        }
    }
    s
}

/// Render a possibly-absent metric: a present value per
/// [`format_value`], an absent one as the placeholder glyph run.
pub fn format_metric(v: &Option<i64>) -> (r: String)
    requires
        v matches Some(x) ==> in_value_range(x as int),
    ensures
        r@ == spec_format_metric(*v),
        (match v {
            Some(x) => -100_000_000 < *x < 100_000_000,
            None => true,
        }) ==> r@.len() <= 8,
{
    match v {
        Some(x) => format_value(*x),
        None => {
            let r = String::from_str("...");
            proof {
                reveal_strlit("...");
                assert(r@ =~= seq!['.', '.', '.']);
            }
            r
        },
    }
}

} // verus!
