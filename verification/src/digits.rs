//! Decimal-digit arithmetic: the mathematical model of digit strings and
//! canonical renderings, together with the verified text helpers that the
//! rest of the crate builds on.

use vstd::prelude::*;

verus! {

/// True iff `c` is an ASCII decimal digit (`'0'` through `'9'`).
pub open spec fn is_dec_digit(c: char) -> bool {
    48 <= c as u32 <= 57
}

/// Numeric value of an ASCII decimal digit character.
pub open spec fn digit_value(c: char) -> nat {
    ((c as u32) - 48) as nat
}

/// True iff every character of `s` is an ASCII decimal digit.
pub open spec fn all_digits(s: Seq<char>) -> bool {
    forall|i: int| 0 <= i < s.len() ==> is_dec_digit(#[trigger] s[i])
}

/// The number denoted by a sequence of decimal digit characters, most
/// significant digit first; the empty sequence denotes zero.
pub open spec fn seq_to_nat(s: Seq<char>) -> nat
    decreases s.len(),
{
    if s.len() == 0 {
        0
    } else {
        seq_to_nat(s.drop_last()) * 10 + digit_value(s.last())
    }
}

/// Ten to the power `k`.
pub open spec fn pow10(k: nat) -> nat
    decreases k,
{
    if k == 0 {
        1
    } else {
        10 * pow10((k - 1) as nat)
    }
}

/// The digit character for `d` in `0..=9`.
pub open spec fn digit_char(d: nat) -> char {
    if d == 0 {
        '0'
    } else if d == 1 {
        '1'
    } else if d == 2 {
        '2'
    } else if d == 3 {
        '3'
    } else if d == 4 {
        '4'
    } else if d == 5 {
        '5'
    } else if d == 6 {
        '6'
    } else if d == 7 {
        '7'
    } else if d == 8 {
        '8'
    } else {
        '9'
    }
}

/// Canonical decimal rendering of `n`: digits only, no leading zeros,
/// and `"0"` for zero.
pub open spec fn canonical(n: nat) -> Seq<char>
    decreases n,
{
    if n < 10 {
        seq![digit_char(n)]
    } else {
        canonical(n / 10).push(digit_char(n % 10))
    }
}

pub proof fn lemma_digit_char_value(d: nat)
    requires
        d < 10,
    ensures
        is_dec_digit(digit_char(d)),
        digit_value(digit_char(d)) == d,
{
}

/// A canonical rendering consists of decimal digits, is never empty,
/// denotes the number it renders, and has no leading zero for a
/// positive number.
pub proof fn lemma_canonical_digits(n: nat)
    ensures
        all_digits(canonical(n)),
        canonical(n).len() >= 1,
        seq_to_nat(canonical(n)) == n,
        n >= 1 ==> canonical(n)[0] != '0',
    decreases n,
{
    if n < 10 {
        lemma_digit_char_value(n);
        let s = seq![digit_char(n)];
        assert(s.drop_last() =~= Seq::<char>::empty());
        assert(seq_to_nat(Seq::<char>::empty()) == 0);
        assert(s.last() == digit_char(n));
        assert(seq_to_nat(s) == digit_value(digit_char(n)));
    } else {
        lemma_canonical_digits(n / 10);
        lemma_digit_char_value(n % 10);
        let c = canonical(n / 10);
        let p = c.push(digit_char(n % 10));
        assert(p.drop_last() =~= c);
        assert(p.last() == digit_char(n % 10));
        assert(seq_to_nat(p) == seq_to_nat(c) * 10 + (n % 10));
        assert(seq_to_nat(p) == n);
        assert forall|i: int| 0 <= i < p.len() implies is_dec_digit(#[trigger] p[i]) by {
            if i < c.len() {
                assert(p[i] == c[i]);
            }
        }
        assert(p[0] == c[0]);
    }
}

/// A string of `k` decimal digits denotes a number below ten to the `k`.
pub proof fn lemma_seq_to_nat_bound(s: Seq<char>)
    requires
        all_digits(s),
    ensures
        seq_to_nat(s) < pow10(s.len()),
    decreases s.len(),
{
    if s.len() > 0 {
        let d = s.drop_last();
        assert forall|i: int| 0 <= i < d.len() implies is_dec_digit(#[trigger] d[i]) by {
            assert(d[i] == s[i]);
        }
        lemma_seq_to_nat_bound(d);
        assert(is_dec_digit(s.last()));
        assert(digit_value(s.last()) <= 9);
        assert(seq_to_nat(s) == seq_to_nat(d) * 10 + digit_value(s.last()));
        assert(seq_to_nat(d) * 10 <= (pow10(d.len()) - 1) * 10) by (nonlinear_arith)
            requires
                seq_to_nat(d) <= pow10(d.len()) - 1,
        ;
        assert(pow10(s.len()) == 10 * pow10(d.len()));
    }
}

/// Ten to the power of a larger exponent is at least as large.
pub proof fn lemma_pow10_mono(a: nat, b: nat)
    requires
        a <= b,
    ensures
        pow10(a) <= pow10(b),
        pow10(a) >= 1,
    decreases b,
{
    if a < b {
        lemma_pow10_mono(a, (b - 1) as nat);
    } else if b > 0 {
        lemma_pow10_mono((a - 1) as nat, (b - 1) as nat);
    }
}

/// The concrete powers of ten that the ten-digit bound rests on.
pub proof fn lemma_pow10_values()
    ensures
        pow10(9) == 1_000_000_000,
        pow10(10) == 10_000_000_000,
{
    reveal_with_fuel(pow10, 11);
}

/// A number below ten to the `k` renders in at most `k` digits.
pub proof fn lemma_canonical_len(n: nat, k: nat)
    requires
        n < pow10(k),
        k >= 1,
    ensures
        canonical(n).len() <= k,
    decreases n,
{
    if n < 10 {
    } else {
        assert(pow10(k) == 10 * pow10((k - 1) as nat));
        lemma_pow10_mono(0, (k - 1) as nat);
        if k == 1 {
            assert(pow10(k) == 10);
        }
        assert(k >= 2);
        assert(n / 10 < pow10((k - 1) as nat)) by (nonlinear_arith)
            requires
                n < 10 * pow10((k - 1) as nat),
        ;
        lemma_canonical_len(n / 10, (k - 1) as nat);
    }
}

/// The one-character string for the digit `d` in `0..=9`.
fn digit_str(d: u64) -> (r: &'static str)
    requires
        d < 10,
    ensures
        r@ == seq![digit_char(d as nat)],
{
    let r: &'static str = if d == 0 {
        "0"
    } else if d == 1 {
        "1"
    } else if d == 2 {
        "2"
    } else if d == 3 {
        "3"
    } else if d == 4 {
        "4"
    } else if d == 5 {
        "5"
    } else if d == 6 {
        "6"
    } else if d == 7 {
        "7"
    } else if d == 8 {
        "8"
    } else {
        "9"
    };
    proof {
        reveal_strlit("0");
        reveal_strlit("1");
        reveal_strlit("2");
        reveal_strlit("3");
        reveal_strlit("4");
        reveal_strlit("5");
        reveal_strlit("6");
        reveal_strlit("7");
        reveal_strlit("8");
        reveal_strlit("9");
        assert(r@ =~= seq![digit_char(d as nat)]);
    }
    r
}

/// Render `n` in canonical decimal form: no leading zeros, `"0"` for zero.
pub fn render_u64(n: u64) -> (r: String)
    ensures
        r@ == canonical(n as nat),
{
    if n == 0 {
        let r = "0".to_owned();
        proof {
            reveal_strlit("0");
            assert(r@ =~= canonical(0));
        }
        return r;
    }
    let mut m = n;
    let mut acc = "".to_owned();
    proof {
        reveal_strlit("");
        assert(canonical(n as nat) =~= canonical(n as nat) + acc@);
    }
    while m > 0
        invariant
            m > 0 ==> canonical(n as nat) =~= canonical(m as nat) + acc@,
            m == 0 ==> acc@ =~= canonical(n as nat),
        decreases m,
    {
        let d = m % 10;
        let digit = digit_str(d);
        let prev = acc;
        acc = digit.to_owned().concat(prev.as_str());
        proof {
            if m >= 10 {
                assert(canonical(m as nat) =~= canonical((m / 10) as nat).push(
                    digit_char((m % 10) as nat),
                ));
                assert(canonical((m / 10) as nat) + acc@ =~= canonical(m as nat) + prev@);
                assert(canonical(n as nat) =~= canonical((m / 10) as nat) + acc@);
            } else {
                assert(canonical(m as nat) =~= seq![digit_char(m as nat)]);
                assert(acc@ =~= canonical(m as nat) + prev@);
                assert(acc@ =~= canonical(n as nat));
            }
        }
        m = m / 10;
    }
    acc
}

} // verus!
