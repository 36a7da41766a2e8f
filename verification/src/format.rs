use vstd::prelude::*;

use crate::calc::{pow10, pow10_u128};
use crate::rat::{iabs, rat_wf, Rat};

verus! {

pub open spec fn digit_char(d: nat) -> char
    recommends
        d < 10,
{
    ((d + 48) as u8) as char
}

/// The decimal digits of `n`, most significant first.
pub open spec fn digits_of(n: nat) -> Seq<char>
    decreases n,
{
    if n < 10 {
        seq![digit_char(n)]
    } else {
        digits_of(n / 10).push(digit_char(n % 10))
    }
}

/// A signed integer in decimal.
pub open spec fn spec_format_int(n: int) -> Seq<char> {
    if n >= 0 {
        digits_of(n as nat)
    } else {
        seq!['-'] + digits_of((-n) as nat)
    }
}

/// Exactly `places` decimal digits of `n`, zero-padded, least significant
/// last.
pub open spec fn pad_digits(n: nat, places: nat) -> Seq<char>
    decreases places,
{
    if places == 0 {
        Seq::empty()
    } else {
        pad_digits(n / 10, (places - 1) as nat).push(digit_char(n % 10))
    }
}

/// Trailing zeros removed.
pub open spec fn strip_zeros(s: Seq<char>) -> Seq<char>
    decreases s.len(),
{
    if s.len() > 0 && s.last() == '0' {
        strip_zeros(s.drop_last())
    } else {
        s
    }
}

/// Decimal rendering of a rational: an integral value (denominator one)
/// prints as a plain integer; otherwise the magnitude is rounded, half
/// away from zero, to `places` decimal places and trailing zeros (and a
/// bare trailing point) are stripped.
pub open spec fn spec_format_rat(v: Rat, places: nat) -> Seq<char>
    recommends
        rat_wf(v),
{
    if v.den == 1 {
        spec_format_int(v.num as int)
    } else {
        let un = iabs(v.num as int);
        let scaled = (2 * un * pow10(places) + v.den as nat) / (2 * v.den as nat);
        let ip = scaled / pow10(places);
        let fp = scaled % pow10(places);
        let frac = strip_zeros(pad_digits(fp, places));
        let body = if frac.len() == 0 {
            digits_of(ip)
        } else {
            digits_of(ip) + seq!['.'] + frac
        };
        if v.num < 0 {
            seq!['-'] + body
        } else {
            body
        }
    }
}

fn push_digit(v: &mut Vec<char>, d: u128)
    requires
        d < 10,
    ensures
        final(v)@ == old(v)@.push(digit_char(d as nat)),
{
    let c: char = ((d as u8) + 48) as char;
    v.push(c);
}

fn push_digits(v: &mut Vec<char>, n: u128)
    ensures
        final(v)@ == old(v)@ + digits_of(n as nat),
    decreases n,
{
    if n < 10 {
        push_digit(v, n);
        proof {
            assert(final(v)@ =~= old(v)@ + digits_of(n as nat));
        }
    } else {
        push_digits(v, n / 10);
        push_digit(v, n % 10);
        proof {
            assert(final(v)@ =~= old(v)@ + digits_of(n as nat));
        }
    }
}

fn push_pad(v: &mut Vec<char>, n: u128, places: usize)
    ensures
        final(v)@ == old(v)@ + pad_digits(n as nat, places as nat),
    decreases places,
{
    if places == 0 {
        proof {
            assert(final(v)@ =~= old(v)@ + pad_digits(n as nat, 0));
        }
    } else {
        push_pad(v, n / 10, places - 1);
        push_digit(v, n % 10);
        proof {
            assert(final(v)@ =~= old(v)@ + pad_digits(n as nat, places as nat));
        }
    }
}

/// Appends the decimal digits of `n`.
pub fn push_digits_u64(v: &mut Vec<char>, n: u64)
    ensures
        final(v)@ == old(v)@ + digits_of(n as nat),
{
    push_digits(v, n as u128);
}

/// Renders a rational as its decimal string.
pub fn format_rat(v: Rat, places: usize) -> (r: String)
    requires
        rat_wf(v),
        places <= 6,
    ensures
        r@ == spec_format_rat(v, places as nat),
{
    let mut out: Vec<char> = Vec::new();
    if v.den == 1 {
        if v.num < 0 {
            out.push('-');
            push_digits(&mut out, (-v.num) as u128);
            proof {
                assert(out@ =~= spec_format_rat(v, places as nat));
            }
        } else {
            push_digits(&mut out, v.num as u128);
        }
        crate::strings::chars_to_string(&out)
    } else {
        let un: u128 = if v.num < 0 {
            (-v.num) as u128
        } else {
            v.num as u128
        };
        let p: u128 = pow10_u128(places);
        proof {
            crate::calc::lem_pow10_mono(places as nat, 6);
            crate::calc::lem_pow10_pos(places as nat);
            assert(pow10(6) == 1000000nat) by {
                reveal_with_fuel(pow10, 8);
            }
            assert(2 * (un as nat) * (p as nat) <= 18446744073709551614000000nat)
                by (nonlinear_arith)
                requires
                    (p as nat) <= 1000000nat,
                    (un as nat) <= 9223372036854775807nat,
            ;
        }
        let t: u128 = 2 * un * p + (v.den as u128);
        let scaled: u128 = t / (2 * (v.den as u128));
        proof {
            vstd::arithmetic::div_mod::lemma_div_is_ordered(
                scaled as int,
                t as int,
                1,
            );
        }
        let ip: u128 = scaled / p;
        let fp: u128 = scaled % p;
        if v.num < 0 {
            out.push('-');
        }
        push_digits(&mut out, ip);
        let mut frac: Vec<char> = Vec::new();
        push_pad(&mut frac, fp, places);
        let ghost frac0 = frac@;
        while frac.len() > 0 && frac[frac.len() - 1] == '0'
            invariant
                strip_zeros(frac0) == strip_zeros(frac@),
            decreases frac@.len(),
        {
            let ghost before = frac@;
            frac.pop();
            proof {
                assert(before.drop_last() =~= frac@);
            }
        }
        proof {
            assert(strip_zeros(frac@) == frac@);
        }
        if frac.len() > 0 {
            out.push('.');
            let mut k: usize = 0;
            let ghost base = out@;
            while k < frac.len()
                invariant
                    k <= frac@.len(),
                    out@ == base + frac@.subrange(0, k as int),
                decreases frac@.len() - k,
            {
                out.push(frac[k]);
                proof {
                    assert(frac@.subrange(0, k + 1) =~= frac@.subrange(0, k as int).push(
                        frac@[k as int],
                    ));
                }
                k = k + 1;
            }
            proof {
                assert(frac@.subrange(0, frac@.len() as int) =~= frac@);
            }
        }
        proof {
            assert(out@ =~= spec_format_rat(v, places as nat));
        }
        crate::strings::chars_to_string(&out)
    }
}

// ---------------------------------------------------------------------------
// Round-trip: feeding an integral result's rendering back to the evaluator
// returns the same value.
// ---------------------------------------------------------------------------

/// A character the evaluator's preprocessing passes through unchanged.
pub open spec fn plain_char(c: char) -> bool {
    !crate::strings::is_space(c) && c != 'x' && c != '×' && c != '÷' && c != '^'
}

proof fn lem_preprocess_plain(s: Seq<char>)
    requires
        forall|k: int| 0 <= k < s.len() ==> plain_char(#[trigger] s[k]),
    ensures
        crate::calc::pre_process(s) == s,
    decreases s.len(),
{
    if s.len() > 0 {
        lem_preprocess_plain(s.drop_last());
        assert(crate::calc::map_char(s.last()) =~= seq![s.last()]);
        assert(s.drop_last() + seq![s.last()] =~= s);
    }
}

proof fn lem_digits_chars(n: nat)
    ensures
        digits_of(n).len() >= 1,
        forall|k: int|
            0 <= k < digits_of(n).len() ==> crate::calc::is_digit(#[trigger] digits_of(n)[k]),
    decreases n,
{
    if n >= 10 {
        lem_digits_chars(n / 10);
    }
}

proof fn lem_digits_len(n: nat, k: nat)
    requires
        n < pow10(k),
        k >= 1,
    ensures
        digits_of(n).len() <= k,
    decreases n,
{
    if n < 10 {
    } else {
        assert(k >= 2) by {
            if k == 1 {
                assert(pow10(1) == 10) by {
                    reveal_with_fuel(pow10, 3);
                }
            }
        }
        assert(n / 10 < pow10((k - 1) as nat)) by {
            let p = pow10((k - 1) as nat);
            assert(pow10(k) == 10 * p);
            assert(10 * p - 1 == 10 * (p - 1) + 9) by (nonlinear_arith);
            vstd::arithmetic::div_mod::lemma_fundamental_div_mod_converse(
                10 * p - 1,
                10,
                p - 1,
                9,
            );
            vstd::arithmetic::div_mod::lemma_div_is_ordered(n as int, 10 * p - 1, 10);
        }
        lem_digits_len(n / 10, (k - 1) as nat);
    }
}

proof fn lem_digits_end_all(s: Seq<char>, i: nat)
    requires
        i <= s.len(),
        forall|k: int| i <= k < s.len() ==> crate::calc::is_digit(#[trigger] s[k]),
    ensures
        crate::calc::digits_end(s, i) == s.len(),
    decreases s.len() - i,
{
    if i < s.len() {
        lem_digits_end_all(s, i + 1);
    }
}

proof fn lem_digits_val_eq(s: Seq<char>, i: nat, j: nat, n: nat)
    requires
        i <= j <= s.len(),
        s.subrange(i as int, j as int) == digits_of(n),
    ensures
        crate::calc::digits_val(s, i, j) == n,
    decreases n,
{
    lem_digits_chars(n);
    if n < 10 {
        assert(j == i + 1);
        assert(s[i as int] == digits_of(n)[0]);
        assert(crate::calc::digits_val(s, i, j) == crate::calc::digits_val(s, i, i) * 10
            + crate::calc::digit_val(s[(j - 1) as int]));
    } else {
        assert(digits_of(n) == digits_of(n / 10).push(digit_char(n % 10)));
        assert(s.subrange(i as int, (j - 1) as int) =~= digits_of(n / 10)) by {
            assert(digits_of(n).drop_last() =~= digits_of(n / 10));
            assert(s.subrange(i as int, (j - 1) as int) =~= s.subrange(
                i as int,
                j as int,
            ).drop_last());
        }
        lem_digits_val_eq(s, i, (j - 1) as nat, n / 10);
        assert(s[(j - 1) as int] == digits_of(n).last());
        vstd::arithmetic::div_mod::lemma_fundamental_div_mod(n as int, 10);
    }
}

proof fn lem_no_kw_at_digit(s: Seq<char>, i: nat, kw: Seq<char>)
    requires
        i < s.len(),
        crate::calc::is_digit(s[i as int]),
        kw.len() >= 1,
        'a' <= kw[0] && kw[0] <= 'z',
    ensures
        !crate::calc::kw_at(s, i, kw),
{
    if crate::calc::kw_at(s, i, kw) {
        assert(crate::strings::lower_seq(
            s.subrange(i as int, (i + kw.len()) as int),
        )[0] == kw[0]);
        assert(s.subrange(i as int, (i + kw.len()) as int)[0] == s[i as int]);
        assert(crate::strings::lower_char(s[i as int]) == kw[0]);
    }
}

#[verifier::rlimit(100)]
#[verifier::spinoff_prover]
proof fn lem_parse_digit_suffix(s: Seq<char>, i: nat, n: nat)
    requires
        i < s.len(),
        s.subrange(i as int, s.len() as int) == digits_of(n),
        n <= i64::MAX as nat,
    ensures
        crate::calc::sp_unary(s, i) == Some::<(Rat, nat)>(
            (Rat { num: n as i64, den: 1 }, s.len()),
        ),
{
    let len = s.len();
    lem_digits_chars(n);
    assert(forall|k: int| i <= k < len ==> crate::calc::is_digit(#[trigger] s[k])) by {
        assert(forall|k: int|
            i <= k < len ==> s[k] == s.subrange(i as int, len as int)[k - i]);
    }
    lem_digits_end_all(s, i);
    assert(pow10(19) == 10000000000000000000nat) by {
        reveal_with_fuel(pow10, 21);
    }
    lem_digits_len(n, 19);
    assert(len - i <= 19);
    lem_digits_val_eq(s, i, len, n);
    // The literal's value: no fractional part, so the scale is one.
    assert(crate::calc::pow10(0) == 1);
    assert(crate::calc::digits_val(s, i, len) * 1 == n);
    // spec_mk(n, 1) yields n over one.
    vstd::arithmetic::div_mod::lemma_fundamental_div_mod(n as int, 1);
    assert(n as int % 1 == 0);
    assert(crate::rat::gcd(n, 1) == 1) by {
        assert(crate::rat::gcd(n, 1) == crate::rat::gcd(1, n % 1));
        assert(n % 1 == 0) by {
            vstd::arithmetic::div_mod::lemma_fundamental_div_mod(n as int, 1);
        }
    }
    assert(n as int / 1 == n && 1int / 1 == 1) by {
        vstd::arithmetic::div_mod::lemma_fundamental_div_mod(n as int, 1);
        vstd::arithmetic::div_mod::lemma_div_by_self(1);
    }
    assert(crate::rat::spec_mk(n as int, 1) == Some(Rat { num: n as i64, den: 1 }));
    assert(crate::calc::sp_number(s, i) == Some::<(Rat, nat)>(
        (Rat { num: n as i64, den: 1 }, len),
    ));
    // No keyword, constant or parenthesis starts with a digit.
    lem_no_kw_at_digit(s, i, seq!['s', 'q', 'r', 't']);
    lem_no_kw_at_digit(s, i, seq!['s', 'i', 'n']);
    lem_no_kw_at_digit(s, i, seq!['c', 'o', 's']);
    lem_no_kw_at_digit(s, i, seq!['t', 'a', 'n']);
    lem_no_kw_at_digit(s, i, seq!['l', 'o', 'g']);
    lem_no_kw_at_digit(s, i, seq!['l', 'n']);
    lem_no_kw_at_digit(s, i, seq!['a', 'b', 's']);
    lem_no_kw_at_digit(s, i, seq!['f', 'l', 'o', 'o', 'r']);
    lem_no_kw_at_digit(s, i, seq!['c', 'e', 'i', 'l']);
    lem_no_kw_at_digit(s, i, seq!['r', 'o', 'u', 'n', 'd']);
    lem_no_kw_at_digit(s, i, seq!['p', 'i']);
    assert(crate::calc::sp_fn_at(s, i) is None);
    assert(crate::strings::lower_char(s[i as int]) != 'e');
    assert(crate::calc::sp_primary(s, i) == Some::<(Rat, nat)>(
        (Rat { num: n as i64, den: 1 }, len),
    ));
}

/// An integral value survives a round trip: render it, evaluate the
/// rendering, and the original value comes back.
pub proof fn lemma_format_eval_roundtrip(v: Rat, places: nat)
    requires
        rat_wf(v),
        v.den == 1,
    ensures
        crate::calc::spec_evaluate(spec_format_rat(v, places)) == Some(v),
{
    let s0 = spec_format_rat(v, places);
    let un = iabs(v.num as int);
    lem_digits_chars(un);
    assert(forall|k: int| 0 <= k < s0.len() ==> plain_char(#[trigger] s0[k])) by {
        if v.num >= 0 {
            assert(forall|k: int| 0 <= k < s0.len() ==> crate::calc::is_digit(s0[k]));
        } else {
            assert(s0[0] == '-');
            assert(forall|k: int|
                1 <= k < s0.len() ==> s0[k] == digits_of(un)[k - 1] && crate::calc::is_digit(
                    s0[k],
                ));
        }
    }
    lem_preprocess_plain(s0);
    let len = s0.len();
    if v.num >= 0 {
        assert(s0.subrange(0, len as int) =~= digits_of(un));
        lem_parse_digit_suffix(s0, 0, un);
        let r = Rat { num: un as i64, den: 1 };
        assert(r == v);
        assert(crate::calc::sp_power(s0, 0) == Some::<(Rat, nat)>((v, len)));
        assert(crate::calc::sp_mult_rest(s0, v, len) == Some::<(Rat, nat)>((v, len)));
        assert(crate::calc::nxt(0, len, len) == len);
        assert(crate::calc::sp_mult(s0, 0) == Some::<(Rat, nat)>((v, len)));
        assert(crate::calc::sp_add_rest(s0, v, len) == Some::<(Rat, nat)>((v, len)));
        assert(crate::calc::sp_additive(s0, 0) == Some::<(Rat, nat)>((v, len)));
    } else {
        assert(s0.subrange(1, len as int) =~= digits_of(un));
        lem_parse_digit_suffix(s0, 1, un);
        let r0 = Rat { num: un as i64, den: 1 };
        assert(s0[0] == '-');
        assert(crate::rat::spec_neg(r0) == v);
        assert(crate::calc::sp_unary(s0, 0) == Some::<(Rat, nat)>((v, len)));
        assert(crate::calc::sp_power(s0, 0) == Some::<(Rat, nat)>((v, len)));
        assert(crate::calc::sp_mult_rest(s0, v, len) == Some::<(Rat, nat)>((v, len)));
        assert(crate::calc::nxt(0, len, len) == len);
        assert(crate::calc::sp_mult(s0, 0) == Some::<(Rat, nat)>((v, len)));
        assert(crate::calc::sp_add_rest(s0, v, len) == Some::<(Rat, nat)>((v, len)));
        assert(crate::calc::sp_additive(s0, 0) == Some::<(Rat, nat)>((v, len)));
    }
}

} // verus!
