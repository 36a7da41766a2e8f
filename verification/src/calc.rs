use vstd::prelude::*;

use crate::rat::{
    iabs, rat_abs, rat_add, rat_ceil, rat_div, rat_floor, rat_log10, rat_mk_i128, rat_mul,
    rat_neg, rat_powr, rat_rem, rat_round, rat_sqrt, rat_sub, rat_wf, spec_abs,
    spec_ceil, spec_floor, spec_inv, spec_log10, spec_mk, spec_neg, spec_one, spec_pow_n,
    spec_powr, spec_sqrt, spec_zero, spec_add, spec_sub, spec_mul, spec_div, spec_rem, spec_round,
    Rat,
};
use crate::strings::{ascii_lower_char, is_space, lower_char, lower_seq, space_char};
use crate::format::{format_rat, spec_format_rat};
use crate::item::{Item, ItemType};

verus! {

// ---------------------------------------------------------------------------
// Preprocessing: drop whitespace, normalise the alternate multiplication and
// division glyphs, and rewrite `^` to `**`.
// ---------------------------------------------------------------------------

pub open spec fn map_char(c: char) -> Seq<char> {
    if is_space(c) {
        Seq::empty()
    } else if c == 'x' || c == '×' {
        seq!['*']
    } else if c == '÷' {
        seq!['/']
    } else if c == '^' {
        seq!['*', '*']
    } else {
        seq![c]
    }
}

pub open spec fn pre_process(s: Seq<char>) -> Seq<char>
    decreases s.len(),
{
    if s.len() == 0 {
        Seq::empty()
    } else {
        pre_process(s.drop_last()) + map_char(s.last())
    }
}

pub fn preprocess(q: &Vec<char>) -> (v: Vec<char>)
    ensures
        v@ == pre_process(q@),
{
    let n: usize = q.len();
    let mut v: Vec<char> = Vec::new();
    let mut i: usize = 0;
    while i < n
        invariant
            i <= n,
            n == q@.len(),
            v@ == pre_process(q@.subrange(0, i as int)),
        decreases n - i,
    {
        let c = q[i];
        if space_char(c) {
        } else if c == 'x' || c == '×' {
            v.push('*');
        } else if c == '÷' {
            v.push('/');
        } else if c == '^' {
            v.push('*');
            v.push('*');
        } else {
            v.push(c);
        }
        proof {
            let p = q@.subrange(0, i + 1);
            assert(p.drop_last() =~= q@.subrange(0, i as int));
            assert(p.last() == q@[i as int]);
            assert(v@ =~= pre_process(q@.subrange(0, i as int)) + map_char(q@[i as int]));
        }
        i = i + 1;
    }
    proof {
        assert(q@.subrange(0, n as int) =~= q@);
    }
    v
}

// ---------------------------------------------------------------------------
// The grammar, as specification functions.  Each parser takes the input and
// a start position and yields the parsed value and the position after it.
//
//   additive       := multiplicative (('+'|'-') multiplicative)*
//   multiplicative := power (('*'|'/'|'%') power)*
//   power          := unary ('**' power)?            (right-associative)
//   unary          := ('-'|'+') unary | primary
//   primary        := '(' additive ')' | fn '(' additive ')' | const | number
//
// `nxt` keeps recursion positions inside the input so that termination is
// definitional; the bounds lemmas below show it never actually clamps.
// ---------------------------------------------------------------------------

pub open spec fn is_digit(c: char) -> bool {
    '0' <= c && c <= '9'
}

pub open spec fn digit_val(c: char) -> nat {
    (c as nat - '0' as nat) as nat
}

pub open spec fn nxt(i: nat, j: nat, len: nat) -> nat {
    if i < j && j <= len {
        j
    } else {
        len
    }
}

/// Position of the first non-digit at or after `i`.
pub open spec fn digits_end(s: Seq<char>, i: nat) -> nat
    decreases s.len() - i,
{
    if i < s.len() && is_digit(s[i as int]) {
        digits_end(s, i + 1)
    } else {
        i
    }
}

/// Numeric value of the digit run `s[i..j]`.
pub open spec fn digits_val(s: Seq<char>, i: nat, j: nat) -> nat
    decreases j - i,
{
    if i >= j {
        0
    } else {
        digits_val(s, i, (j - 1) as nat) * 10 + digit_val(s[(j - 1) as int])
    }
}

pub open spec fn pow10(k: nat) -> nat
    decreases k,
{
    if k == 0 {
        1
    } else {
        10 * pow10((k - 1) as nat)
    }
}

/// Maximum number of digits a literal may carry; keeps every intermediate
/// product inside `u128`.
pub open spec fn max_digits() -> nat {
    27
}

/// number := digit* ('.' digit*)? with at least one digit or a digit after
/// the dot; the value is an exact decimal fraction.
pub open spec fn sp_number(s: Seq<char>, i: nat) -> Option<(Rat, nat)>
    decreases s.len() - i, 0int,
{
    if i >= s.len() {
        None
    } else {
        let j1 = digits_end(s, i);
        let dotted = j1 < s.len() && s[j1 as int] == '.';
        let j2 = if dotted {
            digits_end(s, j1 + 1)
        } else {
            j1
        };
        let di = (j1 - i) as nat;
        let df = if dotted {
            (j2 - j1 - 1) as nat
        } else {
            0
        };
        if di + df == 0 {
            None
        } else if di + df > max_digits() {
            None
        } else {
            let n = digits_val(s, i, j1) * pow10(df) + (if dotted {
                digits_val(s, j1 + 1, j2)
            } else {
                0
            });
            match spec_mk(n as int, pow10(df) as int) {
                None => None,
                Some(r) => Some((r, j2)),
            }
        }
    }
}

/// Names a supported function of one argument.
#[derive(Clone, Copy, PartialEq, Eq, Structural, Debug)]
pub enum CalcFn {
    Sqrt,
    Sin,
    Cos,
    Tan,
    Log,
    Ln,
    Abs,
    Floor,
    Ceil,
    Round,
}

/// What each function yields in the exact model: `abs`, `floor`, `ceil` and
/// `round` are total; `sqrt` and `log` are defined where the result is
/// rational; `sin`, `cos`, `tan` and `ln` only at their rational point.
pub open spec fn sp_apply(f: CalcFn, v: Rat) -> Option<Rat>
    recommends
        rat_wf(v),
{
    match f {
        CalcFn::Sqrt => spec_sqrt(v),
        CalcFn::Sin => if v.num == 0 {
            Some(spec_zero())
        } else {
            None
        },
        CalcFn::Cos => if v.num == 0 {
            Some(spec_one())
        } else {
            None
        },
        CalcFn::Tan => if v.num == 0 {
            Some(spec_zero())
        } else {
            None
        },
        CalcFn::Log => spec_log10(v),
        CalcFn::Ln => if v.num > 0 && v.num == v.den {
            Some(spec_zero())
        } else {
            None
        },
        CalcFn::Abs => Some(spec_abs(v)),
        CalcFn::Floor => Some(spec_floor(v)),
        CalcFn::Ceil => Some(spec_ceil(v)),
        CalcFn::Round => Some(spec_round(v)),
    }
}

pub fn apply_fn(f: CalcFn, v: Rat) -> (r: Option<Rat>)
    requires
        rat_wf(v),
    ensures
        r == sp_apply(f, v),
        r matches Some(x) ==> rat_wf(x),
{
    match f {
        CalcFn::Sqrt => rat_sqrt(v),
        CalcFn::Sin => if v.num == 0 {
            Some(Rat { num: 0, den: 1 })
        } else {
            None
        },
        CalcFn::Cos => if v.num == 0 {
            Some(Rat { num: 1, den: 1 })
        } else {
            None
        },
        CalcFn::Tan => if v.num == 0 {
            Some(Rat { num: 0, den: 1 })
        } else {
            None
        },
        CalcFn::Log => rat_log10(v),
        CalcFn::Ln => if v.num > 0 && v.num == v.den {
            Some(Rat { num: 0, den: 1 })
        } else {
            None
        },
        CalcFn::Abs => Some(rat_abs(v)),
        CalcFn::Floor => Some(rat_floor(v)),
        CalcFn::Ceil => Some(rat_ceil(v)),
        CalcFn::Round => Some(rat_round(v)),
    }
}

/// Case-insensitive keyword occurrence at a position.
pub open spec fn kw_at(s: Seq<char>, i: nat, kw: Seq<char>) -> bool {
    i + kw.len() <= s.len() && lower_seq(s.subrange(i as int, (i + kw.len()) as int)) == kw
}

/// The function keyword starting at `i`, tried in a fixed order, together
/// with its length; `None` when no keyword with a following `(` matches.
pub open spec fn sp_fn_at(s: Seq<char>, i: nat) -> Option<(CalcFn, nat)> {
    if kw_at(s, i, seq!['s', 'q', 'r', 't']) {
        Some((CalcFn::Sqrt, 4))
    } else if kw_at(s, i, seq!['s', 'i', 'n']) {
        Some((CalcFn::Sin, 3))
    } else if kw_at(s, i, seq!['c', 'o', 's']) {
        Some((CalcFn::Cos, 3))
    } else if kw_at(s, i, seq!['t', 'a', 'n']) {
        Some((CalcFn::Tan, 3))
    } else if kw_at(s, i, seq!['l', 'o', 'g']) {
        Some((CalcFn::Log, 3))
    } else if kw_at(s, i, seq!['l', 'n']) {
        Some((CalcFn::Ln, 2))
    } else if kw_at(s, i, seq!['a', 'b', 's']) {
        Some((CalcFn::Abs, 3))
    } else if kw_at(s, i, seq!['f', 'l', 'o', 'o', 'r']) {
        Some((CalcFn::Floor, 5))
    } else if kw_at(s, i, seq!['c', 'e', 'i', 'l']) {
        Some((CalcFn::Ceil, 4))
    } else if kw_at(s, i, seq!['r', 'o', 'u', 'n', 'd']) {
        Some((CalcFn::Round, 5))
    } else {
        None
    }
}

pub open spec fn is_alpha(c: char) -> bool {
    ('a' <= c && c <= 'z') || ('A' <= c && c <= 'Z')
}

/// Numerator and denominator of the fixed decimal approximation of pi.
pub open spec fn pi_rat() -> Rat {
    Rat { num: 3141592653589793, den: 1000000000000000 }
}

/// Numerator and denominator of the fixed decimal approximation of e.
pub open spec fn e_rat() -> Rat {
    Rat { num: 2718281828459045, den: 1000000000000000 }
}

pub open spec fn sp_primary(s: Seq<char>, i: nat) -> Option<(Rat, nat)>
    decreases s.len() - i, 1int,
{
    if i >= s.len() {
        None
    } else if s[i as int] == '(' {
        match sp_additive(s, nxt(i, i + 1, s.len())) {
            None => None,
            Some((v, j)) => if j < s.len() && s[j as int] == ')' {
                Some((v, j + 1))
            } else {
                None
            },
        }
    } else if sp_fn_at(s, i) matches Some((f, l)) && i + l < s.len() && s[(i + l) as int]
        == '(' {
        let (f, l) = sp_fn_at(s, i)->Some_0;
        match sp_additive(s, nxt(i, i + l + 1, s.len())) {
            None => None,
            Some((v, j)) => if j < s.len() && s[j as int] == ')' {
                match sp_apply(f, v) {
                    None => None,
                    Some(r) => Some((r, j + 1)),
                }
            } else {
                None
            },
        }
    } else if kw_at(s, i, seq!['p', 'i']) {
        Some((pi_rat(), i + 2))
    } else if lower_char(s[i as int]) == 'e' && (i + 1 >= s.len() || !is_alpha(
        s[i + 1 as int],
    )) {
        Some((e_rat(), i + 1))
    } else {
        sp_number(s, i)
    }
}

pub open spec fn sp_unary(s: Seq<char>, i: nat) -> Option<(Rat, nat)>
    decreases s.len() - i, 2int,
{
    if i >= s.len() {
        None
    } else if s[i as int] == '-' {
        match sp_unary(s, i + 1) {
            None => None,
            Some((v, j)) => Some((spec_neg(v), j)),
        }
    } else if s[i as int] == '+' {
        sp_unary(s, i + 1)
    } else {
        sp_primary(s, i)
    }
}

pub open spec fn sp_power(s: Seq<char>, i: nat) -> Option<(Rat, nat)>
    decreases s.len() - i, 4int,
{
    if i >= s.len() {
        None
    } else {
        match sp_unary(s, i) {
            None => None,
            Some((b, j)) => {
                if j + 1 < s.len() && s[j as int] == '*' && s[(j + 1) as int] == '*' {
                    match sp_power(s, nxt(i, j + 2, s.len())) {
                        None => None,
                        Some((e, j2)) => match spec_powr(b, e) {
                            None => None,
                            Some(v) => Some((v, j2)),
                        },
                    }
                } else {
                    Some((b, j))
                }
            },
        }
    }
}

pub open spec fn sp_mult_rest(s: Seq<char>, left: Rat, j: nat) -> Option<(Rat, nat)>
    decreases s.len() - j, 5int,
{
    if j < s.len() && (s[j as int] == '*' || s[j as int] == '/' || s[j as int] == '%') {
        if s[j as int] == '*' && j + 1 < s.len() && s[(j + 1) as int] == '*' {
            Some((left, j))
        } else {
            match sp_power(s, nxt(j, j + 1, s.len())) {
                None => None,
                Some((r, j2)) => {
                    let v = if s[j as int] == '*' {
                        spec_mul(left, r)
                    } else if s[j as int] == '/' {
                        spec_div(left, r)
                    } else {
                        spec_rem(left, r)
                    };
                    match v {
                        None => None,
                        Some(nv) => sp_mult_rest(s, nv, nxt(j, j2, s.len())),
                    }
                },
            }
        }
    } else {
        Some((left, j))
    }
}

pub open spec fn sp_mult(s: Seq<char>, i: nat) -> Option<(Rat, nat)>
    decreases s.len() - i, 6int,
{
    if i >= s.len() {
        None
    } else {
        match sp_power(s, i) {
            None => None,
            Some((v, j)) => sp_mult_rest(s, v, nxt(i, j, s.len())),
        }
    }
}

pub open spec fn sp_add_rest(s: Seq<char>, left: Rat, j: nat) -> Option<(Rat, nat)>
    decreases s.len() - j, 7int,
{
    if j < s.len() && (s[j as int] == '+' || s[j as int] == '-') {
        match sp_mult(s, nxt(j, j + 1, s.len())) {
            None => None,
            Some((r, j2)) => {
                let v = if s[j as int] == '+' {
                    spec_add(left, r)
                } else {
                    spec_sub(left, r)
                };
                match v {
                    None => None,
                    Some(nv) => sp_add_rest(s, nv, nxt(j, j2, s.len())),
                }
            },
        }
    } else {
        Some((left, j))
    }
}

pub open spec fn sp_additive(s: Seq<char>, i: nat) -> Option<(Rat, nat)>
    decreases s.len() - i, 8int,
{
    if i >= s.len() {
        None
    } else {
        match sp_mult(s, i) {
            None => None,
            Some((v, j)) => sp_add_rest(s, v, nxt(i, j, s.len())),
        }
    }
}

/// The value of a whole expression: preprocess, parse an additive
/// expression, and demand that nothing is left over.
pub open spec fn spec_evaluate(q: Seq<char>) -> Option<Rat> {
    let s = pre_process(q);
    match sp_additive(s, 0) {
        None => None,
        Some((v, j)) => if j == s.len() {
            Some(v)
        } else {
            None
        },
    }
}

// ---------------------------------------------------------------------------
// Facts about the specification parsers: a successful parse consumes at
// least one character, stays inside the input, and yields a well-formed
// rational.  (So the position clamp in the definitions never fires.)
// ---------------------------------------------------------------------------

pub(crate) proof fn lem_digits_end(s: Seq<char>, i: nat)
    ensures
        i <= digits_end(s, i),
        i <= s.len() ==> digits_end(s, i) <= s.len(),
    decreases s.len() - i,
{
    if i < s.len() && is_digit(s[i as int]) {
        lem_digits_end(s, i + 1);
    }
}

pub(crate) proof fn lem_pow10_pos(k: nat)
    ensures
        pow10(k) >= 1,
    decreases k,
{
    if k > 0 {
        lem_pow10_pos((k - 1) as nat);
    }
}

proof fn lem_add_wf(a: Rat, b: Rat)
    requires
        rat_wf(a),
        rat_wf(b),
    ensures
        spec_add(a, b) matches Some(x) ==> rat_wf(x),
        spec_sub(a, b) matches Some(x) ==> rat_wf(x),
        spec_mul(a, b) matches Some(x) ==> rat_wf(x),
        spec_div(a, b) matches Some(x) ==> rat_wf(x),
        spec_rem(a, b) matches Some(x) ==> rat_wf(x),
        spec_powr(a, b) matches Some(x) ==> rat_wf(x),
{
    assert(a.den as int * b.den as int >= 1) by (nonlinear_arith)
        requires
            a.den >= 1,
            b.den >= 1,
    ;
    crate::rat::lemma_spec_mk_wf(a.num * b.den + b.num * a.den, a.den * b.den);
    crate::rat::lemma_spec_mk_wf(a.num * b.num, a.den * b.den);
    let nb = spec_neg(b);
    assert(a.den as int * nb.den as int >= 1) by (nonlinear_arith)
        requires
            a.den >= 1,
            nb.den >= 1,
    ;
    crate::rat::lemma_spec_mk_wf(a.num * nb.den + nb.num * a.den, a.den * nb.den);
    lem_inv_wf(b);
    match spec_inv(b) {
        Some(ib) => {
            assert(a.den as int * ib.den as int >= 1) by (nonlinear_arith)
                requires
                    a.den >= 1,
                    ib.den >= 1,
            ;
            crate::rat::lemma_spec_mk_wf(a.num * ib.num, a.den * ib.den);
        },
        None => {},
    }
    lem_rem_wf(a, b);
    lem_powr_wf(a, b);
}

proof fn lem_inv_wf(a: Rat)
    requires
        rat_wf(a),
    ensures
        spec_inv(a) matches Some(x) ==> rat_wf(x),
{
    if a.num != 0 {
        crate::rat::lemma_spec_mk_wf(
            if a.num > 0 {
                a.den as int
            } else {
                -(a.den as int)
            },
            iabs(a.num as int) as int,
        );
    }
}

proof fn lem_rem_wf(a: Rat, b: Rat)
    requires
        rat_wf(a),
        rat_wf(b),
    ensures
        spec_rem(a, b) matches Some(x) ==> rat_wf(x),
{
    if b.num != 0 {
        let q = crate::rat::spec_tdiv(a.num * b.den, b.num * a.den);
        if iabs(q) <= i64::MAX {
            let qr = Rat { num: q as i64, den: 1 };
            assert(rat_wf(qr));
            assert(b.den as int * qr.den as int >= 1) by (nonlinear_arith)
                requires
                    b.den >= 1,
                    qr.den == 1i64,
            ;
            crate::rat::lemma_spec_mk_wf(b.num * qr.num, b.den * qr.den);
            match spec_mul(b, qr) {
                Some(p) => {
                    let np = spec_neg(p);
                    assert(a.den as int * np.den as int >= 1) by (nonlinear_arith)
                        requires
                            a.den >= 1,
                            np.den >= 1,
                    ;
                    crate::rat::lemma_spec_mk_wf(a.num * np.den + np.num * a.den, a.den * np.den);
                },
                None => {},
            }
        }
    }
}

proof fn lem_pow_n_wf(a: Rat, e: nat)
    requires
        rat_wf(a),
    ensures
        spec_pow_n(a, e) matches Some(x) ==> rat_wf(x),
    decreases e,
{
    if e > 0 {
        lem_pow_n_wf(a, (e - 1) as nat);
        match spec_pow_n(a, (e - 1) as nat) {
            Some(p) => {
                assert(p.den as int * a.den as int >= 1) by (nonlinear_arith)
                    requires
                        p.den >= 1,
                        a.den >= 1,
                ;
                crate::rat::lemma_spec_mk_wf(p.num * a.num, p.den * a.den);
            },
            None => {},
        }
    }
}

proof fn lem_powr_wf(a: Rat, b: Rat)
    requires
        rat_wf(a),
        rat_wf(b),
    ensures
        spec_powr(a, b) matches Some(x) ==> rat_wf(x),
{
    if b.den == 1 {
        if b.num >= 0 {
            lem_pow_n_wf(a, b.num as nat);
        } else {
            lem_inv_wf(a);
            match spec_inv(a) {
                Some(ia) => {
                    lem_pow_n_wf(ia, (-(b.num as int)) as nat);
                },
                None => {},
            }
        }
    }
}

proof fn lem_number(s: Seq<char>, i: nat)
    ensures
        sp_number(s, i) matches Some((v, j)) ==> i < j <= s.len() && rat_wf(v),
    decreases s.len() - i, 0int,
{
    if i < s.len() {
        let j1 = digits_end(s, i);
        lem_digits_end(s, i);
        if j1 < s.len() && s[j1 as int] == '.' {
            lem_digits_end(s, j1 + 1);
        }
        let dotted = j1 < s.len() && s[j1 as int] == '.';
        let df = if dotted {
            (digits_end(s, j1 + 1) - j1 - 1) as nat
        } else {
            0
        };
        lem_pow10_pos(df);
        let n = digits_val(s, i, j1) * pow10(df) + (if dotted {
            digits_val(s, j1 + 1, digits_end(s, j1 + 1))
        } else {
            0
        });
        crate::rat::lemma_spec_mk_wf(n as int, pow10(df) as int);
    }
}

proof fn lem_primary(s: Seq<char>, i: nat)
    ensures
        sp_primary(s, i) matches Some((v, j)) ==> i < j <= s.len() && rat_wf(v),
    decreases s.len() - i, 1int,
{
    if i < s.len() {
        if s[i as int] == '(' {
            lem_additive(s, i + 1);
        } else {
            match sp_fn_at(s, i) {
                Some((f, l)) => {
                    if i + l < s.len() && s[(i + l) as int] == '(' {
                        lem_additive(s, i + l + 1);
                        match sp_additive(s, nxt(i, i + l + 1, s.len())) {
                            Some((v, j)) => {
                                if j < s.len() && s[j as int] == ')' {
                                    lem_apply_wf(f, v);
                                }
                            },
                            None => {},
                        }
                    } else {
                        lem_number(s, i);
                    }
                },
                None => {
                    lem_number(s, i);
                },
            }
        }
    }
}

proof fn lem_apply_wf(f: CalcFn, v: Rat)
    requires
        rat_wf(v),
    ensures
        sp_apply(f, v) matches Some(x) ==> rat_wf(x),
{
    crate::rat::lemma_sqrt_wf(v);
    crate::rat::lemma_log10_wf(v);
    crate::rat::lemma_floor_wf(v);
    crate::rat::lemma_ceil_wf(v);
    crate::rat::lemma_round_wf(v);
}

proof fn lem_unary(s: Seq<char>, i: nat)
    ensures
        sp_unary(s, i) matches Some((v, j)) ==> i < j <= s.len() && rat_wf(v),
    decreases s.len() - i, 2int,
{
    if i < s.len() {
        if s[i as int] == '-' || s[i as int] == '+' {
            lem_unary(s, i + 1);
        } else {
            lem_primary(s, i);
        }
    }
}

proof fn lem_power(s: Seq<char>, i: nat)
    ensures
        sp_power(s, i) matches Some((v, j)) ==> i < j <= s.len() && rat_wf(v),
    decreases s.len() - i, 4int,
{
    if i < s.len() {
        lem_unary(s, i);
        match sp_unary(s, i) {
            Some((b, j)) => {
                if j + 1 < s.len() && s[j as int] == '*' && s[(j + 1) as int] == '*' {
                    lem_power(s, j + 2);
                    match sp_power(s, nxt(i, j + 2, s.len())) {
                        Some((e, j2)) => {
                            lem_powr_wf(b, e);
                        },
                        None => {},
                    }
                }
            },
            None => {},
        }
    }
}

proof fn lem_mult_rest(s: Seq<char>, left: Rat, j: nat)
    requires
        j <= s.len(),
        rat_wf(left),
    ensures
        sp_mult_rest(s, left, j) matches Some((v, j2)) ==> j <= j2 <= s.len() && rat_wf(v),
    decreases s.len() - j, 5int,
{
    if j < s.len() && (s[j as int] == '*' || s[j as int] == '/' || s[j as int] == '%') {
        if !(s[j as int] == '*' && j + 1 < s.len() && s[(j + 1) as int] == '*') {
            lem_power(s, j + 1);
            match sp_power(s, nxt(j, j + 1, s.len())) {
                Some((r, j2)) => {
                    lem_add_wf(left, r);
                    let v = if s[j as int] == '*' {
                        spec_mul(left, r)
                    } else if s[j as int] == '/' {
                        spec_div(left, r)
                    } else {
                        spec_rem(left, r)
                    };
                    match v {
                        Some(nv) => {
                            lem_mult_rest(s, nv, nxt(j, j2, s.len()));
                        },
                        None => {},
                    }
                },
                None => {},
            }
        }
    }
}

proof fn lem_mult(s: Seq<char>, i: nat)
    ensures
        sp_mult(s, i) matches Some((v, j)) ==> i < j <= s.len() && rat_wf(v),
    decreases s.len() - i, 6int,
{
    if i < s.len() {
        lem_power(s, i);
        match sp_power(s, i) {
            Some((v, j)) => {
                lem_mult_rest(s, v, nxt(i, j, s.len()));
            },
            None => {},
        }
    }
}

proof fn lem_add_rest(s: Seq<char>, left: Rat, j: nat)
    requires
        j <= s.len(),
        rat_wf(left),
    ensures
        sp_add_rest(s, left, j) matches Some((v, j2)) ==> j <= j2 <= s.len() && rat_wf(v),
    decreases s.len() - j, 7int,
{
    if j < s.len() && (s[j as int] == '+' || s[j as int] == '-') {
        lem_mult(s, j + 1);
        match sp_mult(s, nxt(j, j + 1, s.len())) {
            Some((r, j2)) => {
                lem_add_wf(left, r);
                let v = if s[j as int] == '+' {
                    spec_add(left, r)
                } else {
                    spec_sub(left, r)
                };
                match v {
                    Some(nv) => {
                        lem_add_rest(s, nv, nxt(j, j2, s.len()));
                    },
                    None => {},
                }
            },
            None => {},
        }
    }
}

proof fn lem_additive(s: Seq<char>, i: nat)
    ensures
        sp_additive(s, i) matches Some((v, j)) ==> i < j <= s.len() && rat_wf(v),
    decreases s.len() - i, 8int,
{
    if i < s.len() {
        lem_mult(s, i);
        match sp_mult(s, i) {
            Some((v, j)) => {
                lem_add_rest(s, v, nxt(i, j, s.len()));
            },
            None => {},
        }
    }
}

// ---------------------------------------------------------------------------
// The executable parser: each function computes exactly what its
// specification counterpart describes.
// ---------------------------------------------------------------------------

/// The executable result (with `usize` positions) agrees with the
/// specification result (with `nat` positions).
pub open spec fn res_eq(r: Option<(Rat, usize)>, sp: Option<(Rat, nat)>) -> bool {
    match r {
        None => sp is None,
        Some((v, j)) => sp == Some::<(Rat, nat)>((v, j as nat)),
    }
}

pub(crate) proof fn lem_digits_all(s: Seq<char>, i: nat)
    ensures
        forall|k: int| i <= k < digits_end(s, i) ==> is_digit(s[k]),
    decreases s.len() - i,
{
    if i < s.len() && is_digit(s[i as int]) {
        lem_digits_all(s, i + 1);
    }
}

pub(crate) proof fn lem_pow10_mono(a: nat, b: nat)
    requires
        a <= b,
    ensures
        pow10(a) <= pow10(b),
    decreases b,
{
    if a < b {
        lem_pow10_mono(a, (b - 1) as nat);
        lem_pow10_pos((b - 1) as nat);
    }
}

pub(crate) proof fn lem_pow10_add(a: nat, b: nat)
    ensures
        pow10(a + b) == pow10(a) * pow10(b),
    decreases b,
{
    if b == 0 {
        assert(pow10(a) * 1 == pow10(a)) by (nonlinear_arith);
    } else {
        lem_pow10_add(a, (b - 1) as nat);
        assert(10 * (pow10(a) * pow10((b - 1) as nat)) == pow10(a) * (10 * pow10(
            (b - 1) as nat,
        ))) by (nonlinear_arith);
    }
}

pub(crate) proof fn lem_pow10_27()
    ensures
        pow10(27) == 1000000000000000000000000000nat,
{
    reveal_with_fuel(pow10, 29);
}

proof fn lem_digits_val_bound(s: Seq<char>, i: nat, j: nat)
    requires
        i <= j,
        forall|k: int| i <= k < j ==> is_digit(s[k]),
    ensures
        digits_val(s, i, j) < pow10((j - i) as nat),
    decreases j - i,
{
    if i < j {
        lem_digits_val_bound(s, i, (j - 1) as nat);
        assert(digit_val(s[(j - 1) as int]) <= 9);
        assert(digits_val(s, i, (j - 1) as nat) * 10 + 9 < pow10(((j - 1) - i) as nat) * 10)
            by (nonlinear_arith)
            requires
                digits_val(s, i, (j - 1) as nat) < pow10(((j - 1) - i) as nat),
        ;
    }
}

/// First position at or after `i` holding no digit.
pub(crate) fn scan_digits(s: &Vec<char>, i: usize) -> (j: usize)
    requires
        i <= s@.len(),
    ensures
        j as nat == digits_end(s@, i as nat),
        i <= j <= s@.len(),
{
    let n: usize = s.len();
    let mut j: usize = i;
    while j < n && s[j] >= '0' && s[j] <= '9'
        invariant
            i <= j <= n,
            n == s@.len(),
            digits_end(s@, i as nat) == digits_end(s@, j as nat),
        decreases n - j,
    {
        j = j + 1;
    }
    j
}

/// Value of the digit run `s[i..j]`.
pub(crate) fn digits_value(s: &Vec<char>, i: usize, j: usize) -> (v: u128)
    requires
        i <= j <= s@.len(),
        j - i <= 27,
        forall|k: int| i <= k < j ==> is_digit(s@[k]),
    ensures
        v as nat == digits_val(s@, i as nat, j as nat),
        (v as nat) < pow10((j - i) as nat),
{
    proof {
        lem_pow10_27();
        lem_digits_val_bound(s@, i as nat, j as nat);
    }
    let mut v: u128 = 0;
    let mut k: usize = i;
    while k < j
        invariant
            i <= k <= j <= s@.len(),
            j - i <= 27,
            forall|t: int| i <= t < j ==> is_digit(s@[t]),
            v as nat == digits_val(s@, i as nat, k as nat),
            pow10(27) == 1000000000000000000000000000nat,
        decreases j - k,
    {
        proof {
            lem_digits_val_bound(s@, i as nat, k as nat);
            lem_pow10_mono((k - i) as nat, 27);
        }
        let c = s[k];
        let d: u32 = (c as u32) - 48;
        v = v * 10 + (d as u128);
        k = k + 1;
    }
    proof {
        lem_digits_val_bound(s@, i as nat, j as nat);
    }
    v
}

/// Ten to the power `k`.
pub(crate) fn pow10_u128(k: usize) -> (r: u128)
    requires
        k <= 27,
    ensures
        r as nat == pow10(k as nat),
{
    proof {
        lem_pow10_27();
    }
    let mut r: u128 = 1;
    let mut t: usize = 0;
    while t < k
        invariant
            t <= k <= 27,
            r as nat == pow10(t as nat),
            pow10(27) == 1000000000000000000000000000nat,
        decreases k - t,
    {
        proof {
            lem_pow10_mono((t + 1) as nat, 27);
        }
        r = r * 10;
        t = t + 1;
    }
    r
}

fn parse_number(s: &Vec<char>, i: usize) -> (r: Option<(Rat, usize)>)
    requires
        i <= s@.len(),
    ensures
        res_eq(r, sp_number(s@, i as nat)),
{
    let n: usize = s.len();
    if i >= n {
        return None;
    }
    let j1 = scan_digits(s, i);
    let dotted: bool = j1 < n && s[j1] == '.';
    let j2: usize = if dotted {
        scan_digits(s, j1 + 1)
    } else {
        j1
    };
    let di: usize = j1 - i;
    let df: usize = if dotted {
        j2 - j1 - 1
    } else {
        0
    };
    if di + df == 0 {
        return None;
    }
    if di + df > 27 {
        return None;
    }
    proof {
        lem_digits_all(s@, i as nat);
        if dotted {
            lem_digits_all(s@, (j1 + 1) as nat);
        }
        lem_pow10_27();
        lem_pow10_pos(df as nat);
    }
    let iv: u128 = digits_value(s, i, j1);
    let fv: u128 = if dotted {
        digits_value(s, j1 + 1, j2)
    } else {
        0
    };
    let p: u128 = pow10_u128(df);
    proof {
        lem_pow10_add(di as nat, df as nat);
        lem_pow10_mono((di + df) as nat, 27);
        assert((iv as nat) * (p as nat) < pow10(di as nat) * pow10(df as nat)) by (nonlinear_arith)
            requires
                (iv as nat) < pow10(di as nat),
                p as nat == pow10(df as nat),
                (p as nat) >= 1,
        ;
        lem_pow10_mono(df as nat, 27);
    }
    let nv: u128 = iv * p + fv;
    match rat_mk_i128(nv as i128, p as i128) {
        None => None,
        Some(r) => Some((r, j2)),
    }
}

fn alpha_char(c: char) -> (r: bool)
    ensures
        r == is_alpha(c),
{
    ('a' <= c && c <= 'z') || ('A' <= c && c <= 'Z')
}

/// Case-insensitive keyword test at a position.
fn kw_match(s: &Vec<char>, i: usize, kw: &Vec<char>) -> (r: bool)
    requires
        i <= s@.len(),
    ensures
        r == kw_at(s@, i as nat, kw@),
{
    let n: usize = s.len();
    let m: usize = kw.len();
    if m > n - i {
        proof {
            assert(!kw_at(s@, i as nat, kw@));
        }
        return false;
    }
    let mut t: usize = 0;
    while t < m
        invariant
            t <= m,
            m == kw@.len(),
            n == s@.len(),
            i + m <= n,
            lower_seq(s@.subrange(i as int, i + t)) =~= kw@.subrange(0, t as int),
        decreases m - t,
    {
        if ascii_lower_char(s[i + t]) != kw[t] {
            proof {
                assert(!kw_at(s@, i as nat, kw@)) by {
                    if lower_seq(s@.subrange(i as int, i + m)) == kw@ {
                        assert(lower_seq(s@.subrange(i as int, i + m))[t as int] == kw@[t as int]);
                        assert(lower_char(s@[i + t]) == kw@[t as int]);
                    }
                }
            }
            return false;
        }
        proof {
            assert(s@.subrange(i as int, i + t + 1) =~= s@.subrange(i as int, i + t).push(
                s@[i + t],
            ));
            assert(lower_seq(s@.subrange(i as int, i + t + 1)) =~= lower_seq(
                s@.subrange(i as int, i + t),
            ).push(lower_char(s@[i + t])));
            assert(kw@.subrange(0, t + 1) =~= kw@.subrange(0, t as int).push(kw@[t as int]));
        }
        t = t + 1;
    }
    proof {
        assert(kw@.subrange(0, m as int) =~= kw@);
        assert(s@.subrange(i as int, i + m) =~= s@.subrange(i as int, i + m));
    }
    true
}

/// The function keyword at `i`, with its length.
fn fn_at(s: &Vec<char>, i: usize) -> (r: Option<(CalcFn, usize)>)
    requires
        i <= s@.len(),
    ensures
        match r {
            None => sp_fn_at(s@, i as nat) is None,
            Some((f, l)) => sp_fn_at(s@, i as nat) == Some::<(CalcFn, nat)>((f, l as nat)),
        },
{
    let kw_sqrt: Vec<char> = vec!['s', 'q', 'r', 't'];
    let kw_sin: Vec<char> = vec!['s', 'i', 'n'];
    let kw_cos: Vec<char> = vec!['c', 'o', 's'];
    let kw_tan: Vec<char> = vec!['t', 'a', 'n'];
    let kw_log: Vec<char> = vec!['l', 'o', 'g'];
    let kw_ln: Vec<char> = vec!['l', 'n'];
    let kw_abs: Vec<char> = vec!['a', 'b', 's'];
    let kw_floor: Vec<char> = vec!['f', 'l', 'o', 'o', 'r'];
    let kw_ceil: Vec<char> = vec!['c', 'e', 'i', 'l'];
    let kw_round: Vec<char> = vec!['r', 'o', 'u', 'n', 'd'];
    if kw_match(s, i, &kw_sqrt) {
        Some((CalcFn::Sqrt, 4))
    } else if kw_match(s, i, &kw_sin) {
        Some((CalcFn::Sin, 3))
    } else if kw_match(s, i, &kw_cos) {
        Some((CalcFn::Cos, 3))
    } else if kw_match(s, i, &kw_tan) {
        Some((CalcFn::Tan, 3))
    } else if kw_match(s, i, &kw_log) {
        Some((CalcFn::Log, 3))
    } else if kw_match(s, i, &kw_ln) {
        Some((CalcFn::Ln, 2))
    } else if kw_match(s, i, &kw_abs) {
        Some((CalcFn::Abs, 3))
    } else if kw_match(s, i, &kw_floor) {
        Some((CalcFn::Floor, 5))
    } else if kw_match(s, i, &kw_ceil) {
        Some((CalcFn::Ceil, 4))
    } else if kw_match(s, i, &kw_round) {
        Some((CalcFn::Round, 5))
    } else {
        None
    }
}

#[verifier::rlimit(100)]
#[verifier::spinoff_prover]
fn parse_primary(s: &Vec<char>, i: usize) -> (r: Option<(Rat, usize)>)
    requires
        i <= s@.len(),
    ensures
        res_eq(r, sp_primary(s@, i as nat)),
    decreases s@.len() - i, 1int,
{
    let n: usize = s.len();
    if i >= n {
        return None;
    }
    if s[i] == '(' {
        match parse_additive(s, i + 1) {
            None => None,
            Some((v, j)) => {
                proof {
                    lem_additive(s@, (i + 1) as nat);
                }
                if j < n && s[j] == ')' {
                    Some((v, j + 1))
                } else {
                    None
                }
            },
        }
    } else {
        let fa = fn_at(s, i);
        let use_fn: bool = match fa {
            Some((f, l)) => i + l < n && s[i + l] == '(',
            None => false,
        };
        if use_fn {
            let (f, l) = fa.unwrap();
            match parse_additive(s, i + l + 1) {
                None => None,
                Some((v, j)) => {
                    proof {
                        lem_additive(s@, (i + l + 1) as nat);
                    }
                    if j < n && s[j] == ')' {
                        match apply_fn(f, v) {
                            None => None,
                            Some(rv) => Some((rv, j + 1)),
                        }
                    } else {
                        None
                    }
                },
            }
        } else {
            let kw_pi: Vec<char> = vec!['p', 'i'];
            if kw_match(s, i, &kw_pi) {
                Some((Rat { num: 3141592653589793, den: 1000000000000000 }, i + 2))
            } else if ascii_lower_char(s[i]) == 'e' && (i + 1 >= n || !alpha_char(s[i + 1])) {
                Some((Rat { num: 2718281828459045, den: 1000000000000000 }, i + 1))
            } else {
                parse_number(s, i)
            }
        }
    }
}

fn parse_unary(s: &Vec<char>, i: usize) -> (r: Option<(Rat, usize)>)
    requires
        i <= s@.len(),
    ensures
        res_eq(r, sp_unary(s@, i as nat)),
    decreases s@.len() - i, 2int,
{
    let n: usize = s.len();
    if i >= n {
        None
    } else if s[i] == '-' {
        match parse_unary(s, i + 1) {
            None => None,
            Some((v, j)) => {
                proof {
                    lem_unary(s@, (i + 1) as nat);
                }
                Some((rat_neg(v), j))
            },
        }
    } else if s[i] == '+' {
        parse_unary(s, i + 1)
    } else {
        parse_primary(s, i)
    }
}

fn parse_power(s: &Vec<char>, i: usize) -> (r: Option<(Rat, usize)>)
    requires
        i <= s@.len(),
    ensures
        res_eq(r, sp_power(s@, i as nat)),
    decreases s@.len() - i, 4int,
{
    let n: usize = s.len();
    if i >= n {
        return None;
    }
    match parse_unary(s, i) {
        None => None,
        Some((b, j)) => {
            proof {
                lem_unary(s@, i as nat);
            }
            if j < n && n - j > 1 && s[j] == '*' && s[j + 1] == '*' {
                match parse_power(s, j + 2) {
                    None => None,
                    Some((e, j2)) => {
                        proof {
                            lem_power(s@, (j + 2) as nat);
                        }
                        match rat_powr(b, e) {
                            None => None,
                            Some(v) => Some((v, j2)),
                        }
                    },
                }
            } else {
                Some((b, j))
            }
        },
    }
}

fn parse_mult_rest(s: &Vec<char>, left: Rat, j: usize) -> (r: Option<(Rat, usize)>)
    requires
        j <= s@.len(),
        rat_wf(left),
    ensures
        res_eq(r, sp_mult_rest(s@, left, j as nat)),
    decreases s@.len() - j, 5int,
{
    let n: usize = s.len();
    if j < n && (s[j] == '*' || s[j] == '/' || s[j] == '%') {
        if s[j] == '*' && n - j > 1 && s[j + 1] == '*' {
            Some((left, j))
        } else {
            match parse_power(s, j + 1) {
                None => None,
                Some((rv, j2)) => {
                    proof {
                        lem_power(s@, (j + 1) as nat);
                    }
                    let v = if s[j] == '*' {
                        rat_mul(left, rv)
                    } else if s[j] == '/' {
                        rat_div(left, rv)
                    } else {
                        rat_rem(left, rv)
                    };
                    match v {
                        None => None,
                        Some(nv) => parse_mult_rest(s, nv, j2),
                    }
                },
            }
        }
    } else {
        Some((left, j))
    }
}

fn parse_mult(s: &Vec<char>, i: usize) -> (r: Option<(Rat, usize)>)
    requires
        i <= s@.len(),
    ensures
        res_eq(r, sp_mult(s@, i as nat)),
    decreases s@.len() - i, 6int,
{
    let n: usize = s.len();
    if i >= n {
        return None;
    }
    match parse_power(s, i) {
        None => None,
        Some((v, j)) => {
            proof {
                lem_power(s@, i as nat);
            }
            parse_mult_rest(s, v, j)
        },
    }
}

fn parse_add_rest(s: &Vec<char>, left: Rat, j: usize) -> (r: Option<(Rat, usize)>)
    requires
        j <= s@.len(),
        rat_wf(left),
    ensures
        res_eq(r, sp_add_rest(s@, left, j as nat)),
    decreases s@.len() - j, 7int,
{
    let n: usize = s.len();
    if j < n && (s[j] == '+' || s[j] == '-') {
        match parse_mult(s, j + 1) {
            None => None,
            Some((rv, j2)) => {
                proof {
                    lem_mult(s@, (j + 1) as nat);
                }
                let v = if s[j] == '+' {
                    rat_add(left, rv)
                } else {
                    rat_sub(left, rv)
                };
                match v {
                    None => None,
                    Some(nv) => parse_add_rest(s, nv, j2),
                }
            },
        }
    } else {
        Some((left, j))
    }
}

fn parse_additive(s: &Vec<char>, i: usize) -> (r: Option<(Rat, usize)>)
    requires
        i <= s@.len(),
    ensures
        res_eq(r, sp_additive(s@, i as nat)),
    decreases s@.len() - i, 8int,
{
    let n: usize = s.len();
    if i >= n {
        return None;
    }
    match parse_mult(s, i) {
        None => None,
        Some((v, j)) => {
            proof {
                lem_mult(s@, i as nat);
            }
            parse_add_rest(s, v, j)
        },
    }
}

/// The arithmetic expression evaluator.
pub struct Calculator;

impl Calculator {
    pub fn new() -> (c: Calculator) {
        Calculator
    }

    /// The result items for a calculator query: one item carrying the
    /// rendered result, or none when the query is empty or does not
    /// evaluate.
    #[verifier::rlimit(100)]
    pub fn get_items(&self, query: &str) -> (r: Vec<Item>)
        ensures
            query@.len() == 0 ==> r@.len() == 0,
            spec_evaluate(query@) is None ==> r@.len() == 0,
            query@.len() > 0 ==> (spec_evaluate(query@) matches Some(v) ==> ({
                &&& r@.len() == 1
                &&& r@[0].item_type == ItemType::Calculator
                &&& r@[0].id@ == seq!['c', 'a', 'l', 'c', ':'] + spec_format_rat(v, 6)
                &&& r@[0].name@ == query@ + seq![' ', '=', ' '] + spec_format_rat(v, 6)
                &&& r@[0].metadata.content matches Some(c) && c@ == spec_format_rat(v, 6)
            })),
    {
        let mut out: Vec<Item> = Vec::new();
        if query.is_empty() {
            return out;
        }
        match self.evaluate(query) {
            None => out,
            Some(v) => {
                let fr: String = format_rat(v, 6);
                proof {
                    reveal_strlit("calc:");
                    assert("calc:"@ =~= seq!['c', 'a', 'l', 'c', ':']);
                    reveal_strlit(" = ");
                    assert(" = "@ =~= seq![' ', '=', ' ']);
                }
                let id = String::from_str("calc:").concat(fr.as_str());
                let name = String::from_str(query).concat(" = ").concat(fr.as_str());
                let mut item = Item::new(id, name, ItemType::Calculator).with_description(
                    String::from_str("Press Enter to copy result"),
                ).with_icon(String::from_str("accessories-calculator"));
                item.metadata.content = Some(fr);
                out.push(item);
                out
            },
        }
    }

    /// Evaluates an expression to its exact rational value; `None` for
    /// anything malformed, a division by zero, or a result outside the
    /// exact model.
    pub fn evaluate(&self, expr: &str) -> (r: Option<Rat>)
        ensures
            r == spec_evaluate(expr@),
            r matches Some(v) ==> rat_wf(v),
    {
        let q = crate::strings::to_chars(expr);
        let s = preprocess(&q);
        proof {
            lem_additive(s@, 0);
        }
        match parse_additive(&s, 0) {
            None => None,
            Some((v, j)) => {
                if j == s.len() {
                    Some(v)
                } else {
                    None
                }
            },
        }
    }
}

} // verus!
