use vstd::prelude::*;

verus! {

/// An exact rational number: `num / den` with `den > 0`.
///
/// Every arithmetic operation keeps both components within `i64::MAX` in
/// magnitude (so intermediate products always fit in `i128`) and returns
/// `None` when a result cannot be represented within that bound.
#[derive(Clone, Copy, Debug, PartialEq, Eq, Structural)]
pub struct Rat {
    pub num: i64,
    pub den: i64,
}

/// Well-formedness: positive denominator, numerator magnitude at most
/// `i64::MAX` (so negation never overflows).
pub open spec fn rat_wf(r: Rat) -> bool {
    0 < r.den && -i64::MAX <= r.num
}

pub open spec fn iabs(x: int) -> nat {
    if x >= 0 {
        x as nat
    } else {
        (-x) as nat
    }
}

/// Greatest common divisor by Euclid's recursion.
pub open spec fn gcd(a: nat, b: nat) -> nat
    decreases b,
{
    if b == 0 {
        a
    } else {
        gcd(b, a % b)
    }
}

pub proof fn lemma_gcd_pos(a: nat, b: nat)
    requires
        a > 0 || b > 0,
    ensures
        gcd(a, b) > 0,
    decreases b,
{
    if b != 0 {
        lemma_gcd_pos(b, a % b);
    }
}

pub proof fn lemma_gcd_le(a: nat, b: nat)
    requires
        b > 0,
    ensures
        gcd(a, b) <= b,
    decreases b,
{
    if a % b == 0 {
        assert(gcd(a, b) == gcd(b, 0));
    } else {
        lemma_gcd_le(b, a % b);
        assert(a % b < b);
    }
}

fn gcd_u128(a: u128, b: u128) -> (g: u128)
    ensures
        g as nat == gcd(a as nat, b as nat),
    decreases b,
{
    if b == 0 {
        a
    } else {
        gcd_u128(b, a % b)
    }
}

/// The canonical representation of the rational `n / d` (for `d > 0`):
/// reduced by the gcd, `None` when a reduced component exceeds `i64::MAX`.
pub open spec fn spec_mk(n: int, d: int) -> Option<Rat>
    recommends
        d > 0,
{
    let g = gcd(iabs(n), d as nat);
    let un = iabs(n) / g;
    let ud = (d as nat) / g;
    if un <= i64::MAX && ud <= i64::MAX {
        Some(
            Rat {
                num: (if n >= 0 {
                    un as int
                } else {
                    -(un as int)
                }) as i64,
                den: ud as i64,
            },
        )
    } else {
        None
    }
}

pub proof fn lemma_spec_mk_wf(n: int, d: int)
    requires
        d > 0,
    ensures
        spec_mk(n, d) matches Some(r) ==> rat_wf(r) && r.den <= d && iabs(r.num as int) <= iabs(n),
{
    let g = gcd(iabs(n), d as nat);
    lemma_gcd_pos(iabs(n), d as nat);
    lemma_gcd_le(iabs(n), d as nat);
    assert(g >= 1);
    assert(g <= d);
    assert((d as nat) / g >= 1) by {
        vstd::arithmetic::div_mod::lemma_div_is_ordered(g as int, d, g as int);
        assert(g as int / g as int == 1) by {
            vstd::arithmetic::div_mod::lemma_div_by_self(g as int);
        }
    }
    assert((d as nat) / g <= d as nat) by {
        vstd::arithmetic::div_mod::lemma_div_is_ordered_by_denominator(d, 1, g as int);
    }
    assert(iabs(n) / g <= iabs(n)) by {
        if iabs(n) > 0 {
            vstd::arithmetic::div_mod::lemma_div_is_ordered_by_denominator(iabs(n) as int, 1, g as int);
        }
    }
}

/// Builds the canonical `Rat` for `n / d`, reducing by the gcd.
pub fn rat_mk_i128(n: i128, d: i128) -> (r: Option<Rat>)
    requires
        0 < d,
        -0x7fff_ffff_ffff_ffff_ffff_ffff_ffff_ffffi128 <= n,
    ensures
        r == spec_mk(n as int, d as int),
        r matches Some(x) ==> rat_wf(x),
{
    proof {
        lemma_spec_mk_wf(n as int, d as int);
    }
    let neg: bool = n < 0;
    let un: u128 = if neg {
        (-n) as u128
    } else {
        n as u128
    };
    let ud: u128 = d as u128;
    assert(un as nat == iabs(n as int));
    let g: u128 = gcd_u128(un, ud);
    proof {
        lemma_gcd_pos(un as nat, ud as nat);
    }
    let qn: u128 = un / g;
    let qd: u128 = ud / g;
    if qn <= i64::MAX as u128 && qd <= i64::MAX as u128 {
        let num: i64 = if neg {
            -(qn as i64)
        } else {
            qn as i64
        };
        Some(Rat { num, den: qd as i64 })
    } else {
        None
    }
}

/// The rational value zero.
pub open spec fn spec_zero() -> Rat {
    Rat { num: 0, den: 1 }
}

/// The rational value one.
pub open spec fn spec_one() -> Rat {
    Rat { num: 1, den: 1 }
}

pub open spec fn spec_add(a: Rat, b: Rat) -> Option<Rat>
    recommends
        rat_wf(a),
        rat_wf(b),
{
    spec_mk(a.num * b.den + b.num * a.den, a.den * b.den)
}

pub fn rat_add(a: Rat, b: Rat) -> (r: Option<Rat>)
    requires
        rat_wf(a),
        rat_wf(b),
    ensures
        r == spec_add(a, b),
        r matches Some(x) ==> rat_wf(x),
{
    proof {
        lemma_prod_bound(a.num as int, b.den as int);
        lemma_prod_bound(b.num as int, a.den as int);
        lemma_prod_bound(a.den as int, b.den as int);
        assert(a.den as int * b.den as int >= 1) by (nonlinear_arith)
            requires
                a.den >= 1,
                b.den >= 1,
        ;
    }
    let n: i128 = (a.num as i128) * (b.den as i128) + (b.num as i128) * (a.den as i128);
    let d: i128 = (a.den as i128) * (b.den as i128);
    rat_mk_i128(n, d)
}

pub open spec fn spec_neg(a: Rat) -> Rat
    recommends
        rat_wf(a),
{
    Rat { num: (-(a.num as int)) as i64, den: a.den }
}

pub fn rat_neg(a: Rat) -> (r: Rat)
    requires
        rat_wf(a),
    ensures
        r == spec_neg(a),
        rat_wf(r),
{
    Rat { num: -a.num, den: a.den }
}

pub open spec fn spec_abs(a: Rat) -> Rat
    recommends
        rat_wf(a),
{
    if a.num >= 0 {
        a
    } else {
        spec_neg(a)
    }
}

pub fn rat_abs(a: Rat) -> (r: Rat)
    requires
        rat_wf(a),
    ensures
        r == spec_abs(a),
        rat_wf(r),
{
    if a.num >= 0 {
        a
    } else {
        rat_neg(a)
    }
}

pub open spec fn spec_sub(a: Rat, b: Rat) -> Option<Rat>
    recommends
        rat_wf(a),
        rat_wf(b),
{
    spec_add(a, spec_neg(b))
}

pub fn rat_sub(a: Rat, b: Rat) -> (r: Option<Rat>)
    requires
        rat_wf(a),
        rat_wf(b),
    ensures
        r == spec_sub(a, b),
        r matches Some(x) ==> rat_wf(x),
{
    rat_add(a, rat_neg(b))
}

pub open spec fn spec_mul(a: Rat, b: Rat) -> Option<Rat>
    recommends
        rat_wf(a),
        rat_wf(b),
{
    spec_mk(a.num * b.num, a.den * b.den)
}

pub fn rat_mul(a: Rat, b: Rat) -> (r: Option<Rat>)
    requires
        rat_wf(a),
        rat_wf(b),
    ensures
        r == spec_mul(a, b),
        r matches Some(x) ==> rat_wf(x),
{
    proof {
        lemma_prod_bound(a.num as int, b.num as int);
        lemma_prod_bound(a.den as int, b.den as int);
        assert(a.den as int * b.den as int >= 1) by (nonlinear_arith)
            requires
                a.den >= 1,
                b.den >= 1,
        ;
    }
    let n: i128 = (a.num as i128) * (b.num as i128);
    let d: i128 = (a.den as i128) * (b.den as i128);
    rat_mk_i128(n, d)
}

/// The reciprocal; `None` for zero.
pub open spec fn spec_inv(a: Rat) -> Option<Rat>
    recommends
        rat_wf(a),
{
    if a.num == 0 {
        None
    } else {
        spec_mk(
            if a.num > 0 {
                a.den as int
            } else {
                -(a.den as int)
            },
            iabs(a.num as int) as int,
        )
    }
}

pub fn rat_inv(a: Rat) -> (r: Option<Rat>)
    requires
        rat_wf(a),
    ensures
        r == spec_inv(a),
        r matches Some(x) ==> rat_wf(x),
{
    if a.num == 0 {
        None
    } else {
        let n: i128 = if a.num > 0 {
            a.den as i128
        } else {
            -(a.den as i128)
        };
        let d: i128 = if a.num > 0 {
            a.num as i128
        } else {
            -(a.num as i128)
        };
        rat_mk_i128(n, d)
    }
}

/// Division as multiplication by the reciprocal; `None` for a zero divisor.
pub open spec fn spec_div(a: Rat, b: Rat) -> Option<Rat>
    recommends
        rat_wf(a),
        rat_wf(b),
{
    match spec_inv(b) {
        None => None,
        Some(ib) => spec_mul(a, ib),
    }
}

pub fn rat_div(a: Rat, b: Rat) -> (r: Option<Rat>)
    requires
        rat_wf(a),
        rat_wf(b),
    ensures
        r == spec_div(a, b),
        r matches Some(x) ==> rat_wf(x),
{
    match rat_inv(b) {
        None => None,
        Some(ib) => rat_mul(a, ib),
    }
}

/// Integer division truncated toward zero.
pub open spec fn spec_tdiv(t: int, u: int) -> int
    recommends
        u != 0,
{
    if (t >= 0) == (u >= 0) {
        (iabs(t) / iabs(u)) as int
    } else {
        -((iabs(t) / iabs(u)) as int)
    }
}

/// Remainder with the sign convention of a truncated quotient
/// (`a - b * trunc(a / b)`); `None` for a zero divisor or when the
/// truncated quotient cannot be represented.
pub open spec fn spec_rem(a: Rat, b: Rat) -> Option<Rat>
    recommends
        rat_wf(a),
        rat_wf(b),
{
    if b.num == 0 {
        None
    } else {
        let q = spec_tdiv(a.num * b.den, b.num * a.den);
        if iabs(q) <= i64::MAX {
            match spec_mul(b, Rat { num: q as i64, den: 1 }) {
                None => None,
                Some(p) => spec_sub(a, p),
            }
        } else {
            None
        }
    }
}

pub fn rat_rem(a: Rat, b: Rat) -> (r: Option<Rat>)
    requires
        rat_wf(a),
        rat_wf(b),
    ensures
        r == spec_rem(a, b),
        r matches Some(x) ==> rat_wf(x),
{
    if b.num == 0 {
        return None;
    }
    proof {
        lemma_prod_bound(a.num as int, b.den as int);
        lemma_prod_bound(b.num as int, a.den as int);
    }
    let t: i128 = (a.num as i128) * (b.den as i128);
    let u: i128 = (b.num as i128) * (a.den as i128);
    assert(u != 0) by (nonlinear_arith)
        requires
            b.num != 0,
            a.den >= 1,
            u == b.num as int * a.den as int,
    ;
    let ut: u128 = if t >= 0 {
        t as u128
    } else {
        (-t) as u128
    };
    let uu: u128 = if u >= 0 {
        u as u128
    } else {
        (-u) as u128
    };
    let qm: u128 = ut / uu;
    assert(qm as nat == iabs(t as int) / iabs(u as int));
    if qm > i64::MAX as u128 {
        assert(iabs(spec_tdiv(t as int, u as int)) == qm);
        return None;
    }
    let q: i64 = if (t >= 0) == (u >= 0) {
        qm as i64
    } else {
        -(qm as i64)
    };
    assert(q as int == spec_tdiv(t as int, u as int));
    match rat_mul(b, Rat { num: q, den: 1 }) {
        None => None,
        Some(p) => rat_sub(a, p),
    }
}

/// Iterated multiplication: `a` to the power `e`.
pub open spec fn spec_pow_n(a: Rat, e: nat) -> Option<Rat>
    recommends
        rat_wf(a),
    decreases e,
{
    if e == 0 {
        Some(spec_one())
    } else {
        match spec_pow_n(a, (e - 1) as nat) {
            None => None,
            Some(p) => spec_mul(p, a),
        }
    }
}

proof fn lemma_pow_n_none(a: Rat, i: nat, e: nat)
    requires
        i <= e,
        spec_pow_n(a, i) is None,
    ensures
        spec_pow_n(a, e) is None,
    decreases e,
{
    if e > i {
        lemma_pow_n_none(a, i, (e - 1) as nat);
    }
}

/// `a` to a non-negative integer power.  Beyond the iteration cap the result
/// is representable only when the base is zero or of magnitude one, so those
/// cases are answered directly and everything else is `None`.
pub open spec fn spec_pow_capped(a: Rat, e: nat) -> Option<Rat>
    recommends
        rat_wf(a),
{
    if e <= 200 {
        spec_pow_n(a, e)
    } else if a.num == 0 {
        Some(spec_zero())
    } else if a.num == a.den {
        Some(spec_one())
    } else if a.num + a.den == 0 {
        if e % 2 == 0 {
            Some(spec_one())
        } else {
            Some(Rat { num: -1i64, den: 1 })
        }
    } else {
        None
    }
}

fn rat_pow_capped(a: Rat, e: u64) -> (r: Option<Rat>)
    requires
        rat_wf(a),
    ensures
        r == spec_pow_capped(a, e as nat),
        r matches Some(x) ==> rat_wf(x),
{
    if e <= 200 {
        let mut acc = Rat { num: 1, den: 1 };
        let mut i: u64 = 0;
        while i < e
            invariant
                i <= e,
                e <= 200,
                rat_wf(a),
                rat_wf(acc),
                spec_pow_n(a, i as nat) == Some(acc),
            decreases e - i,
        {
            match rat_mul(acc, a) {
                None => {
                    proof {
                        lemma_pow_n_none(a, (i + 1) as nat, e as nat);
                    }
                    return None;
                },
                Some(x) => {
                    acc = x;
                    i = i + 1;
                },
            }
        }
        Some(acc)
    } else if a.num == 0 {
        Some(Rat { num: 0, den: 1 })
    } else if a.num == a.den {
        Some(Rat { num: 1, den: 1 })
    } else if a.num == -a.den {
        if e % 2 == 0 {
            Some(Rat { num: 1, den: 1 })
        } else {
            Some(Rat { num: -1, den: 1 })
        }
    } else {
        None
    }
}

/// `a ** b` in the exact model: defined when the exponent is an integer
/// (denominator one) and the result is representable; a negative exponent
/// goes through the reciprocal.
pub open spec fn spec_powr(a: Rat, b: Rat) -> Option<Rat>
    recommends
        rat_wf(a),
        rat_wf(b),
{
    if b.den != 1 {
        None
    } else if b.num >= 0 {
        spec_pow_capped(a, b.num as nat)
    } else {
        match spec_inv(a) {
            None => None,
            Some(ia) => spec_pow_capped(ia, (-(b.num as int)) as nat),
        }
    }
}

pub fn rat_powr(a: Rat, b: Rat) -> (r: Option<Rat>)
    requires
        rat_wf(a),
        rat_wf(b),
    ensures
        r == spec_powr(a, b),
        r matches Some(x) ==> rat_wf(x),
{
    if b.den != 1 {
        None
    } else if b.num >= 0 {
        rat_pow_capped(a, b.num as u64)
    } else {
        match rat_inv(a) {
            None => None,
            Some(ia) => rat_pow_capped(ia, (-b.num) as u64),
        }
    }
}

/// Largest integer not above the value.
pub open spec fn spec_floor(a: Rat) -> Rat
    recommends
        rat_wf(a),
{
    Rat { num: (a.num as int / a.den as int) as i64, den: 1 }
}

pub fn rat_floor(a: Rat) -> (r: Rat)
    requires
        rat_wf(a),
    ensures
        r == spec_floor(a),
        rat_wf(r),
        r.den == 1,
{
    let d: u64 = a.den as u64;
    if a.num >= 0 {
        let q: u64 = (a.num as u64) / d;
        proof {
            assert(a.num as int / a.den as int == (a.num as u64 / d) as int);
        }
        Rat { num: q as i64, den: 1 }
    } else {
        let un: u64 = (-a.num) as u64;
        let q0: u64 = un / d;
        let r0: u64 = un % d;
        if r0 == 0 {
            proof {
                let nl = a.num as int;
                let dl = d as int;
                let ql = q0 as int;
                vstd::arithmetic::div_mod::lemma_fundamental_div_mod(un as int, dl);
                assert(nl == (-ql) * dl + 0) by (nonlinear_arith)
                    requires
                        nl == -(un as int),
                        un as int == dl * ql + 0,
                ;
                vstd::arithmetic::div_mod::lemma_fundamental_div_mod_converse(nl, dl, -ql, 0);
            }
            Rat { num: -(q0 as i64), den: 1 }
        } else {
            proof {
                let nl = a.num as int;
                let dl = d as int;
                let ql = q0 as int;
                let rl = r0 as int;
                vstd::arithmetic::div_mod::lemma_fundamental_div_mod(un as int, dl);
                assert(d >= 2) by {
                    if d == 1 {
                        assert(un as int % 1int == 0) by {
                            vstd::arithmetic::div_mod::lemma_mod_multiples_basic(un as int, 1);
                        }
                    }
                }
                assert(ql < un as int) by (nonlinear_arith)
                    requires
                        un as int == dl * ql + rl,
                        0 < rl < dl,
                        dl >= 2,
                        ql >= 0,
                ;
                assert(nl == (-ql - 1) * dl + (dl - rl)) by (nonlinear_arith)
                    requires
                        nl == -(un as int),
                        un as int == dl * ql + rl,
                ;
                vstd::arithmetic::div_mod::lemma_fundamental_div_mod_converse(
                    nl,
                    dl,
                    -ql - 1,
                    dl - rl,
                );
            }
            Rat { num: -(q0 as i64) - 1, den: 1 }
        }
    }
}

/// Smallest integer not below the value.
pub open spec fn spec_ceil(a: Rat) -> Rat
    recommends
        rat_wf(a),
{
    if a.num as int % a.den as int == 0 {
        spec_floor(a)
    } else {
        Rat { num: (a.num as int / a.den as int + 1) as i64, den: 1 }
    }
}

pub fn rat_ceil(a: Rat) -> (r: Rat)
    requires
        rat_wf(a),
    ensures
        r == spec_ceil(a),
        rat_wf(r),
        r.den == 1,
{
    let f = rat_floor(a);
    let exact: bool = if a.num >= 0 {
        (a.num as u64) % (a.den as u64) == 0
    } else {
        ((-a.num) as u64) % (a.den as u64) == 0
    };
    proof {
        let n = a.num as int;
        let d = a.den as int;
        vstd::arithmetic::div_mod::lemma_fundamental_div_mod(n, d);
        if a.num < 0 {
            let un = -n;
            vstd::arithmetic::div_mod::lemma_fundamental_div_mod(un, d);
            if un % d == 0 {
                assert(n == (-(un / d)) * d + 0) by (nonlinear_arith)
                    requires
                        n == -un,
                        un == d * (un / d) + 0,
                ;
                vstd::arithmetic::div_mod::lemma_fundamental_div_mod_converse(
                    n,
                    d,
                    -(un / d),
                    0,
                );
            } else {
                assert(n == (-(un / d) - 1) * d + (d - un % d)) by (nonlinear_arith)
                    requires
                        n == -un,
                        un == d * (un / d) + un % d,
                ;
                vstd::arithmetic::div_mod::lemma_fundamental_div_mod_converse(
                    n,
                    d,
                    -(un / d) - 1,
                    d - un % d,
                );
            }
        }
        if n % d != 0 {
            assert(d >= 2) by {
                if d == 1 {
                    assert(n % 1int == 0) by {
                        vstd::arithmetic::div_mod::lemma_mod_multiples_basic(n, 1);
                    }
                }
            }
            if n >= 0 {
                assert(n / d < i64::MAX) by (nonlinear_arith)
                    requires
                        n == d * (n / d) + n % d,
                        0 <= n <= i64::MAX,
                        0 < n % d < d,
                        d >= 2,
                ;
            } else {
                assert(n / d < 0) by {
                    vstd::arithmetic::div_mod::lemma_div_is_ordered(n, -1, d);
                    vstd::arithmetic::div_mod::lemma_fundamental_div_mod(-1, d);
                    assert((-1int) / d <= 0) by (nonlinear_arith)
                        requires
                            d >= 2,
                            -1int == d * ((-1int) / d) + (-1int) % d,
                            0 <= (-1int) % d < d,
                    ;
                }
            }
        }
    }
    if exact {
        f
    } else {
        Rat { num: f.num + 1, den: 1 }
    }
}

/// Nearest integer, ties away from zero.
pub open spec fn spec_round(a: Rat) -> Rat
    recommends
        rat_wf(a),
{
    let q = ((2 * iabs(a.num as int) + a.den as nat) / (2 * a.den as nat)) as int;
    Rat {
        num: (if a.num >= 0 {
            q
        } else {
            -q
        }) as i64,
        den: 1,
    }
}

pub fn rat_round(a: Rat) -> (r: Rat)
    requires
        rat_wf(a),
    ensures
        r == spec_round(a),
        rat_wf(r),
        r.den == 1,
{
    let un: u128 = if a.num >= 0 {
        a.num as u128
    } else {
        (-a.num) as u128
    };
    let d: u128 = a.den as u128;
    let t: u128 = 2 * un + d;
    let q: u128 = t / (2 * d);
    proof {
        let unl = un as int;
        let dl = d as int;
        assert((unl + 1) * (2 * dl) - 1 == unl * (2 * dl) + (2 * dl - 1)) by (nonlinear_arith);
        vstd::arithmetic::div_mod::lemma_fundamental_div_mod_converse(
            (unl + 1) * (2 * dl) - 1,
            2 * dl,
            unl,
            2 * dl - 1,
        );
        assert(2 * unl + dl <= (unl + 1) * (2 * dl) - 1) by (nonlinear_arith)
            requires
                dl >= 1,
                unl >= 0,
        ;
        vstd::arithmetic::div_mod::lemma_div_is_ordered(
            2 * unl + dl,
            (unl + 1) * (2 * dl) - 1,
            2 * dl,
        );
        assert(q <= un);
    }
    if a.num >= 0 {
        Rat { num: q as i64, den: 1 }
    } else {
        Rat { num: -(q as i64), den: 1 }
    }
}

/// Floor of the square root, by binary search.
fn isqrt_u64(n: u64) -> (r: u64)
    ensures
        r * r <= n < (r + 1) * (r + 1),
{
    let mut lo: u64 = 0;
    let mut hi: u64 = 0x1_0000_0000;
    proof {
        assert((n as int) < 0x1_0000_0000 * 0x1_0000_0000) by (nonlinear_arith)
            requires
                n <= u64::MAX,
        ;
    }
    while lo + 1 < hi
        invariant
            lo < hi <= 0x1_0000_0000,
            lo * lo <= n,
            (n as int) < (hi as int) * (hi as int),
        decreases hi - lo,
    {
        let mid: u64 = lo + (hi - lo) / 2;
        proof {
            assert(mid as int * mid as int <= 0xffff_ffff * 0xffff_ffffint) by (nonlinear_arith)
                requires
                    0 <= mid as int <= 0xffff_ffff,
            ;
        }
        if mid * mid <= n {
            lo = mid;
        } else {
            hi = mid;
        }
    }
    lo
}

proof fn lemma_sqrt_determined(s: nat, n: nat, x: nat)
    requires
        s * s <= n < (s + 1) * (s + 1),
        x * x == n,
    ensures
        x == s,
{
    assert(x == s) by (nonlinear_arith)
        requires
            s * s <= n < (s + 1) * (s + 1),
            x * x == n,
    ;
}

/// Exact square root: defined only when both reduced components are
/// perfect squares (so the root is again rational); negative values and
/// inexact roots give `None`.
pub open spec fn spec_sqrt(a: Rat) -> Option<Rat>
    recommends
        rat_wf(a),
{
    if a.num < 0 {
        None
    } else if exists|sn: nat, sd: nat|
        #[trigger] (sn * sn) == a.num as nat && #[trigger] (sd * sd) == a.den as nat {
        let (sn, sd) = choose|sn: nat, sd: nat|
            #[trigger] (sn * sn) == a.num as nat && #[trigger] (sd * sd) == a.den as nat;
        Some(Rat { num: sn as i64, den: sd as i64 })
    } else {
        None
    }
}

pub fn rat_sqrt(a: Rat) -> (r: Option<Rat>)
    requires
        rat_wf(a),
    ensures
        r == spec_sqrt(a),
        r matches Some(x) ==> rat_wf(x),
{
    if a.num < 0 {
        return None;
    }
    let sn: u64 = isqrt_u64(a.num as u64);
    let sd: u64 = isqrt_u64(a.den as u64);
    if sn * sn == a.num as u64 && sd * sd == a.den as u64 {
        proof {
            assert(sn as nat * sn as nat == a.num as nat && sd as nat * sd as nat
                == a.den as nat);
            let (cn, cd) = choose|cn: nat, cd: nat|
                #[trigger] (cn * cn) == a.num as nat && #[trigger] (cd * cd) == a.den as nat;
            lemma_sqrt_determined(sn as nat, a.num as nat, cn);
            lemma_sqrt_determined(sd as nat, a.den as nat, cd);
            assert(sd >= 1) by (nonlinear_arith)
                requires
                    sd as nat * sd as nat == a.den as nat,
                    a.den >= 1,
            ;
            assert(sn <= i64::MAX as u64 && sd <= i64::MAX as u64) by (nonlinear_arith)
                requires
                    sn as nat * sn as nat == a.num as nat,
                    sd as nat * sd as nat == a.den as nat,
                    0 <= a.num <= i64::MAX,
                    1 <= a.den <= i64::MAX,
            ;
        }
        Some(Rat { num: sn as i64, den: sd as i64 })
    } else {
        proof {
            if exists|cn: nat, cd: nat|
                #[trigger] (cn * cn) == a.num as nat && #[trigger] (cd * cd) == a.den as nat {
                let (cn, cd) = choose|cn: nat, cd: nat|
                    #[trigger] (cn * cn) == a.num as nat && #[trigger] (cd * cd) == a.den as nat;
                lemma_sqrt_determined(sn as nat, a.num as nat, cn);
                lemma_sqrt_determined(sd as nat, a.den as nat, cd);
            }
        }
        None
    }
}

/// Exact base-ten logarithm of a positive integer: `Some(k)` iff the
/// argument is ten to the `k`.
pub open spec fn spec_log10_mag(n: nat) -> Option<nat>
    decreases n,
{
    if n == 1 {
        Some(0)
    } else if n < 10 {
        None
    } else if n % 10 == 0 {
        match spec_log10_mag(n / 10) {
            None => None,
            Some(k) => Some(k + 1),
        }
    } else {
        None
    }
}

proof fn lemma_log10_mag_small(n: nat)
    ensures
        spec_log10_mag(n) matches Some(k) ==> k <= n,
    decreases n,
{
    if n >= 10 && n % 10 == 0 {
        lemma_log10_mag_small(n / 10);
    }
}

fn log10_mag_u64(n: u64) -> (r: Option<u64>)
    ensures
        match r {
            Some(k) => spec_log10_mag(n as nat) == Some(k as nat),
            None => spec_log10_mag(n as nat) is None,
        },
    decreases n,
{
    proof {
        lemma_log10_mag_small(n as nat);
    }
    if n == 1 {
        Some(0)
    } else if n < 10 {
        None
    } else if n % 10 == 0 {
        match log10_mag_u64(n / 10) {
            None => None,
            Some(k) => {
                proof {
                    lemma_log10_mag_small((n / 10) as nat);
                }
                Some(k + 1)
            },
        }
    } else {
        None
    }
}

/// Exact base-ten logarithm: defined only when the value is an integral
/// power of ten (or its reciprocal).
pub open spec fn spec_log10(a: Rat) -> Option<Rat>
    recommends
        rat_wf(a),
{
    if a.num <= 0 {
        None
    } else if a.num == a.den {
        Some(spec_zero())
    } else if a.den == 1 {
        match spec_log10_mag(a.num as nat) {
            None => None,
            Some(k) => Some(Rat { num: k as i64, den: 1 }),
        }
    } else if a.num == 1 {
        match spec_log10_mag(a.den as nat) {
            None => None,
            Some(k) => Some(Rat { num: (-(k as int)) as i64, den: 1 }),
        }
    } else {
        None
    }
}

pub fn rat_log10(a: Rat) -> (r: Option<Rat>)
    requires
        rat_wf(a),
    ensures
        r == spec_log10(a),
        r matches Some(x) ==> rat_wf(x),
{
    if a.num <= 0 {
        None
    } else if a.num == a.den {
        Some(Rat { num: 0, den: 1 })
    } else if a.den == 1 {
        match log10_mag_u64(a.num as u64) {
            None => None,
            Some(k) => {
                proof {
                    lemma_log10_mag_small(a.num as nat);
                }
                Some(Rat { num: k as i64, den: 1 })
            },
        }
    } else if a.num == 1 {
        match log10_mag_u64(a.den as u64) {
            None => None,
            Some(k) => {
                proof {
                    lemma_log10_mag_small(a.den as nat);
                }
                Some(Rat { num: -(k as i64), den: 1 })
            },
        }
    } else {
        None
    }
}

pub proof fn lemma_floor_wf(a: Rat)
    requires
        rat_wf(a),
    ensures
        rat_wf(spec_floor(a)),
        spec_floor(a).den == 1,
        -i64::MAX <= a.num as int / a.den as int <= i64::MAX,
        spec_floor(a).num as int == a.num as int / a.den as int,
{
    let n = a.num as int;
    let d = a.den as int;
    vstd::arithmetic::div_mod::lemma_fundamental_div_mod(n, d);
    assert(-i64::MAX <= n / d <= i64::MAX) by (nonlinear_arith)
        requires
            n == d * (n / d) + n % d,
            0 <= n % d < d,
            -i64::MAX <= n <= i64::MAX,
            d >= 1,
    ;
}

pub proof fn lemma_ceil_wf(a: Rat)
    requires
        rat_wf(a),
    ensures
        rat_wf(spec_ceil(a)),
        spec_ceil(a).den == 1,
{
    lemma_floor_wf(a);
    let n = a.num as int;
    let d = a.den as int;
    vstd::arithmetic::div_mod::lemma_fundamental_div_mod(n, d);
    if n % d != 0 {
        assert(-i64::MAX <= n / d + 1 <= i64::MAX) by (nonlinear_arith)
            requires
                n == d * (n / d) + n % d,
                0 < n % d < d,
                -i64::MAX <= n <= i64::MAX,
                d >= 1,
                -i64::MAX <= n / d <= i64::MAX,
        ;
    }
}

pub proof fn lemma_round_wf(a: Rat)
    requires
        rat_wf(a),
    ensures
        rat_wf(spec_round(a)),
        spec_round(a).den == 1,
{
    let unl = iabs(a.num as int) as int;
    let dl = a.den as int;
    let q = (2 * unl + dl) / (2 * dl);
    assert((unl + 1) * (2 * dl) - 1 == unl * (2 * dl) + (2 * dl - 1)) by (nonlinear_arith);
    vstd::arithmetic::div_mod::lemma_fundamental_div_mod_converse(
        (unl + 1) * (2 * dl) - 1,
        2 * dl,
        unl,
        2 * dl - 1,
    );
    assert(2 * unl + dl <= (unl + 1) * (2 * dl) - 1) by (nonlinear_arith)
        requires
            dl >= 1,
            unl >= 0,
    ;
    vstd::arithmetic::div_mod::lemma_div_is_ordered(
        2 * unl + dl,
        (unl + 1) * (2 * dl) - 1,
        2 * dl,
    );
    assert(q <= unl);
    vstd::arithmetic::div_mod::lemma_div_pos_is_pos(2 * unl + dl, 2 * dl);
}

pub proof fn lemma_log10_wf(a: Rat)
    requires
        rat_wf(a),
    ensures
        spec_log10(a) matches Some(x) ==> rat_wf(x),
{
    if a.num > 0 {
        lemma_log10_mag_small(a.num as nat);
        lemma_log10_mag_small(a.den as nat);
    }
}

pub proof fn lemma_sqrt_wf(a: Rat)
    requires
        rat_wf(a),
    ensures
        spec_sqrt(a) matches Some(x) ==> rat_wf(x),
{
    if a.num >= 0 && exists|sn: nat, sd: nat|
        #[trigger] (sn * sn) == a.num as nat && #[trigger] (sd * sd) == a.den as nat {
        let (sn, sd) = choose|sn: nat, sd: nat|
            #[trigger] (sn * sn) == a.num as nat && #[trigger] (sd * sd) == a.den as nat;
        assert(sd >= 1 && sn <= i64::MAX && sd <= i64::MAX) by (nonlinear_arith)
            requires
                sn * sn == a.num as nat,
                sd * sd == a.den as nat,
                0 <= a.num <= i64::MAX,
                1 <= a.den <= i64::MAX,
        ;
    }
}

/// Magnitude bound for products of well-formed components.
proof fn lemma_prod_bound(x: int, y: int)
    requires
        -i64::MAX <= x <= i64::MAX,
        -i64::MAX <= y <= i64::MAX,
    ensures
        -0x4000_0000_0000_0000_0000_0000_0000_0000 < x * y,
        x * y < 0x4000_0000_0000_0000_0000_0000_0000_0000,
{
    assert(x * y <= i64::MAX * i64::MAX && -(i64::MAX * i64::MAX) <= x * y) by (nonlinear_arith)
        requires
            -i64::MAX <= x <= i64::MAX,
            -i64::MAX <= y <= i64::MAX,
    ;
}

} // verus!
