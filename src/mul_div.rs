use vstd::arithmetic::div_mod::{
    lemma_div_denominator, lemma_fundamental_div_mod, lemma_fundamental_div_mod_converse,
};
use vstd::arithmetic::power2::{
    lemma2_to64, lemma2_to64_rest, lemma_pow2_adds, lemma_pow2_unfold, pow2,
};
use vstd::prelude::*;

verus! {

/// `a * b / c` rounded down, for `a` below `c`, without forming the product:
/// it walks the bits of `b` from the top, keeping `a` times the bits read so
/// far as a quotient and a remainder by `c`.
fn mul_div_below(a: u128, b: u128, c: u128) -> (r: u128)
    requires
        a < c,
    ensures
        r == (a as int) * (b as int) / (c as int),
        r <= b,
{
    let mut q: u128 = 0;
    let mut rem: u128 = 0;
    let mut p: u128 = 0x8000_0000_0000_0000_0000_0000_0000_0000;
    let ghost mut k: nat = 127;
    let ghost mut pre: int = 0;
    proof {
        lemma2_to64();
        lemma2_to64_rest();
        lemma_pow2_adds(64, 63);
        assert(pow2(127) == 0x8000_0000_0000_0000_0000_0000_0000_0000);
        assert((b as int) / (2 * p as int) == 0) by (nonlinear_arith)
            requires
                0 <= b < 2 * p,
        ;
    }
    while p > 0
        invariant
            a < c,
            p == 0 ==> pre == b,
            p > 0 ==> p == pow2(k) && pre == (b as int) / (2 * p as int),
            0 <= pre <= b,
            (a as int) * pre == (q as int) * (c as int) + (rem as int),
            rem < c,
            q <= pre,
        decreases p,
    {
        let bit: u128 = (b / p) % 2;
        let ghost q0 = q as int;
        let ghost r0 = rem as int;
        proof {
            lemma_div_denominator(b as int, p as int, 2);
            lemma_fundamental_div_mod((b / p) as int, 2);
            assert((b as int) / (p as int) == 2 * pre + bit);
            assert((b as int) / (p as int) <= b) by (nonlinear_arith)
                requires
                    p > 0,
                    b >= 0,
            ;
            assert(q0 < pre || pre == 0) by (nonlinear_arith)
                requires
                    (a as int) * pre == q0 * (c as int) + r0,
                    0 <= r0,
                    0 <= a < c,
                    0 <= q0 <= pre,
            ;
        }
        if rem >= c - rem {
            q = 2 * q + 1;
            rem = rem - (c - rem);
        } else {
            q = 2 * q;
            rem = rem + rem;
        }
        proof {
            assert((a as int) * (2 * pre) == (q as int) * (c as int) + (rem as int))
                by (nonlinear_arith)
                requires
                    (a as int) * pre == q0 * (c as int) + r0,
                    (q == 2 * q0 + 1 && rem == 2 * r0 - c) || (q == 2 * q0 && rem == 2 * r0),
            ;
        }
        let ghost q1 = q as int;
        let ghost r1 = rem as int;
        if bit == 1 {
            if a >= c - rem {
                q = q + 1;
                rem = a - (c - rem);
            } else {
                rem = rem + a;
            }
        }
        proof {
            let next = 2 * pre + bit;
            assert((a as int) * next == (q as int) * (c as int) + (rem as int)) by (nonlinear_arith)
                requires
                    next == 2 * pre + bit,
                    bit == 0 || bit == 1,
                    (a as int) * (2 * pre) == q1 * (c as int) + r1,
                    bit == 0 ==> q == q1 && rem == r1,
                    bit == 1 ==> (q == q1 + 1 && rem == a - (c - r1)) || (q == q1 && rem == r1 + a),
            ;
            assert(q <= next) by (nonlinear_arith)
                requires
                    (a as int) * next == (q as int) * (c as int) + (rem as int),
                    0 <= rem,
                    0 <= a < c,
                    0 <= next,
            ;
            pre = next;
            lemma2_to64();
            if p > 1 {
                lemma_pow2_unfold(k);
                k = (k - 1) as nat;
            }
        }
        let ghost p0 = p as int;
        p = p / 2;
        proof {
            if p > 0 {
                assert(p0 == 2 * p);
            } else {
                assert(p0 == 1);
                assert(pre == (b as int) / p0);
                assert((b as int) / 1 == b as int);
            }
        }
    }
    proof {
        lemma_fundamental_div_mod_converse((a as int) * (b as int), c as int, q as int, rem as int);
    }
    q
}

/// `a * b / c` rounded down, where it fits in a `u128`; `None` where it
/// does not.
pub fn mul_div(a: u128, b: u128, c: u128) -> (r: Option<u128>)
    requires
        c > 0,
    ensures
        (a as int) * (b as int) / (c as int) <= u128::MAX ==> r == Some(
            ((a as int) * (b as int) / (c as int)) as u128,
        ),
        (a as int) * (b as int) / (c as int) > u128::MAX ==> r is None,
{
    let whole = a / c;
    let part = a % c;
    let low = mul_div_below(part, b, c);
    proof {
        let t = (part as int) * (b as int) / (c as int);
        let s = (part as int) * (b as int) % (c as int);
        lemma_fundamental_div_mod((part as int) * (b as int), c as int);
        lemma_fundamental_div_mod(a as int, c as int);
        assert((a as int) * (b as int) == ((whole as int) * (b as int) + t) * (c as int) + s)
            by (nonlinear_arith)
            requires
                a == whole * c + part,
                (part as int) * (b as int) == (c as int) * t + s,
        ;
        lemma_fundamental_div_mod_converse(
            (a as int) * (b as int),
            c as int,
            (whole as int) * (b as int) + t,
            s,
        );
        assert((whole as int) * (b as int) >= 0) by (nonlinear_arith)
            requires
                whole >= 0,
                b >= 0,
        ;
    }
    match whole.checked_mul(b) {
        None => None,
        Some(high) => high.checked_add(low),
    }
}

} // verus!
