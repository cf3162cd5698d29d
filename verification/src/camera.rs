use vstd::arithmetic::div_mod::{lemma_fundamental_div_mod, lemma_mod_bound};
use vstd::prelude::*;

verus! {

/// The side of the stratified subpixel grid: the integer square root of the
/// per-pixel sample count.  The camera splits each pixel into `side * side`
/// jittered subcells, one sample each.
pub fn grid_side(samples_per_pixel: i64) -> (s: i64)
    requires
        samples_per_pixel >= 0,
    ensures
        s >= 0,
        s * s <= samples_per_pixel,
        (s + 1) * (s + 1) > samples_per_pixel,
{
    let n = samples_per_pixel;
    let mut s: i64 = 0;
    while s + 1 <= n / (s + 1)
        invariant
            0 <= s <= n,
            s * s <= n,
            s + 1 < i64::MAX,
        decreases n - s,
    {
        proof {
            let d = n as int / (s + 1) as int;
            lemma_fundamental_div_mod(n as int, (s + 1) as int);
            lemma_mod_bound(n as int, (s + 1) as int);
            assert(d * (s + 1) <= n) by (nonlinear_arith)
                requires
                    n == d * (s + 1) + (n as int % ((s + 1) as int)),
                    (n as int % ((s + 1) as int)) >= 0,
            ;
            assert((s + 1) * (s + 1) <= d * (s + 1)) by (nonlinear_arith)
                requires
                    s + 1 <= d,
                    s >= 0,
            ;
            assert(s + 1 <= n) by (nonlinear_arith)
                requires
                    (s + 1) * (s + 1) <= n,
                    s >= 0,
            ;
            assert(s + 2 < i64::MAX) by (nonlinear_arith)
                requires
                    (s + 1) * (s + 1) <= n,
                    n <= i64::MAX,
                    s >= 0,
            ;
        }
        s = s + 1;
    }
    proof {
        let d = n as int / (s + 1) as int;
        lemma_fundamental_div_mod(n as int, (s + 1) as int);
        lemma_mod_bound(n as int, (s + 1) as int);
        assert(n < (d + 1) * (s + 1)) by (nonlinear_arith)
            requires
                n == d * (s + 1) + (n as int % ((s + 1) as int)),
                (n as int % ((s + 1) as int)) < s + 1,
        ;
        assert((d + 1) * (s + 1) <= (s + 1) * (s + 1)) by (nonlinear_arith)
            requires
                d + 1 <= s + 1,
                s >= 0,
        ;
    }
    s
}

} // verus!
