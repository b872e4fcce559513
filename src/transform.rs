use vstd::prelude::*;
use vstd::arithmetic::div_mod::lemma_mul_mod_noop;

verus! {

/// The twiddle index of output `t` and input `x` in a transform of length `n`:
/// `t * x` reduced modulo `n`.
///
/// The twiddle factor `exp(±2πi·t·x/n)` has period `n` in `t * x`, so the
/// reduced index gives the same factor while the product itself could exceed
/// the range of `usize`.
pub fn phase_index(t: usize, x: usize, n: usize) -> (r: usize)
    requires
        n > 0,
    ensures
        r as int == (t as int * x as int) % (n as int),
        r < n,
{
    let a: u128 = (t % n) as u128;
    let b: u128 = (x % n) as u128;
    proof {
        let (ai, bi, m) = (a as int, b as int, n as int);
        assert(ai * bi < m * m) by (nonlinear_arith)
            requires
                0 <= ai < m,
                0 <= bi < m,
        ;
        assert(m * m <= usize::MAX as int * usize::MAX as int) by (nonlinear_arith)
            requires
                0 < m <= usize::MAX,
        ;
        lemma_mul_mod_noop(t as int, x as int, n as int);
    }
    let p: u128 = a * b;
    (p % (n as u128)) as usize
}

} // verus!
