//! Exact integer arithmetic helpers shared by the signal-processing modules.

use vstd::prelude::*;
use vstd::arithmetic::div_mod::lemma_fundamental_div_mod;
use vstd::arithmetic::div_mod::lemma_fundamental_div_mod_converse_div;
use vstd::arithmetic::div_mod::lemma_mod_bound;

verus! {

/// Flooring division of a signed 128-bit value by a positive divisor.
///
/// Matches the mathematical (Euclidean) quotient for positive divisors, so
/// contracts can state results directly with `/` on `int`.
pub fn floor_div_i128(n: i128, d: i128) -> (r: i128)
    requires
        d > 0,
        n >= i128::MIN + d,
    ensures
        r == n as int / d as int,
{
    if n >= 0 {
        n / d
    } else {
        let m: i128 = -n;
        let q: i128 = (m + (d - 1)) / d;
        proof {
            let q0 = n as int / d as int;
            let r0 = n as int % d as int;
            lemma_fundamental_div_mod(n as int, d as int);
            lemma_mod_bound(n as int, d as int);
            assert(m + (d - 1) == (-q0) * (d as int) + (d - 1 - r0)) by (nonlinear_arith)
                requires
                    m == -(n as int),
                    n == (d as int) * q0 + r0,
            ;
            lemma_fundamental_div_mod_converse_div(
                m + (d - 1),
                d as int,
                -q0,
                d - 1 - r0,
            );
            assert(q == -q0);
        }
        -q
    }
}

} // verus!
