//! The routine that the demonstration program runs under the debugger.

use vstd::prelude::*;

verus! {

/// The product of all the integers from zero up to, but not including, `n`.
pub open spec fn product_below(n: nat) -> nat
    decreases n,
{
    if n == 0 {
        1
    } else {
        ((n - 1) as nat) * product_below((n - 1) as nat)
    }
}

/// The factor zero is part of every product but the empty one.
pub proof fn lemma_product_below_vanishes(n: nat)
    ensures
        product_below(n) == if n == 0 { 1nat } else { 0nat },
    decreases n,
{
    if n > 0 {
        let m = (n - 1) as nat;
        lemma_product_below_vanishes(m);
        assert(product_below(n) == m * product_below(m));
        if m == 0 {
            assert(0nat * product_below(m) == 0nat);
        } else {
            assert(m * 0nat == 0nat);
        }
    }
}

/// A factorial that is wrong on purpose: it multiplies from zero instead of
/// from one, so that whoever steps through it in the debugger has a fault to
/// find. The result is 1 for `n == 0` and 0 for every other `n`.
pub fn factorial(n: usize) -> (res: usize)
    ensures
        res == product_below(n as nat),
        res == if n == 0 { 1usize } else { 0usize },
{
    let mut res: usize = 1;
    let mut i: usize = 0;
    while i < n
        invariant
            i <= n,
            res == product_below(i as nat),
            res == if i == 0 { 1usize } else { 0usize },
        decreases n - i,
    {
        proof {
            lemma_product_below_vanishes((i + 1) as nat);
        }
        res = res * i;
        i = i + 1;
    }
    res
}

} // verus!
