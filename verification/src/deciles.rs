//! Income deciles of the distributional report: how households ranked by income
//! are cut into ten groups.
use vstd::prelude::*;

verus! {

/// The number of households in each of the first nine deciles of `n`.
pub open spec fn decile_size(n: nat) -> nat {
    n / 10
}

/// Where decile `d` (counted from 0) of `n` ranked households starts.
pub open spec fn decile_start(n: nat, d: nat) -> nat {
    d * decile_size(n)
}

/// Where decile `d` of `n` ranked households ends (exclusive): the tenth takes what
/// the first nine leave.
pub open spec fn decile_end(n: nat, d: nat) -> nat {
    if d == 9 {
        n
    } else {
        (d + 1) * decile_size(n)
    }
}

proof fn lemma_decile_start_bound(n: nat, d: nat)
    requires
        d <= 10,
    ensures
        decile_start(n, d) <= n,
        decile_start(n, d) <= d * n,
{
    assert(d * (n / 10) <= 10 * (n / 10)) by (nonlinear_arith)
        requires
            d <= 10,
    ;
    assert(d * (n / 10) <= d * n) by (nonlinear_arith);
}

/// The index range `(start, end)` of each decile of `n` households ranked by income:
/// the first nine hold `n / 10` households each and the tenth holds the rest.
pub fn decile_bounds(n: usize) -> (r: Vec<(usize, usize)>)
    ensures
        r@.len() == 10,
        forall|d: int|
            0 <= d < 10 ==> #[trigger] r@[d].0 == decile_start(n as nat, d as nat) && r@[d].1
                == decile_end(n as nat, d as nat),
{
    let size: usize = n / 10;
    let mut r: Vec<(usize, usize)> = Vec::new();
    let mut d: usize = 0;
    while d < 10
        invariant
            d <= 10,
            size == decile_size(n as nat),
            r@.len() == d,
            forall|e: int|
                0 <= e < d ==> #[trigger] r@[e].0 == decile_start(n as nat, e as nat) && r@[e].1
                    == decile_end(n as nat, e as nat),
        decreases 10 - d,
    {
        proof {
            lemma_decile_start_bound(n as nat, d as nat);
            lemma_decile_start_bound(n as nat, (d + 1) as nat);
        }
        let start: usize = d * size;
        let end: usize = if d == 9 {
            n
        } else {
            (d + 1) * size
        };
        assert(start == decile_start(n as nat, d as nat));
        assert(end == decile_end(n as nat, d as nat));
        let ghost before = r@;
        r.push((start, end));
        assert forall|e: int| 0 <= e < d + 1 implies #[trigger] r@[e].0 == decile_start(
            n as nat,
            e as nat,
        ) && r@[e].1 == decile_end(n as nat, e as nat) by {
            if e < d {
                assert(r@[e] == before[e]);
            }
        }
        d = d + 1;
    }
    r
}

/// The deciles cut `0..n` into ten consecutive ranges that cover it: the first starts
/// at 0, each ends where the next starts, the last ends at `n`, none runs backwards,
/// and each of the first nine holds `n / 10` households.
pub proof fn lemma_deciles_partition(n: nat)
    ensures
        decile_start(n, 0) == 0,
        decile_end(n, 9) == n,
        forall|d: nat| d < 9 ==> #[trigger] decile_end(n, d) == decile_start(n, d + 1),
        forall|d: nat| d < 10 ==> #[trigger] decile_start(n, d) <= decile_end(n, d),
        forall|d: nat| d < 9 ==> #[trigger] decile_end(n, d) - decile_start(n, d) == decile_size(n),
{
    assert forall|d: nat| d < 10 implies #[trigger] decile_start(n, d) <= decile_end(n, d) by {
        lemma_decile_start_bound(n, d);
        assert(d * (n / 10) <= (d + 1) * (n / 10)) by (nonlinear_arith);
    }
    assert forall|d: nat| d < 9 implies #[trigger] decile_end(n, d) - decile_start(n, d)
        == decile_size(n) by {
        assert((d + 1) * (n / 10) == d * (n / 10) + n / 10) by (nonlinear_arith);
    }
}

} // verus!
