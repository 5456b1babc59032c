//! Enumeration of interacting particle pairs.
//!
//! The force field sums pair interactions in one of two orders: the
//! pairwise strategy walks each unordered pair {i, j} once (i < j) and
//! deposits the interaction into both particles' slots with opposite sign;
//! the per-particle strategy, used when the accumulation is partitioned
//! over workers, has every particle walk all of its partners itself.  This
//! module produces both index listings and proves that they are exhaustive,
//! free of repetition, deterministically ordered, and cover the same
//! interactions.

use vstd::prelude::*;

verus! {

/// Strict lexicographic order on index pairs: the order in which the
/// pairwise strategy visits them.
pub open spec fn lex_lt(a: (usize, usize), b: (usize, usize)) -> bool {
    a.0 < b.0 || (a.0 == b.0 && a.1 < b.1)
}

/// `s` lists the interactions of the pairwise (i < j) strategy over `n`
/// particles: every entry is an ordered pair of distinct indices below `n`,
/// the entries are strictly lexicographically increasing, and every
/// unordered pair of distinct indices below `n` appears.
pub open spec fn is_pair_listing(s: Seq<(usize, usize)>, n: nat) -> bool {
    &&& forall|m: int| 0 <= m < s.len() ==> (#[trigger] s[m]).0 < s[m].1 < n
    &&& forall|m1: int, m2: int| 0 <= m1 < m2 < s.len() ==> lex_lt(#[trigger] s[m1], #[trigger] s[m2])
    &&& forall|i: usize, j: usize| i < j < n ==> #[trigger] s.contains((i, j))
}

/// `s` lists the partners particle `i` interacts with under the
/// per-particle strategy over `n` particles: every other index below `n`,
/// in increasing order.
pub open spec fn is_partner_listing(s: Seq<usize>, n: nat, i: nat) -> bool {
    &&& n >= 1
    &&& s.len() == n - 1
    &&& forall|m: int|
        0 <= m < s.len() ==> #[trigger] s[m] == (if m < i {
            m
        } else {
            m + 1
        })
}

/// A pair listing repeats no entry: together with coverage this is the
/// once-per-unordered-pair discipline that lets the pairwise strategy
/// deposit each interaction into both slots, with opposite sign, exactly
/// once.
pub proof fn lemma_pair_listing_unique(s: Seq<(usize, usize)>, n: nat, m1: int, m2: int)
    requires
        is_pair_listing(s, n),
        0 <= m1 < s.len(),
        0 <= m2 < s.len(),
        m1 != m2,
    ensures
        s[m1] != s[m2],
{
}

/// A partner listing of `i` holds exactly the indices below `n` other than
/// `i`.
pub proof fn lemma_partner_listing_members(s: Seq<usize>, n: nat, i: nat, q: usize)
    requires
        is_partner_listing(s, n, i),
        i < n,
    ensures
        s.contains(q) <==> (q < n && q != i),
{
    if q < n && q != i {
        let m: int = if q < i {
            q as int
        } else {
            q - 1
        };
        assert(s[m] == q);
    }
}

/// The two summation strategies cover the same interactions: for any two
/// distinct particles `p` and `q`, particle `p`'s partner listing contains
/// `q`, and the pairwise listing contains the unordered pair {p, q} (as
/// (min, max); by `lemma_pair_listing_unique`, only once).
pub proof fn lemma_strategies_cover_same_interactions(
    pair_list: Seq<(usize, usize)>,
    partner_list: Seq<usize>,
    n: nat,
    p: usize,
    q: usize,
)
    requires
        is_pair_listing(pair_list, n),
        is_partner_listing(partner_list, n, p as nat),
        p < n,
        q < n,
        p != q,
    ensures
        partner_list.contains(q),
        p < q ==> pair_list.contains((p, q)),
        q < p ==> pair_list.contains((q, p)),
{
    lemma_partner_listing_members(partner_list, n, p as nat, q);
}

/// Twice the number of unordered pairs among `n` particles whose smaller
/// index is below `i`: the running length of the pairwise listing, doubled
/// to stay in integer arithmetic.
spec fn twice_pairs_below(n: int, i: int) -> int {
    2 * i * n - i * i - i
}

/// The pair listing of the pairwise strategy: all unordered pairs of
/// distinct particle indices below `n`, in lexicographic order, with
/// `n * (n - 1) / 2` entries.
pub fn interaction_pairs(n: usize) -> (r: Vec<(usize, usize)>)
    ensures
        is_pair_listing(r@, n as nat),
        2 * r@.len() == n * (n - 1),
        r@.len() == n * (n - 1) / 2,
{
    let mut r: Vec<(usize, usize)> = Vec::new();
    let mut i: usize = 0;
    proof {
        assert(twice_pairs_below(n as int, 0) == 0) by (nonlinear_arith);
    }
    while i < n
        invariant
            i <= n,
            2 * r@.len() == twice_pairs_below(n as int, i as int),
            r@.len() <= n * n,
            forall|m: int| 0 <= m < r@.len() ==> (#[trigger] r@[m]).0 < r@[m].1 < n,
            forall|m: int| 0 <= m < r@.len() ==> (#[trigger] r@[m]).0 < i,
            forall|m1: int, m2: int|
                0 <= m1 < m2 < r@.len() ==> lex_lt(#[trigger] r@[m1], #[trigger] r@[m2]),
            forall|a: usize, b: usize| a < b < n && a < i ==> #[trigger] r@.contains((a, b)),
        decreases n - i,
    {
        let mut j: usize = i + 1;
        while j < n
            invariant
                i < n,
                i + 1 <= j <= n,
                2 * r@.len() == twice_pairs_below(n as int, i as int) + 2 * (j - i - 1),
                r@.len() <= n * n,
                forall|m: int| 0 <= m < r@.len() ==> (#[trigger] r@[m]).0 < r@[m].1 < n,
                forall|m: int|
                    0 <= m < r@.len() ==> ((#[trigger] r@[m]).0 < i || (r@[m].0 == i && r@[m].1
                        < j)),
                forall|m1: int, m2: int|
                    0 <= m1 < m2 < r@.len() ==> lex_lt(#[trigger] r@[m1], #[trigger] r@[m2]),
                forall|a: usize, b: usize| a < b < n && a < i ==> #[trigger] r@.contains((a, b)),
                forall|b: usize| i < b < j ==> #[trigger] r@.contains((i, b)),
            decreases n - j,
        {
            let ghost old_r = r@;
            proof {
                assert(r@.len() < n * n) by (nonlinear_arith)
                    requires
                        2 * r@.len() == twice_pairs_below(n as int, i as int) + 2 * (j - i - 1),
                        i < n,
                        i + 1 <= j < n,
                        n <= usize::MAX,
                ;
            }
            r.push((i, j));
            proof {
                assert(r@[r@.len() - 1] == (i, j));
                assert forall|a: usize, b: usize| a < b < n && a < i implies #[trigger] r@.contains(
                    (a, b),
                ) by {
                    assert(old_r.contains((a, b)));
                    let m = choose|m: int| 0 <= m < old_r.len() && old_r[m] == (a, b);
                    assert(r@[m] == (a, b));
                }
                assert forall|b: usize| i < b < j + 1 implies #[trigger] r@.contains((i, b)) by {
                    if b < j {
                        assert(old_r.contains((i, b)));
                        let m = choose|m: int| 0 <= m < old_r.len() && old_r[m] == (i, b);
                        assert(r@[m] == (i, b));
                    } else {
                        assert(r@[r@.len() - 1] == (i, b));
                    }
                }
            }
            j = j + 1;
        }
        proof {
            assert(twice_pairs_below(n as int, i as int) + 2 * (n - i - 1) == twice_pairs_below(
                n as int,
                i + 1,
            )) by (nonlinear_arith);
        }
        i = i + 1;
    }
    proof {
        assert(2 * r@.len() == n * (n - 1)) by (nonlinear_arith)
            requires
                2 * r@.len() == twice_pairs_below(n as int, n as int),
        ;
        vstd::arithmetic::div_mod::lemma_div_multiples_vanish(r@.len() as int, 2);
        assert(r@.len() == n * (n - 1) / 2);
    }
    r
}

/// The partner listing of particle `i` under the per-particle strategy:
/// every index below `n` except `i`, in increasing order.
pub fn partner_indices(i: usize, n: usize) -> (r: Vec<usize>)
    requires
        i < n,
    ensures
        is_partner_listing(r@, n as nat, i as nat),
{
    let mut r: Vec<usize> = Vec::new();
    let mut j: usize = 0;
    while j < n
        invariant
            i < n,
            j <= n,
            r@.len() == (if j <= i {
                j as int
            } else {
                j - 1
            }),
            forall|m: int|
                0 <= m < r@.len() ==> #[trigger] r@[m] == (if m < i {
                    m
                } else {
                    m + 1
                }),
        decreases n - j,
    {
        if j != i {
            r.push(j);
        }
        j = j + 1;
    }
    r
}

} // verus!
