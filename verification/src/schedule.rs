//! Snapshot schedule: at which steps of the run the trajectory sampler
//! records a copy of the current positions, and how many snapshots a full
//! run therefore produces.

use vstd::prelude::*;

verus! {

/// A snapshot is recorded at step `step` exactly when the step index is a
/// multiple of the snapshot interval (step 0 included).
pub open spec fn spec_is_snapshot_step(step: nat, interval: nat) -> bool
    recommends
        interval > 0,
{
    step % interval == 0
}

/// Number of snapshots a run of `total_steps` steps records: one per
/// multiple of `interval` in `0 .. total_steps`, which is
/// `ceil(total_steps / interval)`.
pub open spec fn spec_snapshot_count(total_steps: nat, interval: nat) -> nat
    recommends
        interval > 0,
{
    ((total_steps + interval - 1) / (interval as int)) as nat
}

/// Decides whether the trajectory sampler records a snapshot at `step`.
pub fn is_snapshot_step(step: usize, interval: usize) -> (r: bool)
    requires
        interval > 0,
    ensures
        r == spec_is_snapshot_step(step as nat, interval as nat),
{
    step % interval == 0
}

/// The full snapshot schedule of a run: the ordered list of step indices at
/// which a snapshot is recorded.  Entry `m` is the step `m * interval`; the
/// recorded steps are exactly the multiples of `interval` below
/// `total_steps`; and there are `ceil(total_steps / interval)` of them.
pub fn snapshot_steps(total_steps: usize, interval: usize) -> (r: Vec<usize>)
    requires
        interval > 0,
    ensures
        r@.len() == spec_snapshot_count(total_steps as nat, interval as nat),
        forall|m: int| 0 <= m < r@.len() ==> r@[m] == m * interval && r@[m] < total_steps,
        forall|s: int| #![trigger r@.contains(s as usize)]
            0 <= s < total_steps ==> (spec_is_snapshot_step(s as nat, interval as nat)
                <==> r@.contains(s as usize)),
{
    let i = interval;
    let count: usize = if total_steps == 0 {
        0
    } else {
        (total_steps - 1) / i + 1
    };
    proof {
        lemma_snapshot_count_form(total_steps as nat, interval as nat);
        if total_steps > 0 {
            vstd::arithmetic::div_mod::lemma_fundamental_div_mod(total_steps - 1, i as int);
            vstd::arithmetic::div_mod::lemma_mod_division_less_than_divisor(
                total_steps - 1,
                i as int,
            );
            vstd::arithmetic::mul::lemma_mul_is_commutative(
                count - 1,
                interval as int,
            );
            assert(count > 0 ==> (count - 1) * interval <= total_steps - 1);
        }
    }
    let mut r: Vec<usize> = Vec::new();
    let mut m: usize = 0;
    while m < count
        invariant
            interval > 0,
            i == interval,
            m <= count,
            count > 0 ==> (count - 1) * interval <= total_steps - 1,
            r@.len() == m,
            forall|j: int| 0 <= j < m ==> r@[j] == j * interval,
        decreases count - m,
    {
        proof {
            vstd::arithmetic::mul::lemma_mul_inequality(m as int, count - 1, interval as int);
        }
        let s = m * i;
        r.push(s);
        m = m + 1;
    }
    proof {
        assert forall|j: int| 0 <= j < r@.len() implies r@[j] == j * interval && r@[j]
            < total_steps by {
            vstd::arithmetic::mul::lemma_mul_inequality(j, count - 1, interval as int);
        }
        assert forall|s: int| #![trigger r@.contains(s as usize)]
            0 <= s < total_steps && s % (interval as int) == 0 implies r@.contains(s as usize) by {
            let j = s / (interval as int);
            vstd::arithmetic::div_mod::lemma_fundamental_div_mod(s, interval as int);
            vstd::arithmetic::div_mod::lemma_div_is_ordered(s, total_steps - 1, interval as int);
            vstd::arithmetic::mul::lemma_mul_is_commutative(j, interval as int);
            assert(r@[j] == s as usize);
        }
        assert forall|s: int| #![trigger r@.contains(s as usize)]
            0 <= s < total_steps && r@.contains(s as usize) implies s % (interval as int) == 0 by {
            let j = choose|j: int| 0 <= j < r@.len() && r@[j] == s as usize;
            vstd::arithmetic::div_mod::lemma_mod_multiples_basic(j, interval as int);
        }
    }
    r
}

/// Advancing the run by one step raises the snapshot count by one exactly
/// at snapshot steps; at a snapshot step, the count of earlier snapshots
/// also locates the step itself (`count * interval == step`), which places
/// the step at the next free slot of the recorded schedule.
pub proof fn lemma_snapshot_count_next(step: nat, interval: nat)
    requires
        interval > 0,
    ensures
        spec_is_snapshot_step(step, interval) ==> spec_snapshot_count(step + 1, interval)
            == spec_snapshot_count(step, interval) + 1,
        !spec_is_snapshot_step(step, interval) ==> spec_snapshot_count(step + 1, interval)
            == spec_snapshot_count(step, interval),
        spec_is_snapshot_step(step, interval) ==> spec_snapshot_count(step, interval) * interval
            == step,
{
    let s = step as int;
    let i = interval as int;
    let q = s / i;
    let rr = s % i;
    vstd::arithmetic::div_mod::lemma_fundamental_div_mod(s, i);
    vstd::arithmetic::div_mod::lemma_mod_division_less_than_divisor(s, i);
    vstd::arithmetic::div_mod::lemma_div_plus_one(s, i);
    vstd::arithmetic::mul::lemma_mul_is_commutative(q, i);
    if rr == 0 {
        vstd::arithmetic::div_mod::lemma_fundamental_div_mod_converse_div(s + i - 1, i, q, i - 1);
    } else {
        vstd::arithmetic::mul::lemma_mul_is_distributive_add_other_way(i, q, 1);
        vstd::arithmetic::div_mod::lemma_fundamental_div_mod_converse_div(
            s + i - 1,
            i,
            q + 1,
            rr - 1,
        );
    }
}

/// The ceiling count `(t + i - 1) / i` coincides with `(t - 1) / i + 1` for
/// positive `t`, the form the executable schedule computes with.
proof fn lemma_snapshot_count_form(total_steps: nat, interval: nat)
    requires
        interval > 0,
    ensures
        total_steps == 0 ==> spec_snapshot_count(total_steps, interval) == 0,
        total_steps > 0 ==> spec_snapshot_count(total_steps, interval) == (total_steps - 1) / (
        interval as int) + 1,
{
    let i = interval as int;
    if total_steps == 0 {
        vstd::arithmetic::div_mod::lemma_basic_div(i - 1, i);
    } else {
        vstd::arithmetic::div_mod::lemma_div_plus_one(total_steps - 1, i);
    }
}

} // verus!
