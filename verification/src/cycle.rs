//! Player cycling: the pure wraparound arithmetic behind the next-player and
//! previous-player commands.
use vstd::prelude::*;

verus! {

/// Active-player index after one cycling step: true modulo, so the result is
/// always in `[0, count)`, also when `current + step` is negative.
pub open spec fn cycle_spec(count: int, current: int, step: int) -> int
    recommends
        count > 0,
{
    (current + step) % count
}

/// Index reached from `current` by one cycling step (`step` is +1 or -1),
/// wrapping around at both ends of the roster.
pub fn cycle(count: usize, current: usize, step: i32) -> (r: usize)
    requires
        count > 0,
        current < count,
        step == 1 || step == -1,
    ensures
        r < count,
        r as int == cycle_spec(count as int, current as int, step as int),
{
    if step == 1 {
        if current + 1 == count {
            proof {
                vstd::arithmetic::div_mod::lemma_mod_self_0(count as int);
            }
            0
        } else {
            proof {
                vstd::arithmetic::div_mod::lemma_small_mod((current + 1) as nat, count as nat);
            }
            current + 1
        }
    } else {
        if current == 0 {
            assert((0 - 1) % (count as int) == count - 1) by {
                vstd::arithmetic::div_mod::lemma_mod_multiples_vanish(1, -1, count as int);
                vstd::arithmetic::div_mod::lemma_small_mod((count - 1) as nat, count as nat);
            }
            count - 1
        } else {
            proof {
                vstd::arithmetic::div_mod::lemma_small_mod((current - 1) as nat, count as nat);
            }
            current - 1
        }
    }
}

/// Cycling forward one step and then back one step lands on the index it
/// started from, for every roster size and every in-range index.
pub proof fn lemma_cycle_round_trip(count: int, i: int)
    requires
        0 < count,
        0 <= i < count,
    ensures
        cycle_spec(count, cycle_spec(count, i, 1), -1) == i,
{
    if i + 1 == count {
        vstd::arithmetic::div_mod::lemma_mod_self_0(count);
        assert((0 - 1) % count == count - 1) by {
            vstd::arithmetic::div_mod::lemma_mod_multiples_vanish(1, -1, count);
            vstd::arithmetic::div_mod::lemma_small_mod((count - 1) as nat, count as nat);
        }
    } else {
        vstd::arithmetic::div_mod::lemma_small_mod((i + 1) as nat, count as nat);
        vstd::arithmetic::div_mod::lemma_small_mod(i as nat, count as nat);
    }
}

} // verus!
