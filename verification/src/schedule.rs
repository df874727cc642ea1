//! The fixed-timestep schedule arithmetic: the rounded update timestep,
//! the 100 ms frame-time clamp, and the accumulator drain, together with
//! the laws that govern them across a run of ticks.

use vstd::arithmetic::div_mod::{
    lemma_basic_div, lemma_div_by_self, lemma_div_plus_one, lemma_mod_add_multiples_vanish,
    lemma_mod_self_0, lemma_small_mod,
};
use vstd::arithmetic::mul::{
    lemma_mul_basics_2, lemma_mul_is_commutative, lemma_mul_is_distributive_add,
    lemma_mul_is_distributive_add_other_way,
};
use vstd::prelude::*;

verus! {

/// Nanoseconds in one second.
pub const NANOS_PER_SECOND: u64 = 1_000_000_000;

/// The frame-time clamp, in nanoseconds (100 ms): a tick whose wall-clock
/// delta exceeds this is treated as if exactly this much time had passed,
/// so a single slow tick cannot trigger a runaway burst of catch-up
/// update steps.
pub const MAX_TICK_DELTA_NANOS: u64 = 100_000_000;

/// A tick's wall-clock delta with the 100 ms clamp applied.
pub open spec fn clamped_delta(delta: nat) -> nat {
    if delta > MAX_TICK_DELTA_NANOS {
        MAX_TICK_DELTA_NANOS as nat
    } else {
        delta
    }
}

/// The update timestep for `rate` updates per second: `1e9 / rate`
/// nanoseconds, rounded to the nearest nanosecond (halves round up).
pub open spec fn timestep_nanos(rate: nat) -> nat
    recommends
        rate > 0,
{
    ((2 * NANOS_PER_SECOND + rate) / (2 * rate as int)) as nat
}

/// The update rates the loop accepts: a rate of zero has no timestep at
/// all, and a rate above `2e9` would round to a zero-nanosecond timestep,
/// on which the accumulator drain could never terminate.
pub open spec fn valid_update_rate(rate: nat) -> bool {
    1 <= rate <= 2 * NANOS_PER_SECOND
}

/// How many fixed update steps a tick runs when the accumulator starts
/// the tick at `acc`: one step per subtraction of `ts`, for as long as
/// the accumulator strictly exceeds `ts`. The comparison is strict, so
/// an accumulator exactly equal to a multiple of the timestep stops one
/// step early.
pub open spec fn drain_steps(acc: nat, ts: nat) -> nat
    recommends
        ts > 0,
    decreases acc,
{
    if ts > 0 && acc > ts {
        1 + drain_steps((acc - ts) as nat, ts)
    } else {
        0
    }
}

/// The accumulator value left behind by the drain of a tick that starts
/// at `acc`.
pub open spec fn drain_rem(acc: nat, ts: nat) -> nat
    recommends
        ts > 0,
    decreases acc,
{
    if ts > 0 && acc > ts {
        drain_rem((acc - ts) as nat, ts)
    } else {
        acc
    }
}

/// The drain consumes exactly a whole number of timesteps: the number of
/// steps times the timestep plus the remainder reassembles the starting
/// accumulator, and the remainder never exceeds the timestep.
pub proof fn lemma_drain_decomposition(acc: nat, ts: nat)
    requires
        ts > 0,
    ensures
        drain_steps(acc, ts) * ts + drain_rem(acc, ts) == acc,
        drain_rem(acc, ts) <= ts,
    decreases acc,
{
    if acc > ts {
        let rest = (acc - ts) as nat;
        let s2 = drain_steps(rest, ts);
        lemma_drain_decomposition(rest, ts);
        assert(drain_steps(acc, ts) == 1 + s2);
        assert(drain_rem(acc, ts) == drain_rem(rest, ts));
        assert(s2 * ts + drain_rem(rest, ts) == rest);
        lemma_mul_is_distributive_add_other_way(ts as int, 1, s2 as int);
        assert((1 + s2) * ts == 1 * ts + s2 * ts);
        assert(drain_steps(acc, ts) * ts + drain_rem(acc, ts) == acc);
    } else {
        assert(drain_steps(acc, ts) == 0);
        assert(drain_rem(acc, ts) == acc);
        assert(drain_steps(acc, ts) * ts + drain_rem(acc, ts) == acc);
    }
}

/// The drain count in terms of integer division: a tick starting at `acc`
/// runs `acc / ts` update steps, except that an accumulator that is an
/// exact positive multiple of the timestep runs one step fewer, because
/// the drain condition is strict.
pub proof fn lemma_drain_steps_floor(acc: nat, ts: nat)
    requires
        ts > 0,
    ensures
        acc % ts != 0 ==> drain_steps(acc, ts) == acc / ts,
        acc % ts == 0 && acc > 0 ==> drain_steps(acc, ts) + 1 == acc / ts,
        acc == 0 ==> drain_steps(acc, ts) == 0,
    decreases acc,
{
    if acc > ts {
        lemma_drain_steps_floor((acc - ts) as nat, ts);
        lemma_div_plus_one(acc - ts, ts as int);
        lemma_mod_add_multiples_vanish(acc - ts, ts as int);
        if (acc - ts) as nat == 0 {
            lemma_mod_self_0(ts as int);
            lemma_div_by_self(ts as int);
        }
    } else if acc == ts {
        lemma_mod_self_0(ts as int);
        lemma_div_by_self(ts as int);
    } else {
        lemma_small_mod(acc, ts);
        lemma_basic_div(acc as int, ts as int);
    }
}

/// The running sum of a sequence of tick deltas, each first clamped to
/// 100 ms.
pub open spec fn sum_clamped(deltas: Seq<nat>) -> nat
    decreases deltas.len(),
{
    if deltas.len() == 0 {
        0
    } else {
        clamped_delta(deltas[0]) + sum_clamped(deltas.skip(1))
    }
}

/// The accumulator after a run of ticks with wall-clock deltas `deltas`,
/// starting from `acc`: each tick first drains the accumulator, then adds
/// its clamped delta.
pub open spec fn run_acc(acc: nat, ts: nat, deltas: Seq<nat>) -> nat
    recommends
        ts > 0,
    decreases deltas.len(),
{
    if deltas.len() == 0 {
        acc
    } else {
        run_acc(drain_rem(acc, ts) + clamped_delta(deltas[0]), ts, deltas.skip(1))
    }
}

/// The total number of fixed update steps over a run of ticks with
/// wall-clock deltas `deltas`, starting from accumulator `acc`.
pub open spec fn run_steps(acc: nat, ts: nat, deltas: Seq<nat>) -> nat
    recommends
        ts > 0,
    decreases deltas.len(),
{
    if deltas.len() == 0 {
        0
    } else {
        drain_steps(acc, ts) + run_steps(
            drain_rem(acc, ts) + clamped_delta(deltas[0]),
            ts,
            deltas.skip(1),
        )
    }
}

/// Conservation of wall time across a whole run: the timestep times the
/// total number of update steps, plus the accumulator left at the end,
/// equals the starting accumulator plus the sum of the clamped deltas.
/// Every clamped nanosecond of wall time is either consumed by a fixed
/// update step or still waiting in the accumulator, so the total number
/// of update steps tracks the accumulated clamped wall time divided by
/// the timestep, up to the bounded leftover.
pub proof fn lemma_run_conservation(acc: nat, ts: nat, deltas: Seq<nat>)
    requires
        ts > 0,
    ensures
        ts * run_steps(acc, ts, deltas) + run_acc(acc, ts, deltas) == acc + sum_clamped(deltas),
    decreases deltas.len(),
{
    if deltas.len() > 0 {
        let s0 = drain_steps(acc, ts);
        let r0 = drain_rem(acc, ts);
        let acc1 = r0 + clamped_delta(deltas[0]);
        let rest = deltas.skip(1);
        lemma_drain_decomposition(acc, ts);
        assert(s0 * ts + r0 == acc);
        lemma_run_conservation(acc1, ts, rest);
        assert(ts * run_steps(acc1, ts, rest) + run_acc(acc1, ts, rest) == acc1 + sum_clamped(
            rest,
        ));
        assert(run_steps(acc, ts, deltas) == s0 + run_steps(acc1, ts, rest));
        assert(run_acc(acc, ts, deltas) == run_acc(acc1, ts, rest));
        assert(sum_clamped(deltas) == clamped_delta(deltas[0]) + sum_clamped(rest));
        lemma_mul_is_distributive_add(ts as int, s0 as int, run_steps(acc1, ts, rest) as int);
        assert(ts * (s0 + run_steps(acc1, ts, rest)) == ts * s0 + ts * run_steps(acc1, ts, rest));
        lemma_mul_is_commutative(ts as int, s0 as int);
        assert(ts * run_steps(acc, ts, deltas) + run_acc(acc, ts, deltas) == acc + sum_clamped(
            deltas,
        ));
    } else {
        assert(run_steps(acc, ts, deltas) == 0);
        assert(run_acc(acc, ts, deltas) == acc);
        assert(sum_clamped(deltas) == 0);
        assert(ts * run_steps(acc, ts, deltas) == 0) by {
            lemma_mul_basics_2(ts as int);
        }
    }
}

/// The leftover accumulator is bounded across any run of ticks: each tick
/// leaves at most one timestep undrained and adds at most one clamped
/// delta, so the conservation law pins the total number of update steps
/// to the accumulated clamped wall time divided by the timestep, to
/// within that bounded leftover.
pub proof fn lemma_run_acc_bounded(acc: nat, ts: nat, deltas: Seq<nat>)
    requires
        ts > 0,
        acc <= ts + MAX_TICK_DELTA_NANOS,
    ensures
        run_acc(acc, ts, deltas) <= ts + MAX_TICK_DELTA_NANOS,
    decreases deltas.len(),
{
    if deltas.len() > 0 {
        lemma_drain_decomposition(acc, ts);
        lemma_run_acc_bounded(drain_rem(acc, ts) + clamped_delta(deltas[0]), ts, deltas.skip(1));
    }
}

/// A tick whose wall-clock delta exceeds the 100 ms clamp behaves exactly
/// like a tick whose delta is exactly 100 ms: the clamped delta handed to
/// render and added to the accumulator is the same, and the number of
/// update steps a tick runs never depends on the delta at all, because
/// the drain runs before the delta is added.
pub proof fn lemma_overlong_delta_clamps(delta: nat)
    requires
        delta >= MAX_TICK_DELTA_NANOS,
    ensures
        clamped_delta(delta) == clamped_delta(MAX_TICK_DELTA_NANOS as nat),
{
}

} // verus!
