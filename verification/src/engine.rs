//! The engine loop: a fixed-timestep accumulator scheduler that runs
//! zero or more fixed update steps and exactly one render pass per tick,
//! with a 100 ms frame-time clamp.

use vstd::arithmetic::div_mod::{lemma_div_is_ordered_by_denominator, lemma_div_non_zero};
use vstd::arithmetic::mul::lemma_mul_is_distributive_add_other_way;
use vstd::prelude::*;

use crate::errors::{EngineError, TickFailure, TickPhase};
use crate::schedule::{
    clamped_delta, drain_rem, drain_steps, timestep_nanos, valid_update_rate,
    MAX_TICK_DELTA_NANOS, NANOS_PER_SECOND,
};
use crate::surface::RenderSurface;

verus! {

/// The application half of the engine: one fixed update step and one
/// render pass, both free to mutate the application state and the
/// drawing surface. The loop owns one value of an implementing type and
/// calls these at the cadence the schedule dictates; a failure from
/// either aborts the tick and is surfaced to whatever drives the loop.
///
/// Each implementation exposes how many times its two operations have
/// been invoked, and the delta its most recent render pass received.
/// Every invocation counts, whether it succeeds or fails. The loop's
/// own contract speaks of these counts, so what it promises about
/// update and render cadence is a promise about calls actually made
/// into the application.
///
/// The three observation functions default to zero so that code outside
/// the verifier's reach can implement the trait without overriding
/// them; under the constant default the contracts of `update` and
/// `render` cannot be met, so no verified implementation can use it.
pub trait EngineApp<S: RenderSurface>: Sized {
    /// How many times `update` has been invoked on this application.
    open spec fn updates_done(&self) -> nat {
        0
    }

    /// How many times `render` has been invoked on this application.
    open spec fn renders_done(&self) -> nat {
        0
    }

    /// The `dt_nanos` argument of the most recent render invocation.
    open spec fn last_render_dt_nanos(&self) -> nat {
        0
    }

    /// One fixed update step, advancing simulated time by exactly the
    /// loop's update timestep.
    fn update(&mut self, surface: &mut S) -> (r: Result<(), EngineError>)
        ensures
            final(self).updates_done() == old(self).updates_done() + 1,
            final(self).renders_done() == old(self).renders_done(),
            final(self).last_render_dt_nanos() == old(self).last_render_dt_nanos(),
    ;

    /// One render pass; `dt_nanos` is the clamped wall-clock time since
    /// the previous tick, for interpolation and time-based effects.
    fn render(&mut self, surface: &mut S, dt_nanos: u64) -> (r: Result<(), EngineError>)
        ensures
            final(self).renders_done() == old(self).renders_done() + 1,
            final(self).updates_done() == old(self).updates_done(),
            final(self).last_render_dt_nanos() == dt_nanos,
    ;
}

/// The fixed-timestep engine loop. It owns the application state and the
/// drawing surface for its whole lifetime, and carries the accumulator
/// of wall-clock time not yet consumed by a fixed update step.
pub struct EngineLoop<A, S> {
    accumulator: u64,
    current_time: u64,
    last_time: u64,
    update_timestep: u64,
    /// The application state, exclusively owned by the loop.
    pub state: A,
    /// The drawing surface, exclusively owned by the loop.
    pub surface: S,
}

impl<A, S> EngineLoop<A, S> {
    /// The accumulator, in nanoseconds.
    pub closed spec fn acc(&self) -> nat {
        self.accumulator as nat
    }

    /// The fixed update timestep, in nanoseconds.
    pub closed spec fn timestep(&self) -> nat {
        self.update_timestep as nat
    }

    /// The monotonic time of the most recent tick, in nanoseconds.
    pub closed spec fn current(&self) -> nat {
        self.current_time as nat
    }

    /// The monotonic time of the tick before that, in nanoseconds.
    pub closed spec fn previous(&self) -> nat {
        self.last_time as nat
    }

    /// The application state the loop owns.
    pub closed spec fn state_spec(&self) -> A {
        self.state
    }

    /// The drawing surface the loop owns.
    pub closed spec fn surface_spec(&self) -> S {
        self.surface
    }

    /// Well-formedness: the timestep is positive and bounded, and the
    /// accumulator never exceeds one timestep plus one clamped delta.
    pub open spec fn wf(&self) -> bool {
        &&& 1 <= self.timestep()
        &&& self.timestep() <= 2 * NANOS_PER_SECOND
        &&& self.acc() <= self.timestep() + MAX_TICK_DELTA_NANOS
    }

    /// The fixed update timestep, in nanoseconds.
    pub fn update_timestep_nanos(&self) -> (t: u64)
        ensures
            t == self.timestep(),
    {
        self.update_timestep
    }

    /// The accumulator, in nanoseconds.
    pub fn accumulator_nanos(&self) -> (a: u64)
        ensures
            a == self.acc(),
    {
        self.accumulator
    }
}

impl<A: EngineApp<S>, S: RenderSurface> EngineLoop<A, S> {
    /// Creates the loop around an application and a surface.
    /// `update_rate` is the desired number of fixed updates per second;
    /// the update timestep becomes `1e9 / update_rate` nanoseconds,
    /// rounded to the nearest nanosecond, and stays fixed for the loop's
    /// lifetime. `now_nanos` is the current monotonic time. Construction
    /// fails with `InvalidUpdateRate` exactly when the rate is rejected:
    /// a zero rate, or one so high that the timestep would round to zero.
    pub fn create(update_rate: usize, state: A, surface: S, now_nanos: u64) -> (r: Result<
        Self,
        EngineError,
    >)
        ensures
            r is Ok <==> valid_update_rate(update_rate as nat),
            match r {
                Ok(engine) => {
                    &&& engine.wf()
                    &&& engine.timestep() == timestep_nanos(update_rate as nat)
                    &&& engine.acc() == 0
                    &&& engine.current() == now_nanos
                    &&& engine.previous() == now_nanos
                    &&& engine.state_spec() == state
                    &&& engine.surface_spec() == surface
                },
                Err(e) => e == EngineError::InvalidUpdateRate,
            },
    {
        if update_rate == 0 {
            return Err(EngineError::InvalidUpdateRate);
        }
        let rate: u64 = update_rate as u64;
        if rate > 2 * NANOS_PER_SECOND {
            return Err(EngineError::InvalidUpdateRate);
        }
        let ts: u64 = (2 * NANOS_PER_SECOND + rate) / (2 * rate);
        proof {
            lemma_div_non_zero((2 * NANOS_PER_SECOND + rate) as int, (2 * rate) as int);
            lemma_div_is_ordered_by_denominator(
                (2 * NANOS_PER_SECOND + rate) as int,
                2,
                (2 * rate) as int,
            );
        }
        Ok(
            EngineLoop {
                accumulator: 0,
                current_time: now_nanos,
                last_time: now_nanos,
                update_timestep: ts,
                state,
                surface,
            },
        )
    }

    /// Advances the loop by one tick at monotonic time `now_nanos`.
    ///
    /// The tick clamps the wall-clock delta since the previous tick to
    /// 100 ms, drains the accumulator — one fixed update step per whole
    /// timestep it strictly exceeds the timestep by — then invokes render
    /// exactly once with the clamped delta, and finally adds the clamped
    /// delta to the accumulator.
    ///
    /// The contract counts invocations through the application's own
    /// counters. On success, update was invoked exactly the drain count
    /// of the starting accumulator times, and render exactly once, with
    /// the clamped delta. A failing update stops the drain after its own
    /// invocation, with the accumulator reflecting the completed steps
    /// and render never invoked; a failing render leaves the drained
    /// accumulator without the delta added. Either failure is returned
    /// tagged with its phase.
    pub fn next_loop(&mut self, now_nanos: u64) -> (r: Result<(), TickFailure>)
        requires
            old(self).wf(),
            now_nanos >= old(self).current(),
        ensures
            final(self).wf(),
            final(self).timestep() == old(self).timestep(),
            final(self).previous() == old(self).current(),
            final(self).current() == now_nanos,
            r is Ok ==> {
                &&& final(self).state_spec().updates_done() == old(self).state_spec().updates_done()
                    + drain_steps(old(self).acc(), old(self).timestep())
                &&& final(self).state_spec().renders_done() == old(self).state_spec().renders_done()
                    + 1
                &&& final(self).state_spec().last_render_dt_nanos() == clamped_delta(
                    (now_nanos - old(self).current()) as nat,
                )
                &&& final(self).acc() == drain_rem(old(self).acc(), old(self).timestep())
                    + clamped_delta((now_nanos - old(self).current()) as nat)
            },
            r is Err && r->Err_0.phase is Update ==> {
                &&& final(self).state_spec().renders_done() == old(self).state_spec().renders_done()
                &&& final(self).state_spec().last_render_dt_nanos() == old(
                    self,
                ).state_spec().last_render_dt_nanos()
                &&& final(self).state_spec().updates_done() >= old(self).state_spec().updates_done()
                    + 1
                &&& final(self).state_spec().updates_done() <= old(self).state_spec().updates_done()
                    + drain_steps(old(self).acc(), old(self).timestep())
                &&& final(self).acc() + (final(self).state_spec().updates_done() - old(
                    self,
                ).state_spec().updates_done() - 1) * old(self).timestep() == old(self).acc()
            },
            r is Err && r->Err_0.phase is Render ==> {
                &&& final(self).state_spec().updates_done() == old(self).state_spec().updates_done()
                    + drain_steps(old(self).acc(), old(self).timestep())
                &&& final(self).state_spec().renders_done() == old(self).state_spec().renders_done()
                    + 1
                &&& final(self).state_spec().last_render_dt_nanos() == clamped_delta(
                    (now_nanos - old(self).current()) as nat,
                )
                &&& final(self).acc() == drain_rem(old(self).acc(), old(self).timestep())
            },
    {
        self.last_time = self.current_time;
        self.current_time = now_nanos;
        let mut dt: u64 = self.current_time - self.last_time;
        if dt > MAX_TICK_DELTA_NANOS {
            dt = MAX_TICK_DELTA_NANOS;
        }
        let ghost acc0: nat = self.acc();
        let ghost ts: nat = self.timestep();
        let ghost u0: nat = self.state.updates_done();
        while self.accumulator > self.update_timestep
            invariant
                ts == old(self).timestep(),
                acc0 == old(self).acc(),
                u0 == old(self).state_spec().updates_done(),
                self.timestep() == ts,
                1 <= ts <= 2 * NANOS_PER_SECOND,
                self.acc() <= acc0,
                acc0 <= ts + MAX_TICK_DELTA_NANOS,
                self.state.updates_done() >= u0,
                drain_steps(self.acc(), ts) + (self.state.updates_done() - u0) == drain_steps(
                    acc0,
                    ts,
                ),
                drain_rem(self.acc(), ts) == drain_rem(acc0, ts),
                self.acc() + (self.state.updates_done() - u0) * ts == acc0,
                self.state.renders_done() == old(self).state_spec().renders_done(),
                self.state.last_render_dt_nanos() == old(self).state_spec().last_render_dt_nanos(),
                self.current() == now_nanos,
                self.previous() == old(self).current(),
                dt == clamped_delta((now_nanos - old(self).current()) as nat),
            decreases self.acc(),
        {
            proof {
                assert(drain_steps(self.acc(), ts) == 1 + drain_steps((self.acc() - ts) as nat, ts));
                assert(drain_rem(self.acc(), ts) == drain_rem((self.acc() - ts) as nat, ts));
            }
            let ghost steps_done: nat = (self.state.updates_done() - u0) as nat;
            let upd = self.state.update(&mut self.surface);
            match upd {
                Ok(()) => {},
                Err(e) => {
                    return Err(TickFailure { phase: TickPhase::Update, error: e });
                },
            }
            proof {
                lemma_mul_is_distributive_add_other_way(ts as int, steps_done as int, 1);
                assert((steps_done + 1) * ts == steps_done * ts + 1 * ts);
            }
            self.accumulator = self.accumulator - self.update_timestep;
        }
        proof {
            assert(drain_steps(self.acc(), ts) == 0);
            assert(drain_rem(self.acc(), ts) == self.acc());
        }
        let rend = self.state.render(&mut self.surface, dt);
        match rend {
            Ok(()) => {},
            Err(e) => {
                return Err(TickFailure { phase: TickPhase::Render, error: e });
            },
        }
        self.accumulator = self.accumulator + dt;
        Ok(())
    }
}

/// A minimal verified application for driving the loop headless: it
/// draws nothing and counts its invocations, keeping the delta handed
/// to its most recent render pass. The executable counters saturate at
/// `u64::MAX`; the counts the contracts speak of are exact. The two
/// failure switches make every update or render invocation fail after
/// being counted, for exercising the loop's error paths.
pub struct TickCounter {
    /// Update invocations (saturating).
    pub updates: u64,
    /// Render invocations (saturating).
    pub renders: u64,
    /// The delta handed to the most recent render pass, in nanoseconds.
    pub last_dt: u64,
    /// When set, every update invocation fails after being counted.
    pub fail_update: bool,
    /// When set, every render invocation fails after being counted.
    pub fail_render: bool,
    updates_exact: Ghost<nat>,
    renders_exact: Ghost<nat>,
}

impl TickCounter {
    /// The exact number of update invocations.
    pub closed spec fn updates_count(&self) -> nat {
        self.updates_exact@
    }

    /// The exact number of render invocations.
    pub closed spec fn renders_count(&self) -> nat {
        self.renders_exact@
    }

    /// The delta handed to the most recent render pass, in nanoseconds.
    pub closed spec fn last_dt_spec(&self) -> nat {
        self.last_dt as nat
    }

    /// Whether update invocations are set to fail.
    pub closed spec fn update_fails(&self) -> bool {
        self.fail_update
    }

    /// Whether render invocations are set to fail.
    pub closed spec fn render_fails(&self) -> bool {
        self.fail_render
    }

    /// A fresh counter with nothing run yet and both phases succeeding.
    pub fn new() -> (c: TickCounter)
        ensures
            c.updates_count() == 0,
            c.renders_count() == 0,
            c.last_dt_spec() == 0,
            !c.update_fails(),
            !c.render_fails(),
    {
        TickCounter {
            updates: 0,
            renders: 0,
            last_dt: 0,
            fail_update: false,
            fail_render: false,
            updates_exact: Ghost(0),
            renders_exact: Ghost(0),
        }
    }
}

impl<S: RenderSurface> EngineApp<S> for TickCounter {
    open spec fn updates_done(&self) -> nat {
        self.updates_count()
    }

    open spec fn renders_done(&self) -> nat {
        self.renders_count()
    }

    open spec fn last_render_dt_nanos(&self) -> nat {
        self.last_dt_spec()
    }

    fn update(&mut self, _surface: &mut S) -> (r: Result<(), EngineError>)
        ensures
            r is Ok <==> !old(self).update_fails(),
            r is Err ==> r->Err_0 == EngineError::Application,
            final(self).update_fails() == old(self).update_fails(),
            final(self).render_fails() == old(self).render_fails(),
    {
        if self.updates < u64::MAX {
            self.updates = self.updates + 1;
        }
        self.updates_exact = Ghost(self.updates_exact@ + 1);
        if self.fail_update {
            Err(EngineError::Application)
        } else {
            Ok(())
        }
    }

    fn render(&mut self, _surface: &mut S, dt_nanos: u64) -> (r: Result<(), EngineError>)
        ensures
            r is Ok <==> !old(self).render_fails(),
            r is Err ==> r->Err_0 == EngineError::Application,
            final(self).update_fails() == old(self).update_fails(),
            final(self).render_fails() == old(self).render_fails(),
    {
        if self.renders < u64::MAX {
            self.renders = self.renders + 1;
        }
        self.renders_exact = Ghost(self.renders_exact@ + 1);
        self.last_dt = dt_nanos;
        if self.fail_render {
            Err(EngineError::Application)
        } else {
            Ok(())
        }
    }
}

} // verus!
