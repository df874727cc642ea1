use pixel_engine::engine::EngineLoop;
use pixel_engine::engine::TickCounter;
use pixel_engine::errors::EngineError;
use pixel_engine::errors::TickPhase;
use pixel_engine::surface::PixelBufferSurface;

fn small_surface() -> PixelBufferSurface {
    PixelBufferSurface::new(4, 4)
}

#[test]
fn timestep_is_rounded_nanos_per_update() {
    let cases: Vec<(usize, u64)> = vec![
        (120, 8_333_333),
        (60, 16_666_667),
        (1, 1_000_000_000),
        (3, 333_333_333),
        (7, 142_857_143),
        (1000, 1_000_000),
        (2_000_000_000, 1),
    ];
    for (rate, expected) in cases {
        let engine = EngineLoop::create(rate, TickCounter::new(), small_surface(), 0).unwrap();
        assert_eq!(engine.update_timestep_nanos(), expected);
    }
}

#[test]
fn create_with_zero_rate_fails() {
    let r = EngineLoop::create(0, TickCounter::new(), small_surface(), 0);
    assert_eq!(r.err().unwrap(), EngineError::InvalidUpdateRate);
}

#[test]
fn create_with_rate_rounding_to_zero_timestep_fails() {
    let r = EngineLoop::create(2_000_000_001, TickCounter::new(), small_surface(), 0);
    assert_eq!(r.err().unwrap(), EngineError::InvalidUpdateRate);
}

#[test]
fn fresh_loop_has_empty_accumulator() {
    let engine = EngineLoop::create(120, TickCounter::new(), small_surface(), 77).unwrap();
    assert_eq!(engine.accumulator_nanos(), 0);
}

#[test]
fn accumulator_exactly_at_timestep_runs_no_step() {
    // rate 1e8 updates/s gives a 10 ns timestep
    let mut engine = EngineLoop::create(100_000_000, TickCounter::new(), small_surface(), 0).unwrap();
    engine.next_loop(10).unwrap(); // accumulator becomes exactly 10
    engine.next_loop(20).unwrap(); // strict `>`: no step fires
    assert_eq!(engine.state.updates, 0);
    assert_eq!(engine.state.renders, 2);
    assert_eq!(engine.accumulator_nanos(), 20);
}

#[test]
fn accumulator_just_over_timestep_runs_one_step() {
    let mut engine = EngineLoop::create(100_000_000, TickCounter::new(), small_surface(), 0).unwrap();
    engine.next_loop(11).unwrap(); // accumulator becomes 11
    engine.next_loop(11).unwrap(); // 11 > 10: exactly one step
    assert_eq!(engine.state.updates, 1);
    assert_eq!(engine.state.renders, 2);
    assert_eq!(engine.accumulator_nanos(), 1);
}

#[test]
fn drain_runs_floor_of_accumulator_over_timestep() {
    let mut engine = EngineLoop::create(100_000_000, TickCounter::new(), small_surface(), 0).unwrap();
    engine.next_loop(95).unwrap(); // accumulator becomes 95
    engine.next_loop(95).unwrap(); // floor(95 / 10) = 9 steps, remainder 5
    assert_eq!(engine.state.updates, 9);
    assert_eq!(engine.accumulator_nanos(), 5);
}

#[test]
fn render_runs_once_per_tick_whatever_the_step_count() {
    let mut engine = EngineLoop::create(100_000_000, TickCounter::new(), small_surface(), 0).unwrap();
    engine.next_loop(0).unwrap(); // zero steps
    assert_eq!(engine.state.renders, 1);
    assert_eq!(engine.state.updates, 0);
    engine.next_loop(95).unwrap(); // still zero steps, accumulator fills
    assert_eq!(engine.state.renders, 2);
    assert_eq!(engine.state.updates, 0);
    engine.next_loop(100).unwrap(); // nine catch-up steps, one render
    assert_eq!(engine.state.renders, 3);
    assert_eq!(engine.state.updates, 9);
}

#[test]
fn overlong_tick_behaves_like_exactly_100ms() {
    let mut slow = EngineLoop::create(120, TickCounter::new(), small_surface(), 0).unwrap();
    let mut capped = EngineLoop::create(120, TickCounter::new(), small_surface(), 0).unwrap();
    // one tick with a 150 ms delta against one with exactly 100 ms
    slow.next_loop(150_000_000).unwrap();
    capped.next_loop(100_000_000).unwrap();
    assert_eq!(slow.state.updates, capped.state.updates);
    assert_eq!(slow.state.renders, capped.state.renders);
    assert_eq!(slow.state.last_dt, capped.state.last_dt);
    assert_eq!(slow.state.last_dt, 100_000_000);
    assert_eq!(slow.accumulator_nanos(), capped.accumulator_nanos());
    // and the catch-up work on the next tick is identical too
    slow.next_loop(300_000_000).unwrap();
    capped.next_loop(200_000_000).unwrap();
    assert_eq!(slow.state.updates, capped.state.updates);
    assert_eq!(slow.state.renders, capped.state.renders);
    assert_eq!(slow.accumulator_nanos(), capped.accumulator_nanos());
}

#[test]
fn one_simulated_second_at_sixty_ticks() {
    // 120 Hz update rate, 60 ticks of 1/60 s (16_666_666 ns) each.
    // Each tick drains only the wall time accumulated before it and the
    // strict `>` boundary holds back up to one timestep, so the last
    // tick's delta is still waiting in the accumulator at the end.
    let mut engine = EngineLoop::create(120, TickCounter::new(), small_surface(), 0).unwrap();
    for i in 1..=60u64 {
        engine.next_loop(i * 16_666_666).unwrap();
    }
    assert_eq!(engine.state.renders, 60);
    assert_eq!(engine.state.updates, 117);
    assert_eq!(engine.accumulator_nanos(), 24_999_999);
    // one more tick drains the remaining two whole timesteps
    engine.next_loop(61 * 16_666_666).unwrap();
    assert_eq!(engine.state.renders, 61);
    assert_eq!(engine.state.updates, 119);
}

#[test]
fn failing_update_aborts_tick_before_render() {
    let mut app = TickCounter::new();
    app.fail_update = true;
    let mut engine = EngineLoop::create(100_000_000, app, small_surface(), 0).unwrap();
    engine.next_loop(50).unwrap(); // no step yet, accumulator fills to 50
    let renders_before = engine.state.renders;
    let failure = engine.next_loop(60).err().unwrap();
    assert_eq!(failure.phase, TickPhase::Update);
    assert_eq!(failure.error, EngineError::Application);
    assert_eq!(engine.state.updates, 1); // the failing invocation itself
    assert_eq!(engine.state.renders, renders_before); // render never ran
}

#[test]
fn failing_render_surfaces_render_phase() {
    let mut app = TickCounter::new();
    app.fail_render = true;
    let mut engine = EngineLoop::create(100_000_000, app, small_surface(), 0).unwrap();
    let failure = engine.next_loop(5).err().unwrap();
    assert_eq!(failure.phase, TickPhase::Render);
    assert_eq!(failure.error, EngineError::Application);
    assert_eq!(engine.state.renders, 1); // invoked once, then failed
}

#[test]
fn update_timestep_is_fixed_across_ticks() {
    let mut engine = EngineLoop::create(120, TickCounter::new(), small_surface(), 0).unwrap();
    let ts = engine.update_timestep_nanos();
    for i in 1..=10u64 {
        engine.next_loop(i * 1_000_000).unwrap();
    }
    assert_eq!(engine.update_timestep_nanos(), ts);
}
