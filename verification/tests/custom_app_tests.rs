// An application type of the library's user, implemented outside the
// verifier: it overrides only the two executable methods and inherits
// the trait's observation defaults, as a host program would.

use pixel_engine::color::Color;
use pixel_engine::engine::EngineApp;
use pixel_engine::engine::EngineLoop;
use pixel_engine::errors::EngineError;
use pixel_engine::surface::PixelBufferSurface;
use pixel_engine::surface::RenderSurface;

struct PaintingApp {
    ticks_seen: u64,
    last_dt_seen: u64,
}

impl EngineApp<PixelBufferSurface> for PaintingApp {
    fn update(&mut self, _surface: &mut PixelBufferSurface) -> Result<(), EngineError> {
        self.ticks_seen += 1;
        Ok(())
    }

    fn render(
        &mut self,
        surface: &mut PixelBufferSurface,
        dt_nanos: u64,
    ) -> Result<(), EngineError> {
        surface.clear_screen(&Color::from_rgb(1, 2, 3));
        self.last_dt_seen = dt_nanos;
        surface.blit()
    }
}

#[test]
fn user_defined_app_drives_the_loop() {
    let app = PaintingApp {
        ticks_seen: 0,
        last_dt_seen: 0,
    };
    let surface = PixelBufferSurface::new(8, 8);
    // rate 1e8 updates/s gives a 10 ns timestep
    let mut engine = EngineLoop::create(100_000_000, app, surface, 0).unwrap();
    engine.next_loop(25).unwrap();
    engine.next_loop(50).unwrap();
    assert_eq!(engine.state.ticks_seen, 2); // floor(25 / 10) steps on the second tick
    assert_eq!(engine.state.last_dt_seen, 25);
    assert_eq!(engine.surface.get(4, 4), Color::from_rgb(1, 2, 3));
}
