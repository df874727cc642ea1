use pixel_engine::color::Color;
use pixel_engine::surface::PixelBufferSurface;
use pixel_engine::surface::RenderSurface;

#[test]
fn new_surface_has_requested_dimensions() {
    let s = PixelBufferSurface::new(640, 480);
    assert_eq!(s.width(), 640);
    assert_eq!(s.height(), 480);
}

#[test]
fn new_surface_starts_all_zero() {
    let s = PixelBufferSurface::new(8, 4);
    for y in 0..4 {
        for x in 0..8 {
            assert_eq!(s.get(x, y), Color::from_rgba(0, 0, 0, 0));
        }
    }
}

#[test]
fn in_bounds_matches_dimensions() {
    let s = PixelBufferSurface::new(640, 480);
    assert_eq!(s.in_bounds(-1, 0), None);
    assert_eq!(s.in_bounds(640, 0), None);
    assert_eq!(s.in_bounds(0, -1), None);
    assert_eq!(s.in_bounds(0, 480), None);
    assert_eq!(s.in_bounds(639, 479), Some((639, 479)));
    assert_eq!(s.in_bounds(0, 0), Some((0, 0)));
    assert_eq!(s.in_bounds(i64::MIN, i64::MAX), None);
}

#[test]
fn clear_screen_sets_every_pixel() {
    let mut s = PixelBufferSurface::new(640, 480);
    let c = Color::from_rgb(10, 20, 30);
    s.clear_screen(&c);
    for y in 0..480 {
        for x in 0..640 {
            assert_eq!(s.get(x, y), c);
        }
    }
}

#[test]
fn set_then_get_single_pixel() {
    let mut s = PixelBufferSurface::new(16, 16);
    let bg = Color::from_rgb(0, 0, 0);
    let c = Color::from_rgb(200, 100, 50);
    s.clear_screen(&bg);
    s.set(3, 5, &c);
    assert_eq!(s.get(3, 5), c);
    assert_eq!(s.get(5, 3), bg);
    assert_eq!(s.get(2, 5), bg);
    assert_eq!(s.get(4, 5), bg);
}

#[test]
fn set_range_fills_exactly_the_range() {
    let mut s = PixelBufferSurface::new(8, 4);
    let bg = Color::from_rgb(1, 1, 1);
    let c = Color::from_rgb(9, 9, 9);
    s.clear_screen(&bg);
    // linear indices 5..10 are (5,0), (6,0), (7,0), (0,1), (1,1)
    s.set_range(5, 10, &c);
    assert_eq!(s.get(4, 0), bg);
    assert_eq!(s.get(5, 0), c);
    assert_eq!(s.get(6, 0), c);
    assert_eq!(s.get(7, 0), c);
    assert_eq!(s.get(0, 1), c);
    assert_eq!(s.get(1, 1), c);
    assert_eq!(s.get(2, 1), bg);
}

#[test]
fn filled_rect_covers_rectangle_and_nothing_else() {
    let mut s = PixelBufferSurface::new(640, 480);
    let bg = Color::from_rgb(0, 0, 0);
    let c = Color::from_rgb(255, 0, 0);
    s.clear_screen(&bg);
    s.filled_rect(10, 10, 5, 5, &c);
    assert_eq!(s.get(12, 12), c);
    assert_eq!(s.get(16, 16), bg);
    assert_eq!(s.get(9, 9), bg);
    assert_eq!(s.get(10, 10), c);
    assert_eq!(s.get(14, 14), c);
    assert_eq!(s.get(15, 15), bg);
    assert_eq!(s.get(14, 15), bg);
    assert_eq!(s.get(15, 14), bg);
}

#[test]
fn blit_of_buffer_surface_succeeds_and_keeps_pixels() {
    let mut s = PixelBufferSurface::new(8, 8);
    let c = Color::from_rgb(5, 6, 7);
    s.clear_screen(&c);
    assert_eq!(s.blit(), Ok(()));
    assert_eq!(s.get(4, 4), c);
}
