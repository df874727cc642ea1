use pixel_engine::color::Color;

#[test]
fn rgb_roundtrip_reproduces_channels() {
    let samples: Vec<(u8, u8, u8)> = vec![
        (0, 0, 0),
        (255, 255, 255),
        (255, 0, 0),
        (0, 255, 0),
        (0, 0, 255),
        (12, 34, 56),
        (200, 100, 50),
    ];
    for (r, g, b) in samples {
        let original = Color::from_rgb(r, g, b);
        let rebuilt = Color::from_bytes(original.as_bytes());
        assert_eq!(rebuilt.as_bytes(), &[r, g, b, 255]);
        assert_eq!(rebuilt, original);
    }
}

#[test]
fn from_rgba_packs_in_rgba_order() {
    let c = Color::from_rgba(1, 2, 3, 4);
    assert_eq!(c.as_bytes(), &[1, 2, 3, 4]);
}

#[test]
fn from_rgb_defaults_alpha_to_opaque() {
    let c = Color::from_rgb(7, 8, 9);
    assert_eq!(c.as_bytes(), &[7, 8, 9, 255]);
    assert_eq!(c, Color::from_rgba(7, 8, 9, 255));
}

#[test]
fn from_bytes_stores_bytes_unchanged() {
    let bytes: [u8; 4] = [9, 8, 7, 6];
    let c = Color::from_bytes(&bytes);
    assert_eq!(c.as_bytes(), &bytes);
}

#[test]
fn color_equality_is_bytewise() {
    assert_eq!(Color::from_rgba(1, 2, 3, 4), Color::from_bytes(&[1, 2, 3, 4]));
    assert_ne!(Color::from_rgba(1, 2, 3, 4), Color::from_rgba(1, 2, 3, 5));
}
