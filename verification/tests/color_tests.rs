use molten_brand::Color;
use molten_brand::ColorError;
use molten_brand::Rgb;
use molten_brand::Rgba;

#[test]
fn test_rgb_from_hex() {
    let color = Rgb::from_hex("#F97316").unwrap();
    assert_eq!(color.r, 249);
    assert_eq!(color.g, 115);
    assert_eq!(color.b, 22);
}

#[test]
fn test_rgb_to_hex() {
    let color = Rgb::new(249, 115, 22);
    assert_eq!(color.hex(), "#F97316");
}

#[test]
fn test_rgba_alpha() {
    let rgba = Rgba::from_rgb_alpha(Rgb::new(124, 58, 237), 400);
    assert_eq!(rgba.a, 102); // 0.4 * 255 ~ 102
}

#[test]
fn test_hex_round_trip() {
    let samples = [
        Rgb::new(0, 0, 0),
        Rgb::new(255, 255, 255),
        Rgb::new(249, 115, 22),
        Rgb::new(1, 16, 171),
        Rgb::new(10, 10, 10),
    ];
    for c in samples {
        let s = c.hex();
        assert_eq!(s.len(), 7);
        assert!(s.starts_with('#'));
        assert!(s[1..].chars().all(|d| d.is_ascii_hexdigit() && !d.is_ascii_lowercase()));
        assert_eq!(Rgb::from_hex(&s).unwrap(), c);
    }
}

#[test]
fn test_from_hex_case_and_prefix() {
    let plain = Rgb::from_hex("F97316").unwrap();
    let prefixed = Rgb::from_hex("#F97316").unwrap();
    let lowercase = Rgb::from_hex("f97316").unwrap();
    assert_eq!(plain, prefixed);
    assert_eq!(prefixed, lowercase);
    assert_eq!(plain, Rgb::new(249, 115, 22));
}

#[test]
fn test_from_hex_invalid() {
    assert_eq!(Rgb::from_hex("ZZZZZZ"), Err(ColorError::InvalidFormat));
    assert_eq!(Rgb::from_hex("ABC"), Err(ColorError::InvalidFormat));
    assert_eq!(Rgb::from_hex(""), Err(ColorError::InvalidFormat));
    assert_eq!(Rgb::from_hex("#"), Err(ColorError::InvalidFormat));
    assert_eq!(Rgb::from_hex("#ABCDE"), Err(ColorError::InvalidFormat));
    assert_eq!(Rgb::from_hex("AB-DEF"), Err(ColorError::InvalidFormat));
    assert_eq!(Color::from_hex("ABC"), Err(ColorError::InvalidFormat));
}

#[test]
fn test_from_hex_reads_first_six_digits() {
    assert_eq!(Rgb::from_hex("#F97316FF").unwrap(), Rgb::new(249, 115, 22));
    assert_eq!(Rgb::from_hex("0A0A0A0A").unwrap(), Rgb::new(10, 10, 10));
}

#[test]
fn test_color_from_hex() {
    assert_eq!(Color::from_hex("#7C3AED").unwrap(), Color::rgb(124, 58, 237));
    assert_eq!(Color::from_hex("10b981").unwrap(), Color::rgb(16, 185, 129));
}

#[test]
fn test_alpha_clamping() {
    let c = Rgb::new(1, 2, 3);
    assert_eq!(Rgba::from_rgb_alpha(c, -1000).a, 0);
    assert_eq!(Rgba::from_rgb_alpha(c, 2000).a, 255);
    assert_eq!(Rgba::from_rgb_alpha(c, 0).a, 0);
    assert_eq!(Rgba::from_rgb_alpha(c, 1000).a, 255);
}

#[test]
fn test_alpha_close_to_requested() {
    // The stored byte is within one part in 255 of the requested
    // opacity: |a/255 - m/1000| < 1/255, cleared of denominators.
    for m in [0i32, 1, 123, 400, 500, 777, 999, 1000] {
        let a = Rgba::from_rgb_alpha(Rgb::new(0, 0, 0), m).a as i64;
        let diff = 255 * (m as i64) - 1000 * a;
        assert!(0 <= diff && diff < 1000);
    }
}

#[test]
fn test_alpha_percent() {
    assert_eq!(Rgba::new(0, 0, 0, 102).alpha_percent(), 40);
    assert_eq!(Rgba::new(0, 0, 0, 0).alpha_percent(), 0);
    assert_eq!(Rgba::new(0, 0, 0, 255).alpha_percent(), 100);
    assert_eq!(Rgba::new(0, 0, 0, 128).alpha_percent(), 50);
}

#[test]
fn test_rgb_css_format() {
    assert_eq!(Rgb::new(10, 20, 30).css(), "rgb(10, 20, 30)");
    assert_eq!(Rgb::new(0, 255, 7).css(), "rgb(0, 255, 7)");
}

#[test]
fn test_rgba_css_format() {
    assert_eq!(Rgba::new(124, 58, 237, 102).css(), "rgba(124, 58, 237, 0.40)");
    assert_eq!(Rgba::new(1, 2, 3, 0).css(), "rgba(1, 2, 3, 0.00)");
    assert_eq!(Rgba::new(1, 2, 3, 255).css(), "rgba(1, 2, 3, 1.00)");
    assert_eq!(Rgba::new(1, 2, 3, 254).css(), "rgba(1, 2, 3, 1.00)");
    assert_eq!(Rgba::new(1, 2, 3, 128).css(), "rgba(1, 2, 3, 0.50)");
    assert_eq!(Color::rgba(124, 58, 237, 77).css(), "rgba(124, 58, 237, 0.30)");
    assert_eq!(Color::rgb(10, 20, 30).css(), "rgb(10, 20, 30)");
}

#[test]
fn test_rgb_projection_round_trip() {
    let samples = [
        Color::rgb(0, 0, 0),
        Color::rgb(249, 115, 22),
        Color::rgba(124, 58, 237, 77),
        Color::rgba(1, 2, 3, 0),
    ];
    for x in samples {
        assert_eq!(x.to_rgb().to_rgba().to_rgb(), x.to_rgb());
    }
}

#[test]
fn test_with_alpha_preserves_rgb() {
    let samples = [
        Color::rgb(249, 115, 22),
        Color::rgba(124, 58, 237, 77),
    ];
    for x in samples {
        assert_eq!(x.with_alpha(1000).to_rgb(), x.to_rgb());
        assert_eq!(x.with_alpha(300).to_rgb(), x.to_rgb());
    }
}

#[test]
fn test_with_alpha_value() {
    let c = Color::rgb(124, 58, 237).with_alpha(400);
    assert_eq!(c.to_rgba().a, 102);
    assert_eq!(c, Color::rgba(124, 58, 237, 102));
}

#[test]
fn test_rgba_variant_distinct_from_rgb() {
    assert_ne!(Color::rgba(0, 0, 0, 0), Color::rgb(0, 0, 0));
    assert_eq!(Color::rgba(0, 0, 0, 0).to_rgb(), Rgb::new(0, 0, 0));
    assert_eq!(Color::rgb(0, 0, 0).to_rgb(), Rgb::new(0, 0, 0));
}

#[test]
fn test_color_constants() {
    assert_eq!(Color::transparent(), Color::rgba(0, 0, 0, 0));
    assert_eq!(Color::black(), Color::rgb(0, 0, 0));
    assert_eq!(Color::white(), Color::rgb(255, 255, 255));
}

#[test]
fn test_color_from_impls() {
    assert_eq!(Color::from(Rgb::new(1, 2, 3)), Color::rgb(1, 2, 3));
    assert_eq!(Color::from(Rgba::new(1, 2, 3, 4)), Color::rgba(1, 2, 3, 4));
}

#[test]
fn test_construct_to_hex() {
    assert_eq!(Rgb::new(249, 115, 22).hex(), "#F97316");
    assert_eq!(Color::rgb(249, 115, 22).hex(), "#F97316");
    assert_eq!(Color::rgba(249, 115, 22, 77).hex(), "#F97316");
}

#[test]
fn test_to_rgba_full_opacity() {
    assert_eq!(Rgb::new(5, 6, 7).to_rgba(), Rgba::new(5, 6, 7, 255));
    assert_eq!(Color::rgb(5, 6, 7).to_rgba(), Rgba::new(5, 6, 7, 255));
    assert_eq!(Color::rgba(5, 6, 7, 8).to_rgba(), Rgba::new(5, 6, 7, 8));
}
