use molten_brand::colors;
use molten_brand::products;
use molten_brand::semantic;
use molten_brand::spacing;
use molten_brand::typography;
use molten_brand::Color;

#[test]
fn test_color_hex() {
    assert_eq!(colors::forge_black().hex(), "#0A0A0A");
    assert_eq!(colors::molten_primary().hex(), "#F97316");
}

#[test]
fn test_product_colors() {
    assert_eq!(products::lair_primary().hex(), "#7C3AED");
    assert_eq!(products::hearth_primary().hex(), "#3B82F6");
    assert_eq!(products::alloy_primary().hex(), "#F97316");
}

#[test]
fn test_semantic_colors() {
    assert_eq!(semantic::success().hex(), "#10B981");
    assert_eq!(semantic::error().hex(), "#EF4444");
}

#[test]
fn test_scale() {
    assert_eq!(spacing::get(1), 4);
    assert_eq!(spacing::get(4), 16);
    assert_eq!(spacing::get(8), 32);
}

#[test]
fn test_units() {
    assert_eq!(spacing::units(1), 4);
    assert_eq!(spacing::units(4), 16);
    assert_eq!(spacing::units(10), 40);
}

#[test]
fn test_scale_lookup_default() {
    assert_eq!(colors::neutral_scale(999), colors::neutral_scale(500));
    assert_eq!(colors::neutral_scale(951), Color::rgb(113, 113, 122));
    assert_eq!(colors::molten_scale(999), colors::molten_scale(500));
    assert_eq!(colors::molten_scale(0), colors::molten_primary());
    assert_eq!(spacing::get(7), 16);
    assert_eq!(spacing::get(65535), 16);
}

#[test]
fn test_scale_lookup_values() {
    assert_eq!(colors::neutral_scale(0).hex(), "#FFFFFF");
    assert_eq!(colors::neutral_scale(950).hex(), "#0A0A0A");
    assert_eq!(colors::molten_scale(50).hex(), "#FFF7ED");
    assert_eq!(colors::molten_scale(500).hex(), "#F97316");
    assert_eq!(colors::molten_scale(950).hex(), "#431407");
}

#[test]
fn test_name_lookup_case_insensitive() {
    let lower = products::get_product_primary("lair");
    assert_eq!(products::get_product_primary("LAIR"), lower);
    assert_eq!(products::get_product_primary("Lair"), lower);
    assert_eq!(lower, products::lair_primary());
    assert_eq!(
        products::get_product_primary("unknown-product"),
        products::alloy_primary()
    );
    assert_eq!(products::get_product_primary("Hearth"), products::hearth_primary());
    assert_eq!(products::get_product_primary("alloy"), products::alloy_primary());
}

#[test]
fn test_tagline_lookup() {
    assert_eq!(
        products::get_product_tagline("LAIR"),
        "The terminal where goblins ship code"
    );
    assert_eq!(
        products::get_product_tagline("hearth"),
        "The warm center where the community gathers"
    );
    assert_eq!(
        products::get_product_tagline("something-else"),
        "Components forged together"
    );
    assert_eq!(products::get_product_tagline("alloy"), products::ALLOY_TAGLINE);
}

#[test]
fn test_semantic_get() {
    let s = semantic::SemanticColors::new();
    assert_eq!(s.get("success"), Some(semantic::success()));
    assert_eq!(s.get("SUCCESS"), Some(semantic::success()));
    assert_eq!(s.get("Warning"), Some(semantic::warning()));
    assert_eq!(s.get("error"), Some(semantic::error()));
    assert_eq!(s.get("INFO"), Some(semantic::info()));
    assert_eq!(s.get("bogus"), None);
}

#[test]
fn test_semantic_default() {
    let d = semantic::SemanticColors::default();
    assert_eq!(d.success, semantic::success());
    assert_eq!(d.warning, semantic::warning());
    assert_eq!(d.error, semantic::error());
    assert_eq!(d.info, semantic::info());
}

#[test]
fn test_typography_presets() {
    let body = typography::preset_body();
    assert_eq!(body.family, typography::SANS);
    assert_eq!(body.size, 16);
    assert_eq!(body.weight, 400);
    assert_eq!(body.line_height_milli, 1500);
    assert_eq!(body.letter_spacing_milli, 0);

    let display = typography::preset_display();
    assert_eq!(display.family, typography::DISPLAY);
    assert_eq!(display.size, 48);
    assert_eq!(display.weight, 700);
    assert_eq!(display.line_height_milli, 1100);
    assert_eq!(display.letter_spacing_milli, -25);

    let code = typography::preset_code();
    assert_eq!(code.family, typography::MONO);
    assert_eq!(code.line_height_milli, 1625);
}

#[test]
fn test_spacing_semantic_aliases() {
    assert_eq!(spacing::inline_pad(), spacing::get(1));
    assert_eq!(spacing::component_lg(), spacing::get(4));
    assert_eq!(spacing::gap_lg(), spacing::get(6));
    assert_eq!(spacing::section(), spacing::get(8));
    assert_eq!(spacing::page(), spacing::get(16));
}

#[test]
fn test_brand_metadata() {
    assert_eq!(molten_brand::brand::COMPANY, "Molten Labs");
    assert_eq!(molten_brand::brand::TAGLINE, "Let them cook");
}
