use iced_loading_indicator::{resolve_color, Palette, Rgba, Style};

fn light_palette() -> Palette {
    Palette {
        text: Rgba { r: 50, g: 50, b: 50, a: 1000 },
        primary: Rgba { r: 350, g: 540, b: 900, a: 1000 },
    }
}

fn dark_palette() -> Palette {
    Palette {
        text: Rgba { r: 950, g: 950, b: 950, a: 1000 },
        primary: Rgba { r: 700, g: 300, b: 150, a: 1000 },
    }
}

#[test]
fn default_style_is_text_color() {
    assert!(matches!(Style::default(), Style::TextColor));
}

#[test]
fn text_color_follows_palette() {
    assert_eq!(resolve_color(Style::TextColor, &light_palette()), light_palette().text);
    assert_eq!(resolve_color(Style::TextColor, &dark_palette()), dark_palette().text);
}

#[test]
fn primary_color_follows_palette() {
    assert_eq!(resolve_color(Style::PrimaryColor, &light_palette()), light_palette().primary);
    assert_eq!(resolve_color(Style::PrimaryColor, &dark_palette()), dark_palette().primary);
}

#[test]
fn custom_color_ignores_palette() {
    let custom = Rgba { r: 667, g: 667, b: 1000, a: 1000 };
    assert_eq!(resolve_color(Style::CustomColor(custom), &light_palette()), custom);
    assert_eq!(resolve_color(Style::CustomColor(custom), &dark_palette()), custom);
}

#[test]
fn with_alpha_replaces_only_alpha() {
    let c = Rgba { r: 10, g: 20, b: 30, a: 1000 };
    assert_eq!(c.with_alpha(200), Rgba { r: 10, g: 20, b: 30, a: 200 });
}
