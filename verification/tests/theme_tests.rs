use velopack_bins::dialog_style::{button_fill_color, button_text_color, footer_color, theme_colors};
use velopack_bins::theme::{
    close_icon_color, parse_theme_name, read_system_theme, resolve_theme, Rgb, ThemeMode, ThemeOverride,
};

#[test]
fn theme_names_ignore_ascii_case() {
    assert_eq!(parse_theme_name("dark"), Some(ThemeMode::Dark));
    assert_eq!(parse_theme_name("DARK"), Some(ThemeMode::Dark));
    assert_eq!(parse_theme_name("DaRk"), Some(ThemeMode::Dark));
    assert_eq!(parse_theme_name("light"), Some(ThemeMode::Light));
    assert_eq!(parse_theme_name("Light"), Some(ThemeMode::Light));
}

#[test]
fn theme_names_reject_others() {
    assert_eq!(parse_theme_name(""), None);
    assert_eq!(parse_theme_name("dark "), None);
    assert_eq!(parse_theme_name("darkness"), None);
    assert_eq!(parse_theme_name("lite"), None);
    assert_eq!(parse_theme_name("dárk"), None);
    assert_eq!(parse_theme_name("system"), None);
}

#[test]
fn set_theme_override_from_str_accepts_and_refuses() {
    let mut o = ThemeOverride::new();
    assert_eq!(o.get(), None);
    assert!(o.set_theme_override_from_str(Some("Dark")));
    assert_eq!(o.get(), Some(ThemeMode::Dark));
    assert!(!o.set_theme_override_from_str(Some("blue")));
    assert_eq!(o.get(), Some(ThemeMode::Dark));
    assert!(o.set_theme_override_from_str(Some("LIGHT")));
    assert_eq!(o.get(), Some(ThemeMode::Light));
    assert!(o.set_theme_override_from_str(None));
    assert_eq!(o.get(), None);
}

#[test]
fn override_decides_current_theme() {
    let mut o = ThemeOverride::new();
    assert_eq!(o.current_theme(Some(0)), ThemeMode::Dark);
    assert_eq!(o.current_theme(Some(1)), ThemeMode::Light);
    o.set_theme_override(Some(ThemeMode::Dark));
    assert_eq!(o.current_theme(Some(1)), ThemeMode::Dark);
    assert_eq!(o.current_theme(None), ThemeMode::Dark);
    o.set_theme_override(Some(ThemeMode::Light));
    assert_eq!(o.current_theme(Some(0)), ThemeMode::Light);
}

#[test]
fn registry_value_gives_system_theme() {
    assert_eq!(read_system_theme(Some(0)), ThemeMode::Dark);
    assert_eq!(read_system_theme(Some(1)), ThemeMode::Light);
    assert_eq!(read_system_theme(Some(7)), ThemeMode::Light);
    assert_eq!(read_system_theme(None), ThemeMode::Light);
    assert_eq!(resolve_theme(None, Some(0)), ThemeMode::Dark);
    assert_eq!(resolve_theme(Some(ThemeMode::Light), Some(0)), ThemeMode::Light);
}

#[test]
fn dialog_palettes() {
    let dark = theme_colors(ThemeMode::Dark);
    assert_eq!(dark.background, 0xFF202020);
    assert_eq!(dark.header_text, Rgb { r: 255, g: 255, b: 255 });
    assert_eq!(dark.button_secondary, 0xFF303030);
    let light = theme_colors(ThemeMode::Light);
    assert_eq!(light.background, 0xFFF6F6F6);
    assert_eq!(light.title_text, Rgb { r: 80, g: 80, b: 80 });
    assert_eq!(light.button_secondary_hover, 0xFFDCDCDC);
    assert_eq!(light.footer_link, dark.footer_link);
}

#[test]
fn button_colors() {
    assert_eq!(button_text_color(ThemeMode::Dark, true, false), Rgb { r: 255, g: 255, b: 255 });
    assert_eq!(button_text_color(ThemeMode::Dark, false, true), Rgb { r: 200, g: 200, b: 200 });
    assert_eq!(button_text_color(ThemeMode::Light, true, true), Rgb { r: 255, g: 255, b: 255 });
    assert_eq!(button_text_color(ThemeMode::Light, false, true), Rgb { r: 110, g: 110, b: 110 });
    assert_eq!(button_text_color(ThemeMode::Light, false, false), Rgb { r: 30, g: 30, b: 30 });
    let c = theme_colors(ThemeMode::Light);
    assert_eq!(button_fill_color(&c, true, false), 0xFF0078D4);
    assert_eq!(button_fill_color(&c, true, true), 0xFF1E88E5);
    assert_eq!(button_fill_color(&c, false, false), 0xFFE6E6E6);
    assert_eq!(button_fill_color(&c, false, true), 0xFFDCDCDC);
    assert_eq!(footer_color(&c, true), Rgb { r: 0, g: 120, b: 212 });
    assert_eq!(footer_color(&c, false), Rgb { r: 120, g: 120, b: 120 });
    assert_eq!(close_icon_color(true, 1, 2), 2);
    assert_eq!(close_icon_color(false, 1, 2), 1);
}
