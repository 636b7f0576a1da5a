use eliprompt::color::black;
use eliprompt::Color;

#[test]
fn rgb_color_is_printed_as_hex() {
    assert_eq!(Color::new(255, 0, 0).display_string(), "#ff0000");
}

#[test]
fn named_color_is_printed_by_name() {
    assert_eq!(black().display_string(), "black");
}

#[test]
fn parses_hex_literal() {
    let c = Color::parse("#ff8000").unwrap();
    assert_eq!(c.as_rgb(), (255, 128, 0));
    assert!(c.name.is_none());
    let c = Color::parse("#FF8000").unwrap();
    assert_eq!(c.as_rgb(), (255, 128, 0));
}

#[test]
fn parses_palette_name_through_css_table() {
    let c = Color::parse("red").unwrap();
    assert_eq!(c.as_rgb(), (255, 0, 0));
    assert_eq!(c.name.as_deref(), Some("red"));
    let c = Color::parse("teal").unwrap();
    assert_eq!(c.as_rgb(), (0, 128, 128));
}

#[test]
fn rejects_bad_hex_literals() {
    assert!(Color::parse("#ff80").is_err());
    assert!(Color::parse("#ff800g").is_err());
    assert!(Color::parse("#ff8000ff").is_err());
    assert!(Color::parse("#").is_err());
}

#[test]
fn rejects_unknown_names() {
    assert!(Color::parse("").is_err());
    let e = Color::parse("notacolor").unwrap_err();
    assert_eq!(e.0, "notacolor");
}

#[test]
fn equality_uses_rgb_value_only() {
    let named = Color::parse("red").unwrap();
    let plain = Color::new(255, 0, 0);
    assert!(named == plain);
    assert!(Color::new(1, 2, 3) != Color::new(1, 2, 4));
}
