use rltk::{
    add_named_colors_to_palette, clear_palette, palette_color, register_palette_color, Palette,
    Rgb, Rgba,
};

#[test]
fn add_check_color() {
    let mut palette = Palette::new();
    register_palette_color(&mut palette, "red", Rgb::new(255, 0, 0).to_rgba());
    let red = palette_color(&palette, "red").unwrap();
    assert!(red == Rgba::new(255, 0, 0, 255));
}

#[test]
fn clear_test() {
    let mut palette = Palette::new();
    add_named_colors_to_palette(&mut palette);
    clear_palette(&mut palette);
    assert!(palette_color(&palette, "snow").is_none());
}

#[test]
fn no_such_color() {
    let mut palette = Palette::new();
    add_named_colors_to_palette(&mut palette);
    assert!(palette_color(&palette, "i like fish").is_none());
}

#[test]
fn overwrite_keeps_latest() {
    let mut palette = Palette::new();
    register_palette_color(&mut palette, "accent", Rgba::new(1, 2, 3, 255));
    register_palette_color(&mut palette, "accent", Rgba::new(9, 8, 7, 255));
    assert_eq!(palette_color(&palette, "accent"), Some(Rgba::new(9, 8, 7, 255)));
}

#[test]
fn named_colors_present() {
    let mut palette = Palette::new();
    add_named_colors_to_palette(&mut palette);
    assert_eq!(palette_color(&palette, "snow"), Some(Rgba::new(255, 250, 250, 255)));
    assert_eq!(palette_color(&palette, "black"), Some(Rgba::new(0, 0, 0, 255)));
    assert!(palette_color(&palette, "dodgerblue").is_some());
    assert!(palette_color(&palette, "gray50").is_some());
}
