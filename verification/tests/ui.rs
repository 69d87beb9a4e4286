use mmheroes_core::ui::{all_colors, Color};

#[test]
fn test() {}

#[test]
fn color_codes_follow_the_console_palette() {
    assert_eq!(Color::Black.code(), 0);
    assert_eq!(Color::White.code(), 7);
    assert_eq!(Color::Cyan.code(), 14);
    assert_eq!(Color::WhiteBright.code(), 15);
    let colors = all_colors();
    for i in 1..colors.len() {
        assert!(colors[i - 1].code() < colors[i].code());
    }
}
