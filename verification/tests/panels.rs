use web_sw_cor24_x_tinyc::panels::{
    condition_flag_text, led_color, led_is_lit, register_value_text, shows_idle_placeholder,
    switch_style, REG_NAMES,
};

#[test]
fn register_grid() {
    assert_eq!(REG_NAMES, ["r0", "r1", "r2", "fp", "sp", "z", "iv", "ir"]);
    for v in [0u32, 1, 0xff0100, 0xabcdef, 0x1234567, u32::MAX] {
        assert_eq!(register_value_text(v), format!("{:06x}", v));
    }
    assert_eq!(register_value_text(0x2a), "00002a");
    assert_eq!(condition_flag_text(true), "1");
    assert_eq!(condition_flag_text(false), "0");
}

#[test]
fn led_is_active_low() {
    assert!(led_is_lit(0));
    assert!(!led_is_lit(1));
    assert!(led_is_lit(0xFE));
    assert_eq!(led_color(0), "#a6e3a1");
    assert_eq!(led_color(3), "#313244");
}

#[test]
fn switch_button() {
    let on = switch_style(true);
    assert_eq!((on.background, on.foreground, on.label), ("#a6e3a1", "#1e1e2e", "ON"));
    let off = switch_style(false);
    assert_eq!((off.background, off.foreground, off.label), ("#313244", "#9399b2", "OFF"));
}

#[test]
fn idle_placeholder() {
    assert!(shows_idle_placeholder("", false, false));
    assert!(!shows_idle_placeholder("", true, false));
    assert!(!shows_idle_placeholder("", false, true));
    assert!(!shows_idle_placeholder("x", false, false));
}
