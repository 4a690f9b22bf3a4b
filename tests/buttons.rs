use widgets::button::{DISABLE_MULTIPLY, DISABLE_OPACITY};
use widgets::{
    derive_style, disable_color, increase_opacity, Button, ButtonSize, ButtonStyle, ButtonVariant,
    Color, Stroke,
};

fn rgba(r: u8, g: u8, b: u8, a: u8) -> Color {
    Color { r, g, b, a }
}

const ALL_VARIANTS: [ButtonVariant; 6] = [
    ButtonVariant::Primary,
    ButtonVariant::Secondary,
    ButtonVariant::Warning,
    ButtonVariant::Black,
    ButtonVariant::Green,
    ButtonVariant::Custom(Color { r: 10, g: 20, b: 30, a: 255 }),
];

#[test]
fn variant_colors() {
    assert_eq!(ButtonVariant::Primary.color(), rgba(0, 123, 187, 255));
    assert_eq!(ButtonVariant::Secondary.color(), rgba(103, 103, 120, 255));
    assert_eq!(ButtonVariant::Warning.color(), rgba(183, 28, 28, 255));
    assert_eq!(ButtonVariant::Black.color(), rgba(0, 0, 0, 255));
    assert_eq!(ButtonVariant::Green.color(), rgba(30, 112, 30, 255));
    assert_eq!(ButtonVariant::Custom(rgba(1, 2, 3, 4)).color(), rgba(1, 2, 3, 4));
}

#[test]
fn plain_style_is_filled_with_white_text() {
    let s = derive_style(&ButtonVariant::Primary, false, false);
    assert_eq!(s.fill_color, rgba(0, 123, 187, 255));
    assert_eq!(s.text_color, Color::white());
    assert_eq!(s.stroke, Stroke { width_tenths: 10, color: Color::white() });
}

#[test]
fn inverted_style_is_outlined() {
    for v in ALL_VARIANTS {
        let s = derive_style(&v, true, false);
        assert_eq!(s.fill_color, Color::transparent());
        assert_eq!(s.fill_color.a, 0);
        assert_eq!(s.text_color, v.color());
        assert_eq!(s.stroke.color, v.color());
    }
}

#[test]
fn disabled_plain_style_values() {
    let s = derive_style(&ButtonVariant::Primary, false, true);
    assert_eq!(s.fill_color, rgba(0, 110, 168, 255));
    assert_eq!(s.stroke.color, rgba(229, 229, 229, 255));
    assert_eq!(s.text_color, rgba(127, 127, 127, 190));
}

#[test]
fn disabled_inverted_style_values() {
    let s = derive_style(&ButtonVariant::Warning, true, true);
    assert_eq!(s.fill_color, Color::transparent());
    assert_eq!(s.stroke.color, rgba(164, 25, 25, 255));
    assert_eq!(s.text_color, rgba(91, 14, 14, 190));
}

#[test]
fn disabling_never_gains_opacity() {
    for v in ALL_VARIANTS {
        for inverted in [false, true] {
            let on = derive_style(&v, inverted, false);
            let off = derive_style(&v, inverted, true);
            assert!(off.fill_color.a <= on.fill_color.a);
            assert!(off.stroke.color.a <= on.stroke.color.a);
            assert!(off.text_color.a <= on.text_color.a);
        }
    }
}

#[test]
fn translucent_custom_color_gains_opacity_when_disabled() {
    let v = ButtonVariant::Custom(rgba(50, 50, 50, 100));
    let on = derive_style(&v, false, false);
    let off = derive_style(&v, false, true);
    assert_eq!(on.fill_color.a, 100);
    assert_eq!(off.fill_color.a, 135);
}

#[test]
fn disable_color_scales_then_raises_opacity() {
    assert_eq!(
        disable_color(rgba(200, 100, 50, 200), DISABLE_MULTIPLY, DISABLE_OPACITY),
        rgba(180, 90, 45, 255)
    );
    assert_eq!(disable_color(rgba(200, 100, 50, 100), 50, 50), rgba(100, 50, 25, 75));
    assert_eq!(increase_opacity(rgba(1, 2, 3, 100), 50), rgba(1, 2, 3, 150));
    assert_eq!(increase_opacity(rgba(1, 2, 3, 200), 50), rgba(1, 2, 3, 255));
    assert_eq!(rgba(10, 20, 30, 40).scale(50), rgba(5, 10, 15, 20));
}

#[test]
fn constructors_derive_their_style() {
    let b = Button::primary("Go".to_string(), ButtonSize::Large);
    assert_eq!(b.text, "Go");
    assert_eq!(b.variant, ButtonVariant::Primary);
    assert!(!b.inverted && !b.disabled);
    assert_eq!(b.style, derive_style(&ButtonVariant::Primary, false, false));
    assert!(b.hover_style.is_none() && b.disabled_style.is_none());
    assert_eq!(Button::secondary("a".to_string(), ButtonSize::Small).variant, ButtonVariant::Secondary);
    assert_eq!(Button::warning("a".to_string(), ButtonSize::Small).variant, ButtonVariant::Warning);
    assert_eq!(Button::black("a".to_string(), ButtonSize::Small).variant, ButtonVariant::Black);
    assert_eq!(Button::green("a".to_string(), ButtonSize::Small).variant, ButtonVariant::Green);
    let n = Button::new("x".to_string(), ButtonVariant::Green, ButtonSize::Small, true, true);
    assert_eq!(n.style, derive_style(&ButtonVariant::Green, true, true));
}

#[test]
fn invert_and_disable_rederive_the_style() {
    let b = Button::green("x".to_string(), ButtonSize::Small).invert(true);
    assert!(b.inverted);
    assert_eq!(b.style, derive_style(&ButtonVariant::Green, true, false));
    let b = b.disable(true);
    assert!(b.disabled);
    assert_eq!(b.style, derive_style(&ButtonVariant::Green, true, true));
}

#[test]
fn text_color_overrides_only_the_text() {
    let b = Button::primary("x".to_string(), ButtonSize::Small).text_color(Color::black());
    assert_eq!(b.style.text_color, Color::black());
    assert_eq!(b.style.fill_color, ButtonVariant::Primary.color());
}

#[test]
fn current_style_prefers_disabled_then_hover() {
    let hover = ButtonStyle::new(Color::transparent(), Stroke { width_tenths: 12, color: Color::black() }, Color::black());
    let grey = ButtonStyle::new(rgba(9, 9, 9, 255), Stroke { width_tenths: 10, color: Color::black() }, Color::white());
    let b = Button::primary("x".to_string(), ButtonSize::Small).on_hover_style(hover).disabled_style(grey);
    assert_eq!(b.current_style(true), hover);
    assert_eq!(b.current_style(false), b.style);
    let d = b.clone().disable(true);
    assert_eq!(d.current_style(true), grey);
    assert_eq!(d.current_style(false), grey);
    let plain = Button::primary("x".to_string(), ButtonSize::Small);
    assert_eq!(plain.current_style(true), plain.style);
}

#[test]
fn pressed_button_darkens_and_reports_change() {
    let b = Button::primary("x".to_string(), ButtonSize::Small);
    let look = b.look(true, true);
    assert!(look.changed && look.expanded && look.pointing_hand);
    assert_eq!(look.style.fill_color, rgba(0, 92, 140, 191));
    assert_eq!(look.style.text_color, rgba(191, 191, 191, 191));
    assert_eq!(look.style.stroke.width_tenths, 10);
    let idle = b.look(false, false);
    assert!(!idle.changed && !idle.expanded && !idle.pointing_hand);
    assert_eq!(idle.style, b.style);
}

#[test]
fn disabled_button_ignores_pointer() {
    let b = Button::primary("x".to_string(), ButtonSize::Small).disable(true);
    let look = b.look(true, true);
    assert!(!look.changed && !look.expanded && !look.pointing_hand);
    assert_eq!(look.style, b.style);
    assert!(!b.is_activated_by(true));
    assert!(Button::primary("x".to_string(), ButtonSize::Small).is_activated_by(true));
    assert!(!Button::primary("x".to_string(), ButtonSize::Small).is_activated_by(false));
}

#[test]
fn size_padding_factors() {
    assert_eq!(ButtonSize::Small.padding_scale_tenths(), 15);
    assert_eq!(ButtonSize::Large.padding_scale_tenths(), 40);
}
