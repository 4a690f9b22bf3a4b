use vstd::prelude::*;

use crate::color::{disable_color, disabled_look, scaled, transparent, white, Color, Stroke};

verus! {

/// How much a disabled button scales its fill and border, in percent.
pub const DISABLE_MULTIPLY: u32 = 90;

/// How much a disabled button raises the opacity of its colors, in percent; it is also how
/// much it scales its text color.
pub const DISABLE_OPACITY: u32 = 50;

/// How much a pressed button scales every color, in percent.
pub const PRESSED_MULTIPLY: u32 = 75;

/// The width of a button's border, in tenths of a point.
pub const BORDER_WIDTH_TENTHS: u32 = 10;

#[derive(Clone, Copy, Debug, PartialEq, Eq, Structural)]
pub enum ButtonSize {
    Small,
    Large,
}

impl ButtonSize {
    /// The factor applied to the host's button padding, in tenths.
    pub fn padding_scale_tenths(&self) -> (t: u32)
        ensures
            t == (match *self {
                ButtonSize::Small => 15u32,
                ButtonSize::Large => 40u32,
            }),
    {
        match self {
            ButtonSize::Small => 15,
            ButtonSize::Large => 40,
        }
    }
}

#[derive(Clone, Copy, Debug, PartialEq, Eq, Structural)]
pub enum ButtonVariant {
    Primary,
    Secondary,
    Warning,
    Black,
    Green,
    Custom(Color),
}

/// The base color of a variant.
pub open spec fn variant_color(v: ButtonVariant) -> Color {
    match v {
        ButtonVariant::Primary => Color { r: 0, g: 123, b: 187, a: 255 },
        ButtonVariant::Secondary => Color { r: 103, g: 103, b: 120, a: 255 },
        ButtonVariant::Warning => Color { r: 183, g: 28, b: 28, a: 255 },
        ButtonVariant::Black => Color { r: 0, g: 0, b: 0, a: 255 },
        ButtonVariant::Green => Color { r: 30, g: 112, b: 30, a: 255 },
        ButtonVariant::Custom(c) => c,
    }
}

impl ButtonVariant {
    pub fn color(&self) -> (c: Color)
        ensures
            c == variant_color(*self),
    {
        match self {
            ButtonVariant::Primary => Color::from_rgb(0, 123, 187),
            ButtonVariant::Secondary => Color::from_rgb(103, 103, 120),
            ButtonVariant::Warning => Color::from_rgb(183, 28, 28),
            ButtonVariant::Black => Color::black(),
            ButtonVariant::Green => Color::from_rgb(30, 112, 30),
            ButtonVariant::Custom(color) => *color,
        }
    }
}

/// The colors a button is painted with.
#[derive(Clone, Copy, Debug, PartialEq, Eq, Structural)]
pub struct ButtonStyle {
    pub fill_color: Color,
    pub stroke: Stroke,
    pub text_color: Color,
}

impl ButtonStyle {
    pub fn new(fill_color: Color, stroke: Stroke, text_color: Color) -> (s: ButtonStyle)
        ensures
            s == (ButtonStyle { fill_color, stroke, text_color }),
    {
        ButtonStyle { fill_color, stroke, text_color }
    }
}

/// Fill: transparent when inverted, else the variant's color, dimmed when disabled.
pub open spec fn derived_fill(v: ButtonVariant, inverted: bool, disabled: bool) -> Color {
    if inverted {
        transparent()
    } else if disabled {
        disabled_look(variant_color(v), DISABLE_MULTIPLY, DISABLE_OPACITY)
    } else {
        variant_color(v)
    }
}

/// Border: the variant's color when inverted, else white; dimmed when disabled.
pub open spec fn derived_stroke(v: ButtonVariant, inverted: bool, disabled: bool) -> Stroke {
    let base = if inverted {
        variant_color(v)
    } else {
        white()
    };
    Stroke {
        width_tenths: BORDER_WIDTH_TENTHS,
        color: if disabled {
            disabled_look(base, DISABLE_MULTIPLY, DISABLE_OPACITY)
        } else {
            base
        },
    }
}

/// Text: the variant's color when inverted, else white; dimmed when disabled.
pub open spec fn derived_text(v: ButtonVariant, inverted: bool, disabled: bool) -> Color {
    let base = if inverted {
        variant_color(v)
    } else {
        white()
    };
    if disabled {
        disabled_look(base, DISABLE_OPACITY, DISABLE_OPACITY)
    } else {
        base
    }
}

pub open spec fn derived_style(v: ButtonVariant, inverted: bool, disabled: bool) -> ButtonStyle {
    ButtonStyle {
        fill_color: derived_fill(v, inverted, disabled),
        stroke: derived_stroke(v, inverted, disabled),
        text_color: derived_text(v, inverted, disabled),
    }
}

/// Every color of the style scaled by `percent`; the border keeps its width.
pub open spec fn scaled_style(s: ButtonStyle, percent: u32) -> ButtonStyle {
    ButtonStyle {
        fill_color: scaled(s.fill_color, percent),
        stroke: Stroke { width_tenths: s.stroke.width_tenths, color: scaled(s.stroke.color, percent) },
        text_color: scaled(s.text_color, percent),
    }
}

fn derive_fill_color(variant: &ButtonVariant, inverted: bool, disabled: bool) -> (c: Color)
    ensures
        c == derived_fill(*variant, inverted, disabled),
{
    if inverted {
        Color::transparent()
    } else if disabled {
        disable_color(variant.color(), DISABLE_MULTIPLY, DISABLE_OPACITY)
    } else {
        variant.color()
    }
}

fn derive_stroke(variant: &ButtonVariant, inverted: bool, disabled: bool) -> (s: Stroke)
    ensures
        s == derived_stroke(*variant, inverted, disabled),
{
    let mut stroke = if inverted {
        Stroke { width_tenths: BORDER_WIDTH_TENTHS, color: variant.color() }
    } else {
        Stroke { width_tenths: BORDER_WIDTH_TENTHS, color: Color::white() }
    };
    if disabled {
        stroke.color = disable_color(stroke.color, DISABLE_MULTIPLY, DISABLE_OPACITY);
    }
    stroke
}

fn derive_text_color(variant: &ButtonVariant, inverted: bool, disabled: bool) -> (c: Color)
    ensures
        c == derived_text(*variant, inverted, disabled),
{
    let mut color = if inverted {
        variant.color()
    } else {
        Color::white()
    };
    if disabled {
        color = disable_color(color, DISABLE_OPACITY, DISABLE_OPACITY);
    }
    color
}

/// The style of a button of the given variant, inverted or not, disabled or not.
pub fn derive_style(variant: &ButtonVariant, inverted: bool, disabled: bool) -> (s: ButtonStyle)
    ensures
        s == derived_style(*variant, inverted, disabled),
{
    ButtonStyle {
        fill_color: derive_fill_color(variant, inverted, disabled),
        stroke: derive_stroke(variant, inverted, disabled),
        text_color: derive_text_color(variant, inverted, disabled),
    }
}

/// A button: its text, look and state. A button's style is derived from its variant and
/// flags until one is set by hand.
#[derive(Clone, Debug)]
pub struct Button {
    pub text: String,
    pub variant: ButtonVariant,
    pub size: ButtonSize,
    pub inverted: bool,
    pub disabled: bool,
    pub style: ButtonStyle,
    pub hover_style: Option<ButtonStyle>,
    pub disabled_style: Option<ButtonStyle>,
}

/// What a button looks like and reports in one frame.
#[derive(Clone, Copy, Debug, PartialEq, Eq, Structural)]
pub struct ButtonLook {
    /// The colors to paint with.
    pub style: ButtonStyle,
    /// Whether the button grows by a point on each side.
    pub expanded: bool,
    /// Whether the pointer turns into a pointing hand.
    pub pointing_hand: bool,
    /// Whether the button reports a change.
    pub changed: bool,
}

/// A freshly made button with a derived style and no hover or disabled style.
pub open spec fn fresh_button(
    b: Button,
    text: String,
    variant: ButtonVariant,
    size: ButtonSize,
    inverted: bool,
    disabled: bool,
) -> bool {
    &&& b.text == text
    &&& b.variant == variant
    &&& b.size == size
    &&& b.inverted == inverted
    &&& b.disabled == disabled
    &&& b.style == derived_style(variant, inverted, disabled)
    &&& b.hover_style is None
    &&& b.disabled_style is None
}

/// The style in force: the disabled style when disabled, else the hover style when hovered,
/// each falling back to the button's style.
pub open spec fn current_style_of(b: Button, hovered: bool) -> ButtonStyle {
    if b.disabled {
        match b.disabled_style {
            Some(s) => s,
            None => b.style,
        }
    } else if hovered {
        match b.hover_style {
            Some(s) => s,
            None => b.style,
        }
    } else {
        b.style
    }
}

/// What the button shows: a pressed button that responds is darkened and reports a change;
/// a hovered one that responds grows and shows a pointing hand.
pub open spec fn look_of(b: Button, hovered: bool, pressed: bool) -> ButtonLook {
    let current = current_style_of(b, hovered);
    let active = !b.disabled;
    ButtonLook {
        style: if pressed && active {
            scaled_style(current, PRESSED_MULTIPLY)
        } else {
            current
        },
        expanded: hovered && active,
        pointing_hand: hovered && active,
        changed: pressed && active,
    }
}

impl Button {
    pub fn primary(text: String, size: ButtonSize) -> (b: Button)
        ensures
            fresh_button(b, text, ButtonVariant::Primary, size, false, false),
    {
        Button::new(text, ButtonVariant::Primary, size, false, false)
    }

    pub fn secondary(text: String, size: ButtonSize) -> (b: Button)
        ensures
            fresh_button(b, text, ButtonVariant::Secondary, size, false, false),
    {
        Button::new(text, ButtonVariant::Secondary, size, false, false)
    }

    pub fn warning(text: String, size: ButtonSize) -> (b: Button)
        ensures
            fresh_button(b, text, ButtonVariant::Warning, size, false, false),
    {
        Button::new(text, ButtonVariant::Warning, size, false, false)
    }

    pub fn black(text: String, size: ButtonSize) -> (b: Button)
        ensures
            fresh_button(b, text, ButtonVariant::Black, size, false, false),
    {
        Button::new(text, ButtonVariant::Black, size, false, false)
    }

    pub fn green(text: String, size: ButtonSize) -> (b: Button)
        ensures
            fresh_button(b, text, ButtonVariant::Green, size, false, false),
    {
        Button::new(text, ButtonVariant::Green, size, false, false)
    }

    pub fn new(
        text: String,
        variant: ButtonVariant,
        size: ButtonSize,
        inverted: bool,
        disabled: bool,
    ) -> (b: Button)
        ensures
            fresh_button(b, text, variant, size, inverted, disabled),
    {
        let style = derive_style(&variant, inverted, disabled);
        Button {
            text,
            variant,
            size,
            inverted,
            disabled,
            style,
            hover_style: None,
            disabled_style: None,
        }
    }

    /// Sets the inverted flag and derives the style anew.
    pub fn invert(self, invert: bool) -> (b: Button)
        ensures
            b == (Button {
                inverted: invert,
                style: derived_style(self.variant, invert, self.disabled),
                ..self
            }),
    {
        let mut b = self;
        b.inverted = invert;
        b.style = derive_style(&b.variant, b.inverted, b.disabled);
        b
    }

    /// Sets the disabled flag and derives the style anew.
    pub fn disable(self, disable: bool) -> (b: Button)
        ensures
            b == (Button {
                disabled: disable,
                style: derived_style(self.variant, self.inverted, disable),
                ..self
            }),
    {
        let mut b = self;
        b.disabled = disable;
        b.style = derive_style(&b.variant, b.inverted, b.disabled);
        b
    }

    pub fn style(self, style: ButtonStyle) -> (b: Button)
        ensures
            b == (Button { style, ..self }),
    {
        let mut b = self;
        b.style = style;
        b
    }

    pub fn on_hover_style(self, style: ButtonStyle) -> (b: Button)
        ensures
            b == (Button { hover_style: Some(style), ..self }),
    {
        let mut b = self;
        b.hover_style = Some(style);
        b
    }

    pub fn disabled_style(self, style: ButtonStyle) -> (b: Button)
        ensures
            b == (Button { disabled_style: Some(style), ..self }),
    {
        let mut b = self;
        b.disabled_style = Some(style);
        b
    }

    pub fn text_color(self, text_color: Color) -> (b: Button)
        ensures
            b == (Button { style: ButtonStyle { text_color, ..self.style }, ..self }),
    {
        let mut b = self;
        b.style.text_color = text_color;
        b
    }

    pub fn current_style(&self, hovered: bool) -> (s: ButtonStyle)
        ensures
            s == current_style_of(*self, hovered),
    {
        if self.disabled {
            match self.disabled_style {
                Some(s) => s,
                None => self.style,
            }
        } else if hovered {
            match self.hover_style {
                Some(s) => s,
                None => self.style,
            }
        } else {
            self.style
        }
    }

    /// What the button shows in a frame where the pointer hovers it or not, and presses it or
    /// not.
    pub fn look(&self, hovered: bool, pressed: bool) -> (l: ButtonLook)
        ensures
            l == look_of(*self, hovered, pressed),
    {
        let current = self.current_style(hovered);
        let active = !self.disabled;
        let style = if pressed && active {
            ButtonStyle {
                fill_color: current.fill_color.scale(PRESSED_MULTIPLY),
                stroke: Stroke {
                    width_tenths: current.stroke.width_tenths,
                    color: current.stroke.color.scale(PRESSED_MULTIPLY),
                },
                text_color: current.text_color.scale(PRESSED_MULTIPLY),
            }
        } else {
            current
        };
        ButtonLook {
            style,
            expanded: hovered && active,
            pointing_hand: hovered && active,
            changed: pressed && active,
        }
    }

    /// Whether a completed click on the button activates it.
    pub fn is_activated_by(&self, clicked: bool) -> (a: bool)
        ensures
            a == (clicked && !self.disabled),
    {
        clicked && !self.disabled
    }
}

/// Whether dimming a color for a disabled button never makes it more opaque: true of
/// every opaque color, false of some translucent ones.
pub open spec fn dims_without_gaining_opacity(c: Color) -> bool {
    disabled_look(c, DISABLE_MULTIPLY, DISABLE_OPACITY).a <= c.a
}

/// Disabling a button never makes its fill or border more opaque, for every variant whose
/// color loses no opacity when dimmed (every built-in variant, and every opaque custom
/// color). A translucent custom color can gain opacity: alpha 100 becomes 135.
pub proof fn lemma_disabled_never_more_opaque(v: ButtonVariant, inverted: bool)
    requires
        dims_without_gaining_opacity(variant_color(v)),
    ensures
        derived_style(v, inverted, true).fill_color.a <= derived_style(v, inverted, false).fill_color.a,
        derived_style(v, inverted, true).stroke.color.a <= derived_style(v, inverted, false).stroke.color.a,
{
}

/// Disabling a button never makes its text more opaque, for every variant.
pub proof fn lemma_disabled_text_never_more_opaque(v: ButtonVariant, inverted: bool)
    ensures
        derived_style(v, inverted, true).text_color.a <= derived_style(v, inverted, false).text_color.a,
{
    let a = variant_color(v).a as int;
    assert(a * 50 / 100 * 150 / 100 <= a) by (nonlinear_arith)
        requires
            0 <= a <= 255,
    ;
}

/// Every opaque color, so every built-in variant's, loses no opacity when dimmed.
pub proof fn lemma_opaque_dims(c: Color)
    requires
        c.a == 255,
    ensures
        dims_without_gaining_opacity(c),
{
}

/// An inverted button has a transparent fill, and its text and border in the variant's
/// color (dimmed when disabled); a plain one is filled with the variant's color and has
/// white text (both dimmed when disabled).
pub proof fn lemma_inverted_swaps_roles(v: ButtonVariant, inverted: bool, disabled: bool)
    ensures
        derived_style(v, inverted, disabled).stroke.width_tenths == BORDER_WIDTH_TENTHS,
        inverted ==> derived_style(v, inverted, disabled).fill_color == transparent(),
        inverted && !disabled ==> derived_style(v, inverted, disabled).text_color == variant_color(v)
            && derived_style(v, inverted, disabled).stroke.color == variant_color(v),
        inverted && disabled ==> derived_style(v, inverted, disabled).text_color == disabled_look(
            variant_color(v),
            DISABLE_OPACITY,
            DISABLE_OPACITY,
        ) && derived_style(v, inverted, disabled).stroke.color == disabled_look(
            variant_color(v),
            DISABLE_MULTIPLY,
            DISABLE_OPACITY,
        ),
        !inverted && !disabled ==> derived_style(v, inverted, disabled).fill_color == variant_color(v)
            && derived_style(v, inverted, disabled).text_color == white(),
        !inverted && disabled ==> derived_style(v, inverted, disabled).fill_color == disabled_look(
            variant_color(v),
            DISABLE_MULTIPLY,
            DISABLE_OPACITY,
        ) && derived_style(v, inverted, disabled).text_color == disabled_look(
            white(),
            DISABLE_OPACITY,
            DISABLE_OPACITY,
        ),
{
}

} // verus!
