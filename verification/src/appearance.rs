use crate::text::{decimal, push_decimal};
use vstd::prelude::*;

verus! {

/// Smallest and largest font size of the current lyric line.
pub const ABOVE_FONT_MIN: i32 = 14;
pub const ABOVE_FONT_MAX: i32 = 72;
/// Smallest and largest font size of the secondary lyric line.
pub const BELOW_FONT_MIN: i32 = 12;
pub const BELOW_FONT_MAX: i32 = 64;
/// Font sizes that `reset-font-size` restores.
pub const ABOVE_FONT_DEFAULT: i32 = 28;
pub const BELOW_FONT_DEFAULT: i32 = 24;

/// `v` held within `lo..=hi`.
pub open spec fn clamp(v: int, lo: int, hi: int) -> int {
    if v < lo {
        lo
    } else if v > hi {
        hi
    } else {
        v
    }
}

/// The font sizes after `increase-font-size` (`delta` 2) or
/// `decrease-font-size` (`delta` -2): both moved by `delta`, then held within
/// their ranges.
pub fn adjust_font_size(above: i32, below: i32, delta: i32) -> (r: (i32, i32))
    requires
        i32::MIN <= above + delta <= i32::MAX,
        i32::MIN <= below + delta <= i32::MAX,
    ensures
        r.0 == clamp(above + delta, ABOVE_FONT_MIN as int, ABOVE_FONT_MAX as int),
        r.1 == clamp(below + delta, BELOW_FONT_MIN as int, BELOW_FONT_MAX as int),
{
    let above = above + delta;
    let below = below + delta;
    let above = if above < ABOVE_FONT_MIN {
        ABOVE_FONT_MIN
    } else if above > ABOVE_FONT_MAX {
        ABOVE_FONT_MAX
    } else {
        above
    };
    let below = if below < BELOW_FONT_MIN {
        BELOW_FONT_MIN
    } else if below > BELOW_FONT_MAX {
        BELOW_FONT_MAX
    } else {
        below
    };
    (above, below)
}

/// The font sizes that `reset-font-size` sets.
pub fn reset_font_sizes() -> (r: (i32, i32))
    ensures
        r == (ABOVE_FONT_DEFAULT, BELOW_FONT_DEFAULT),
{
    (ABOVE_FONT_DEFAULT, BELOW_FONT_DEFAULT)
}

/// Adjusted font sizes always lie within their ranges.
pub proof fn adjusted_sizes_in_range(above: int, below: int, delta: int)
    ensures
        ABOVE_FONT_MIN <= clamp(above + delta, ABOVE_FONT_MIN as int, ABOVE_FONT_MAX as int)
            <= ABOVE_FONT_MAX,
        BELOW_FONT_MIN <= clamp(below + delta, BELOW_FONT_MIN as int, BELOW_FONT_MAX as int)
            <= BELOW_FONT_MAX,
{
}

/// Away from the bounds, a decrease undoes an increase of the same size.
pub proof fn decrease_undoes_increase(above: int, below: int, delta: int)
    requires
        ABOVE_FONT_MIN <= above <= ABOVE_FONT_MAX,
        BELOW_FONT_MIN <= below <= BELOW_FONT_MAX,
        ABOVE_FONT_MIN <= above + delta <= ABOVE_FONT_MAX,
        BELOW_FONT_MIN <= below + delta <= BELOW_FONT_MAX,
    ensures
        clamp(
            clamp(above + delta, ABOVE_FONT_MIN as int, ABOVE_FONT_MAX as int) - delta,
            ABOVE_FONT_MIN as int,
            ABOVE_FONT_MAX as int,
        ) == above,
        clamp(
            clamp(below + delta, BELOW_FONT_MIN as int, BELOW_FONT_MAX as int) - delta,
            BELOW_FONT_MIN as int,
            BELOW_FONT_MAX as int,
        ) == below,
{
}

pub const CSS_ABOVE_SIZE: &'static str = "label#above {\n            font-size: ";
pub const CSS_COLOR: &'static str = "px;\n            color: ";
pub const CSS_ABOVE_SHADOW: &'static str = ";\n            text-shadow:\n                -1px -1px 0 rgba(0, 0, 0, 0.95),\n                 1px -1px 0 rgba(0, 0, 0, 0.95),\n                -1px  1px 0 rgba(0, 0, 0, 0.95),\n                 1px  1px 0 rgba(0, 0, 0, 0.95),\n                 0 0 5px ";
pub const CSS_ABOVE_GLOW: &'static str = ",\n                 0 0 14px ";
pub const CSS_BELOW_SIZE: &'static str = ";\n        }\n        label#below {\n            font-size: ";
pub const CSS_BELOW_SHADOW: &'static str = ";\n            text-shadow:\n                -1px -1px 0 rgba(0, 0, 0, 0.90),\n                 1px -1px 0 rgba(0, 0, 0, 0.90),\n                -1px  1px 0 rgba(0, 0, 0, 0.90),\n                 1px  1px 0 rgba(0, 0, 0, 0.90),\n                 0 0 5px ";
pub const CSS_BELOW_GLOW: &'static str = ",\n                 0 0 12px ";
pub const CSS_END: &'static str = ";\n        }";

/// The style sheet of the two lyric labels: font sizes, colours, a dark
/// outline and a glow, dimmer under the secondary line.
pub open spec fn appearance_css_text(
    above: int,
    below: int,
    above_color: Seq<char>,
    below_color: Seq<char>,
    glow_color: Seq<char>,
    below_glow_color: Seq<char>,
) -> Seq<char> {
    CSS_ABOVE_SIZE@ + decimal(above) + CSS_COLOR@ + above_color + CSS_ABOVE_SHADOW@ + glow_color
        + CSS_ABOVE_GLOW@ + glow_color + CSS_BELOW_SIZE@ + decimal(below) + CSS_COLOR@
        + below_color + CSS_BELOW_SHADOW@ + below_glow_color + CSS_BELOW_GLOW@
        + below_glow_color + CSS_END@
}

/// The CSS that `apply_appearance` loads; `below_glow_color` is the glow
/// colour at half its opacity.
pub fn appearance_css(
    above: i32,
    below: i32,
    above_color: &str,
    below_color: &str,
    glow_color: &str,
    below_glow_color: &str,
) -> (css: String)
    ensures
        css@ == appearance_css_text(
            above as int,
            below as int,
            above_color@,
            below_color@,
            glow_color@,
            below_glow_color@,
        ),
{
    let mut css = String::new();
    css.append(CSS_ABOVE_SIZE);
    push_decimal(&mut css, above);
    css.append(CSS_COLOR);
    css.append(above_color);
    css.append(CSS_ABOVE_SHADOW);
    css.append(glow_color);
    css.append(CSS_ABOVE_GLOW);
    css.append(glow_color);
    css.append(CSS_BELOW_SIZE);
    push_decimal(&mut css, below);
    css.append(CSS_COLOR);
    css.append(below_color);
    css.append(CSS_BELOW_SHADOW);
    css.append(below_glow_color);
    css.append(CSS_BELOW_GLOW);
    css.append(below_glow_color);
    css.append(CSS_END);
    css
}

} // verus!
