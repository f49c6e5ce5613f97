//! Colours, as four bytes with the alpha already multiplied in.

use vstd::prelude::*;

verus! {

/// A colour: red, green and blue already multiplied by the opacity `a`.
#[derive(Clone, Copy, Debug, PartialEq, Eq, Structural)]
pub struct Color {
    pub r: u8,
    pub g: u8,
    pub b: u8,
    pub a: u8,
}

/// One channel times `alpha / 255`, rounded to the nearest byte.
pub open spec fn scale_channel(value: u8, alpha: u8) -> int {
    let p = value as int * alpha as int + 128;
    (p + p / 256) / 256
}

/// The colour with separate alpha `(r, g, b, a)` after the alpha is
/// multiplied in.
pub open spec fn premultiplied(r: u8, g: u8, b: u8, a: u8) -> Color {
    if a == 0 {
        Color { r: 0, g: 0, b: 0, a: 0 }
    } else if a == 255 {
        Color { r, g, b, a: 255 }
    } else {
        Color {
            r: scale_channel(r, a) as u8,
            g: scale_channel(g, a) as u8,
            b: scale_channel(b, a) as u8,
            a,
        }
    }
}

/// `scale_channel` gives a byte, and that byte is `value * alpha / 255` to
/// the nearest.
pub proof fn lemma_scale_channel_is_nearest(value: u8, alpha: u8)
    ensures
        0 <= scale_channel(value, alpha) <= 255,
        scale_channel(value, alpha) <= alpha,
        scale_channel(value, alpha) <= value,
        2 * vstd::math::abs(255 * scale_channel(value, alpha) - value * alpha) <= 255,
{
    let x = value as int * alpha as int;
    assert(0 <= x <= 255 * alpha && x <= 255 * value) by (nonlinear_arith)
        requires
            x == value as int * alpha as int,
            0 <= value <= 255,
            0 <= alpha <= 255,
    ;
}

/// Calls `egui::Color32::from_rgba_unmultiplied` and copies the four bytes
/// out. Trusted: that constructor gives transparent black for alpha 0, the
/// channels unchanged for alpha 255, and otherwise each channel scaled as
/// `scale_channel` says, with the alpha kept.
#[verifier::external_body]
fn color32_from_rgba_unmultiplied(r: u8, g: u8, b: u8, a: u8) -> (c: Color)
    ensures
        c == premultiplied(r, g, b, a),
{
    let c = egui::Color32::from_rgba_unmultiplied(r, g, b, a);
    Color { r: c.r(), g: c.g(), b: c.b(), a: c.a() }
}

impl Color {
    /// The colour given by red, green, blue and a separate alpha, as a
    /// colour picker shows them.
    pub fn from_rgba_unmultiplied(r: u8, g: u8, b: u8, a: u8) -> (c: Color)
        ensures
            c == premultiplied(r, g, b, a),
            c.a == a,
    {
        color32_from_rgba_unmultiplied(r, g, b, a)
    }

    /// The colour whose stored bytes are `r`, `g`, `b`, `a`.
    pub fn from_rgba_premultiplied(r: u8, g: u8, b: u8, a: u8) -> (c: Color)
        ensures
            c == (Color { r, g, b, a }),
    {
        Color { r, g, b, a }
    }
}

} // verus!
