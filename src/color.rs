use vstd::prelude::*;

verus! {

/// A terminal colour: either unset (the terminal's own default) or an RGB value.
#[derive(Debug, Clone, Copy, PartialEq, Eq, Structural)]
pub enum Color {
    /// No colour of its own; it has no defined lightness.
    Reset,
    Rgb(u8, u8, u8),
}

/// Perceptual luminance of an RGB triple, scaled by 100
/// (`0.30 r + 0.59 g + 0.11 b`).
pub open spec fn luminance(r: u8, g: u8, b: u8) -> int {
    30 * r + 59 * g + 11 * b
}

/// Luminance (scaled by 100) below which light text is preferred.
pub const LIGHT_TEXT_THRESHOLD: u32 = 10500;

/// Luminance of a colour; an unset colour counts as black.
pub open spec fn color_luminance(c: Color) -> int {
    match c {
        Color::Reset => 0,
        Color::Rgb(r, g, b) => luminance(r, g, b),
    }
}

/// Luminance of a colour (scaled by 100); an unset colour counts as black.
pub fn luminance_of(c: Color) -> (r: u32)
    ensures
        r == color_luminance(c),
        r <= 25500,
{
    match c {
        Color::Reset => 0,
        Color::Rgb(r, g, b) => 30 * (r as u32) + 59 * (g as u32) + 11 * (b as u32),
    }
}

/// Whether light text is preferred on an RGB background. Away from the
/// threshold this is fixed by `luminance`; exactly on it the decision is left
/// to the rounding of the underlying computation.
pub uninterp spec fn prefers_light_text(r: u8, g: u8, b: u8) -> bool;

/// The light/dark decision for text on `c` (`Some(true)`: light text);
/// `None` where `c` has no lightness.
pub open spec fn rating(c: Color) -> Option<bool> {
    match c {
        Color::Reset => None,
        Color::Rgb(r, g, b) => if luminance(r, g, b) == LIGHT_TEXT_THRESHOLD {
            Some(prefers_light_text(r, g, b))
        } else {
            Some(luminance(r, g, b) < LIGHT_TEXT_THRESHOLD)
        },
    }
}

/// One channel scaled from `0..=255` down to `0..=63`.
pub open spec fn darken_channel(v: u8) -> u8 {
    (v as int * 63 / 255) as u8
}

/// The true-dark variant of a colour: every channel scaled into `0..=63`.
/// An unset colour is taken as black.
pub open spec fn true_dark(c: Color) -> Color {
    match c {
        Color::Reset => Color::Rgb(0, 0, 0),
        Color::Rgb(r, g, b) => Color::Rgb(darken_channel(r), darken_channel(g), darken_channel(b)),
    }
}

/// Relies on rat_theme's `Scheme::rate_text_color`, which reads only the colour
/// (not the scheme): `None` for `Reset`; for RGB, light text when the grey value
/// `0.3 r + 0.59 g + 0.11 b` is below 105.
#[verifier::external_body]
pub(crate) fn rate_text_color(c: Color) -> (r: Option<bool>)
    ensures
        c == Color::Reset ==> r.is_none(),
        forall|x: u8, y: u8, z: u8|
            c == Color::Rgb(x, y, z) && luminance(x, y, z) == LIGHT_TEXT_THRESHOLD ==> r == Some(
                prefers_light_text(x, y, z),
            ),
        forall|x: u8, y: u8, z: u8|
            c == Color::Rgb(x, y, z) && luminance(x, y, z) < LIGHT_TEXT_THRESHOLD ==> r == Some(true),
        forall|x: u8, y: u8, z: u8|
            c == Color::Rgb(x, y, z) && luminance(x, y, z) > LIGHT_TEXT_THRESHOLD ==> r == Some(false),
{
    let c = match c {
        Color::Reset => ratatui::style::Color::Reset,
        Color::Rgb(r, g, b) => ratatui::style::Color::Rgb(r, g, b),
    };
    rat_theme::Scheme::default().rate_text_color(c)
}

/// Relies on rat_theme's `Scheme::true_dark_color`, which reads only the colour:
/// each channel mapped from `0..=255` onto `0..=63` as `v * 63 / 255`; `Reset`
/// is read as black.
#[verifier::external_body]
pub(crate) fn true_dark_color(c: Color) -> (r: Color)
    ensures
        r == true_dark(c),
{
    let c = match c {
        Color::Reset => ratatui::style::Color::Reset,
        Color::Rgb(r, g, b) => ratatui::style::Color::Rgb(r, g, b),
    };
    match rat_theme::Scheme::default().true_dark_color(c) {
        ratatui::style::Color::Rgb(r, g, b) => Color::Rgb(r, g, b),
        _ => Color::Reset,
    }
}

/// Darkening never raises a channel and never leaves the colour range; an
/// already minimal channel stays at zero.
pub proof fn lemma_true_dark_bound(c: Color)
    ensures
        match (c, true_dark(c)) {
            (Color::Rgb(r, g, b), Color::Rgb(r2, g2, b2)) => r2 <= r && g2 <= g && b2 <= b && r2
                <= 63 && g2 <= 63 && b2 <= 63 && (r == 0 ==> r2 == 0) && (g == 0 ==> g2 == 0) && (b
                == 0 ==> b2 == 0),
            (Color::Reset, Color::Rgb(r2, g2, b2)) => r2 == 0 && g2 == 0 && b2 == 0,
            _ => false,
        },
{
    match c {
        Color::Rgb(r, g, b) => {
            lemma_darken_channel(r);
            lemma_darken_channel(g);
            lemma_darken_channel(b);
        },
        Color::Reset => {},
    }
}

proof fn lemma_darken_channel(v: u8)
    ensures
        darken_channel(v) <= v,
        darken_channel(v) <= 63,
        darken_channel(v) == v as int * 63 / 255,
{
    assert(0 <= v as int * 63 / 255 <= v) by (nonlinear_arith);
    assert(v as int * 63 / 255 <= 63) by (nonlinear_arith)
        requires v <= 255;
}

} // verus!
