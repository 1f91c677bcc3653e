use vstd::prelude::*;

use crate::color::{
    color_luminance, luminance_of, rate_text_color, rating, true_dark, true_dark_color, Color,
};
use crate::style::Style;

verus! {

/// Four shades of one colour channel, subtlest first.
pub type Ramp = [Color; 4];

/// The named colour ramps a theme is derived from.
#[derive(Debug, Clone, Copy, PartialEq, Eq)]
pub struct Palette {
    pub primary: Ramp,
    pub secondary: Ramp,
    pub white: Ramp,
    pub black: Ramp,
    pub gray: Ramp,
    pub red: Ramp,
    pub yellow: Ramp,
    pub limegreen: Ramp,
    pub green: Ramp,
    pub bluegreen: Ramp,
    pub blue: Ramp,
}

impl Palette {
    /// Light text (`white[3]`) is at least as far in luminance from `bg` as
    /// dark text (`black[0]`).
    pub open spec fn light_text_wins(self, bg: Color) -> bool {
        contrast(color_luminance(self.white[3]), color_luminance(bg)) >= contrast(
            color_luminance(self.black[0]),
            color_luminance(bg),
        )
    }

    /// Full-contrast text for a background: whichever of `white[3]` and
    /// `black[0]` is farther from it in luminance (`white[3]` on a tie);
    /// unset where the background has no lightness.
    pub open spec fn text_for(self, bg: Color) -> Color {
        if bg == Color::Reset {
            Color::Reset
        } else if self.light_text_wins(bg) {
            self.white[3]
        } else {
            self.black[0]
        }
    }

    /// The candidate that `text_for` did not choose.
    pub open spec fn rejected_text_for(self, bg: Color) -> Color {
        if bg == Color::Reset {
            Color::Reset
        } else if self.light_text_wins(bg) {
            self.black[0]
        } else {
            self.white[3]
        }
    }

    /// Softer text for a background: `white[0]` where `text_for` takes the
    /// light candidate, `black[3]` where it takes the dark one.
    pub open spec fn reduced_text_for(self, bg: Color) -> Color {
        if bg == Color::Reset {
            Color::Reset
        } else if self.light_text_wins(bg) {
            self.white[0]
        } else {
            self.black[3]
        }
    }

    /// `bg` as background with full-contrast text on it.
    pub open spec fn style_on(self, bg: Color) -> Style {
        Style::colored(self.text_for(bg), bg)
    }

    /// `bg` as background with softer text on it.
    pub open spec fn reduced_style_on(self, bg: Color) -> Style {
        Style::colored(self.reduced_text_for(bg), bg)
    }

    /// The background of generic containers.
    pub open spec fn container_color(self) -> Color {
        self.black[0]
    }

    /// The background of popups.
    pub open spec fn popup_color(self) -> Color {
        self.white[0]
    }

    /// The background of dialogs.
    pub open spec fn dialog_color(self) -> Color {
        self.gray[1]
    }

    /// The dedicated background of document views.
    pub open spec fn doc_color(self) -> Color {
        true_dark(self.green[0])
    }

    /// The four surface backgrounds are pairwise distinct.
    pub open spec fn surfaces_distinct(self) -> bool {
        let (c, p, d, o) = (
            self.container_color(),
            self.popup_color(),
            self.dialog_color(),
            self.doc_color(),
        );
        c != p && c != d && c != o && p != d && p != o && d != o
    }

    /// Focus and selection are shown in different colours.
    pub open spec fn emphasis_distinct(self) -> bool {
        self.primary[2] != self.secondary[1]
    }

    /// Focus and selection each differ from all four surface backgrounds.
    pub open spec fn emphasis_apart_from_surfaces(self) -> bool {
        let (c, p, d, o) = (
            self.container_color(),
            self.popup_color(),
            self.dialog_color(),
            self.doc_color(),
        );
        let (f, s) = (self.primary[2], self.secondary[1]);
        f != c && f != p && f != d && f != o && s != c && s != p && s != d && s != o
    }

    /// What a catalog asks of a palette: distinct surfaces, and focus apart
    /// from selection.
    pub open spec fn is_valid(self) -> bool {
        self.surfaces_distinct() && self.emphasis_distinct()
    }

    /// Whether light text is at least as far in luminance from `bg` as dark
    /// text.
    fn light_text_wins_on(&self, bg: Color) -> (r: bool)
        ensures
            r == self.light_text_wins(bg),
    {
        let y = luminance_of(bg);
        let l = luminance_of(self.white[3]);
        let d = luminance_of(self.black[0]);
        let to_light = if l >= y { l - y } else { y - l };
        let to_dark = if d >= y { d - y } else { y - d };
        to_light >= to_dark
    }

    /// Full-contrast text colour for `bg`.
    pub fn text_color(&self, bg: Color) -> (r: Color)
        ensures
            r == self.text_for(bg),
    {
        if bg == Color::Reset {
            Color::Reset
        } else if self.light_text_wins_on(bg) {
            self.white[3]
        } else {
            self.black[0]
        }
    }

    /// Softer text colour for `bg`, for passive content such as lists.
    pub fn reduced_text_color(&self, bg: Color) -> (r: Color)
        ensures
            r == self.reduced_text_for(bg),
    {
        if bg == Color::Reset {
            Color::Reset
        } else if self.light_text_wins_on(bg) {
            self.white[0]
        } else {
            self.black[3]
        }
    }

    /// `bg` with full-contrast text.
    pub fn style(&self, bg: Color) -> (r: Style)
        ensures
            r == self.style_on(bg),
    {
        Style::new().bg(bg).fg(self.text_color(bg))
    }

    /// `bg` with softer text.
    pub fn reduced_style(&self, bg: Color) -> (r: Style)
        ensures
            r == self.reduced_style_on(bg),
    {
        Style::new().bg(bg).fg(self.reduced_text_color(bg))
    }

    /// Style of shade `n` of the gray ramp.
    pub fn gray(&self, n: usize) -> (r: Style)
        requires
            n < 4,
        ensures
            r == self.style_on(self.gray[n as int]),
    {
        self.style(self.gray[n])
    }

    /// Darkened variant of `c`, for emphasis backgrounds.
    pub fn true_dark_color(&self, c: Color) -> (r: Color)
        ensures
            r == true_dark(c),
    {
        true_dark_color(c)
    }

    /// The fixed-threshold rating of `bg`, independent of the palette: light
    /// text (`Some(true)`) below grey 105, dark text above; `None` where `bg`
    /// has no lightness. The document gutter branches on it.
    pub fn rate_text_color(&self, bg: Color) -> (r: Option<bool>)
        ensures
            r == rating(bg),
            bg == Color::Reset ==> r.is_none(),
    {
        rate_text_color(bg)
    }

    /// Checks that the four surface backgrounds can be told apart.
    pub fn has_distinct_surfaces(&self) -> (r: bool)
        ensures
            r == self.surfaces_distinct(),
    {
        let c = self.black[0];
        let p = self.white[0];
        let d = self.gray[1];
        let o = true_dark_color(self.green[0]);
        c != p && c != d && c != o && p != d && p != o && d != o
    }
}

/// Absolute difference of two luminances.
pub open spec fn contrast(a: int, b: int) -> int {
    if a >= b { a - b } else { b - a }
}

/// On every background with a lightness, the chosen text colour is at least
/// as far in luminance from it as the rejected one, and strictly farther
/// unless the two are equally far.
pub proof fn lemma_text_contrast(p: Palette, bg: Color)
    requires
        bg != Color::Reset,
    ensures
        contrast(color_luminance(p.text_for(bg)), color_luminance(bg)) >= contrast(
            color_luminance(p.rejected_text_for(bg)),
            color_luminance(bg),
        ),
        contrast(color_luminance(p.white[3]), color_luminance(bg)) != contrast(
            color_luminance(p.black[0]),
            color_luminance(bg),
        ) ==> contrast(color_luminance(p.text_for(bg)), color_luminance(bg)) > contrast(
            color_luminance(p.rejected_text_for(bg)),
            color_luminance(bg),
        ),
{
}

} // verus!
