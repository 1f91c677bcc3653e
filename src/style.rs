use vstd::prelude::*;

use crate::color::Color;

verus! {

/// Colours and text attributes for one cell region. `None` leaves the
/// underlying value untouched when the style is painted over another.
#[derive(Debug, Clone, Copy, PartialEq, Eq)]
pub struct Style {
    pub fg: Option<Color>,
    pub bg: Option<Color>,
    pub underlined: bool,
}

impl Style {
    /// A style that changes nothing.
    pub open spec fn empty() -> Style {
        Style { fg: None, bg: None, underlined: false }
    }

    /// Both colours set, no attributes.
    pub open spec fn colored(fg: Color, bg: Color) -> Style {
        Style { fg: Some(fg), bg: Some(bg), underlined: false }
    }

    /// Only the foreground set.
    pub open spec fn fg_only(c: Color) -> Style {
        Style { fg: Some(c), bg: None, underlined: false }
    }

    /// Only the background set.
    pub open spec fn bg_only(c: Color) -> Style {
        Style { fg: None, bg: Some(c), underlined: false }
    }

    /// A style that changes nothing.
    pub fn new() -> (r: Style)
        ensures
            r == Style::empty(),
    {
        Style { fg: None, bg: None, underlined: false }
    }

    /// The same style with the foreground replaced.
    pub fn fg(self, c: Color) -> (r: Style)
        ensures
            r == (Style { fg: Some(c), ..self }),
    {
        Style { fg: Some(c), ..self }
    }

    /// The same style with the background replaced.
    pub fn bg(self, c: Color) -> (r: Style)
        ensures
            r == (Style { bg: Some(c), ..self }),
    {
        Style { bg: Some(c), ..self }
    }

    /// The same style, underlined.
    pub fn underlined(self) -> (r: Style)
        ensures
            r == (Style { underlined: true, ..self }),
    {
        Style { underlined: true, ..self }
    }
}

} // verus!
