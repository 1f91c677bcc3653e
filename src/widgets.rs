use vstd::prelude::*;

use crate::style::Style;

verus! {

/// Which sides of a frame are drawn.
#[derive(Debug, Clone, Copy, PartialEq, Eq)]
pub struct Borders {
    pub top: bool,
    pub bottom: bool,
    pub left: bool,
    pub right: bool,
}

impl Borders {
    pub open spec fn spec_all() -> Borders {
        Borders { top: true, bottom: true, left: true, right: true }
    }

    /// All four sides.
    pub fn all() -> (r: Borders)
        ensures
            r == Borders::spec_all(),
    {
        Borders { top: true, bottom: true, left: true, right: true }
    }
}

/// A frame around a widget.
#[derive(Debug, Clone, Copy, PartialEq, Eq)]
pub struct Block {
    pub borders: Borders,
    pub border_style: Option<Style>,
}

impl Block {
    pub open spec fn spec_bordered() -> Block {
        Block { borders: Borders::spec_all(), border_style: None }
    }

    /// A frame on all four sides in the default style.
    pub fn bordered() -> (r: Block)
        ensures
            r == Block::spec_bordered(),
    {
        Block { borders: Borders::all(), border_style: None }
    }
}

/// Glyphs of a scrollbar.
#[derive(Debug, Clone, Copy, PartialEq, Eq)]
pub struct ScrollSymbols {
    pub track: &'static str,
    pub thumb: &'static str,
    pub begin: &'static str,
    pub end: &'static str,
    pub min: &'static str,
}

/// Scrollbar parts. Glyphs left `None` keep the widget's defaults.
#[derive(Debug, Clone, Copy, PartialEq, Eq)]
pub struct ScrollStyle {
    pub thumb_style: Option<Style>,
    pub track_style: Option<Style>,
    pub min_style: Option<Style>,
    pub begin_style: Option<Style>,
    pub end_style: Option<Style>,
    pub vertical: Option<ScrollSymbols>,
    pub horizontal: Option<ScrollSymbols>,
}

impl ScrollStyle {
    /// A scrollbar whose thumb, track and minimum take `border`, whose arrows
    /// take `arrow`, with default glyphs.
    pub open spec fn spec_framed(border: Style, arrow: Style) -> ScrollStyle {
        ScrollStyle {
            thumb_style: Some(border),
            track_style: Some(border),
            min_style: Some(border),
            begin_style: Some(arrow),
            end_style: Some(arrow),
            vertical: None,
            horizontal: None,
        }
    }

    pub fn framed(border: Style, arrow: Style) -> (r: ScrollStyle)
        ensures
            r == ScrollStyle::spec_framed(border, arrow),
    {
        ScrollStyle {
            thumb_style: Some(border),
            track_style: Some(border),
            min_style: Some(border),
            begin_style: Some(arrow),
            end_style: Some(arrow),
            vertical: None,
            horizontal: None,
        }
    }
}

/// Calendar month view.
#[derive(Debug, Clone, Copy, PartialEq, Eq)]
pub struct CalendarStyle {
    pub style: Style,
    pub title: Option<Style>,
    pub weeknum: Option<Style>,
    pub weekday: Option<Style>,
    pub day: Option<Style>,
    pub select: Option<Style>,
    pub focus: Option<Style>,
}

/// Where a drop shadow falls.
#[derive(Debug, Clone, Copy, PartialEq, Eq)]
pub enum ShadowDirection {
    BottomRight,
    BottomLeft,
    TopRight,
    TopLeft,
}

#[derive(Debug, Clone, Copy, PartialEq, Eq)]
pub struct ShadowStyle {
    pub style: Style,
    pub dir: ShadowDirection,
}

/// Line-number gutter.
#[derive(Debug, Clone, Copy, PartialEq, Eq)]
pub struct LineNumberStyle {
    pub style: Style,
    pub cursor: Option<Style>,
}

/// Text input and text area.
#[derive(Debug, Clone, Copy, PartialEq, Eq)]
pub struct TextStyle {
    pub style: Style,
    pub focus: Option<Style>,
    pub select: Option<Style>,
    pub invalid: Option<Style>,
    pub scroll: Option<ScrollStyle>,
    pub border_style: Option<Style>,
}

#[derive(Debug, Clone, Copy, PartialEq, Eq)]
pub struct ParagraphStyle {
    pub style: Style,
    pub focus: Option<Style>,
    pub scroll: Option<ScrollStyle>,
}

#[derive(Debug, Clone, Copy, PartialEq, Eq)]
pub struct PopupStyle {
    pub style: Style,
    pub scroll: Option<ScrollStyle>,
    pub block: Option<Block>,
}

/// Drop-down choice.
#[derive(Debug, Clone, Copy, PartialEq, Eq)]
pub struct ChoiceStyle {
    pub style: Style,
    pub select: Option<Style>,
    pub focus: Option<Style>,
    pub popup: PopupStyle,
}

#[derive(Debug, Clone, Copy, PartialEq, Eq)]
pub enum RadioLayout {
    Stacked,
    Spaced,
}

#[derive(Debug, Clone, Copy, PartialEq, Eq)]
pub struct RadioStyle {
    pub layout: Option<RadioLayout>,
    pub style: Style,
    pub focus: Option<Style>,
}

#[derive(Debug, Clone, Copy, PartialEq, Eq)]
pub struct CheckboxStyle {
    pub style: Style,
    pub focus: Option<Style>,
}

#[derive(Debug, Clone, Copy, PartialEq, Eq)]
pub struct MenuStyle {
    pub style: Style,
    pub title: Option<Style>,
    pub select: Option<Style>,
    pub focus: Option<Style>,
    pub right: Option<Style>,
    pub disabled: Option<Style>,
    pub highlight: Option<Style>,
    pub popup: PopupStyle,
}

/// Button; `armed_delay_ms` is how long the armed look is held, in
/// milliseconds.
#[derive(Debug, Clone, Copy, PartialEq, Eq)]
pub struct ButtonStyle {
    pub style: Style,
    pub focus: Option<Style>,
    pub armed: Option<Style>,
    pub armed_delay_ms: Option<u64>,
}

#[derive(Debug, Clone, Copy, PartialEq, Eq)]
pub struct TableStyle {
    pub style: Style,
    pub select_row: Option<Style>,
    pub show_row_focus: bool,
    pub focus_style: Option<Style>,
    pub border_style: Option<Style>,
    pub scroll: Option<ScrollStyle>,
}

#[derive(Debug, Clone, Copy, PartialEq, Eq)]
pub struct ListStyle {
    pub style: Style,
    pub select: Option<Style>,
    pub focus: Option<Style>,
    pub scroll: Option<ScrollStyle>,
}

/// Split panes.
#[derive(Debug, Clone, Copy, PartialEq, Eq)]
pub struct SplitStyle {
    pub style: Style,
    pub arrow_style: Option<Style>,
    pub drag_style: Option<Style>,
}

#[derive(Debug, Clone, Copy, PartialEq, Eq)]
pub struct ViewStyle {
    pub scroll: Option<ScrollStyle>,
}

/// Tab bar.
#[derive(Debug, Clone, Copy, PartialEq, Eq)]
pub struct TabbedStyle {
    pub style: Style,
    pub tab: Option<Style>,
    pub select: Option<Style>,
    pub focus: Option<Style>,
}

#[derive(Debug, Clone, Copy, PartialEq, Eq)]
pub struct FileDialogStyle {
    pub style: Style,
    pub list: Option<ListStyle>,
    pub roots: Option<ListStyle>,
    pub text: Option<TextStyle>,
    pub button: Option<ButtonStyle>,
    pub block: Option<Block>,
}

/// Message dialog.
#[derive(Debug, Clone, Copy, PartialEq, Eq)]
pub struct MsgDialogStyle {
    pub style: Style,
    pub button: Option<ButtonStyle>,
}

#[derive(Debug, Clone, Copy, PartialEq, Eq)]
pub struct PagerStyle {
    pub style: Style,
    pub navigation: Option<Style>,
    pub block: Option<Block>,
}

#[derive(Debug, Clone, Copy, PartialEq, Eq)]
pub struct ClipperStyle {
    pub style: Style,
    pub scroll: Option<ScrollStyle>,
}

} // verus!
