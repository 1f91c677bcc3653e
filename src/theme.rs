use vstd::prelude::*;

use crate::color::{rating, true_dark, Color};
use crate::palette::Palette;
use crate::style::Style;
use crate::widgets::{
    Block, Borders, ButtonStyle, CalendarStyle, CheckboxStyle, ChoiceStyle, ClipperStyle,
    FileDialogStyle, LineNumberStyle, ListStyle, MenuStyle, MsgDialogStyle, PagerStyle,
    ParagraphStyle, PopupStyle, RadioLayout, RadioStyle, ScrollStyle, ScrollSymbols,
    ShadowDirection, ShadowStyle, SplitStyle, TabbedStyle, TableStyle, TextStyle, ViewStyle,
};

verus! {

/// A theme that prefers the dark shades of its palette and derives a style
/// for each widget concern from it.
#[derive(Debug, Clone)]
pub struct DarkTheme {
    pub s: Palette,
    pub name: String,
}

impl DarkTheme {
    pub open spec fn spec_focus(self) -> Style {
        self.s.style_on(self.s.primary[2])
    }

    pub open spec fn spec_select(self) -> Style {
        self.s.style_on(self.s.secondary[1])
    }

    pub open spec fn spec_text_input(self) -> Style {
        self.s.style_on(self.s.gray[3])
    }

    pub open spec fn spec_text_focus(self) -> Style {
        self.s.style_on(self.s.primary[0])
    }

    pub open spec fn spec_text_select(self) -> Style {
        self.s.style_on(self.s.secondary[0])
    }

    pub open spec fn spec_container_base(self) -> Style {
        self.s.style_on(self.s.container_color())
    }

    pub open spec fn spec_container_border(self) -> Style {
        Style::colored(self.s.gray[0], self.s.container_color())
    }

    pub open spec fn spec_container_arrow(self) -> Style {
        Style::colored(self.s.secondary[0], self.s.container_color())
    }

    pub open spec fn spec_popup_base(self) -> Style {
        self.s.style_on(self.s.popup_color())
    }

    pub open spec fn spec_popup_border(self) -> Style {
        Style::colored(self.s.gray[0], self.s.popup_color())
    }

    pub open spec fn spec_popup_arrow(self) -> Style {
        Style::colored(self.s.secondary[0], self.s.popup_color())
    }

    pub open spec fn spec_dialog_base(self) -> Style {
        self.s.style_on(self.s.dialog_color())
    }

    pub open spec fn spec_dialog_border(self) -> Style {
        Style::colored(self.s.gray[0], self.s.dialog_color())
    }

    pub open spec fn spec_dialog_arrow(self) -> Style {
        Style::colored(self.s.secondary[2], self.s.dialog_color())
    }

    pub open spec fn spec_status_base(self) -> Style {
        Style::colored(self.s.white[0], self.s.black[0])
    }

    pub open spec fn spec_button_base(self) -> Style {
        self.s.style_on(self.s.gray[2])
    }

    pub open spec fn spec_button_armed(self) -> Style {
        self.s.style_on(self.s.secondary[0])
    }

    pub open spec fn spec_table_header(self) -> Style {
        self.s.style_on(self.s.blue[2])
    }

    pub open spec fn spec_doc_base(self) -> Style {
        self.s.reduced_style_on(self.s.doc_color())
    }

    pub open spec fn spec_doc_border(self) -> Style {
        Style::colored(self.s.gray[0], self.s.doc_color())
    }

    /// Line-number text on a document: shade 0 of gray where dark text suits
    /// the document background, shade 3 where light text does or where the
    /// background has no lightness.
    pub open spec fn doc_line_number_fg(self) -> Color {
        match rating(self.s.doc_color()) {
            Some(false) => self.s.gray[0],
            _ => self.s.gray[3],
        }
    }

    pub open spec fn spec_doc_arrow(self) -> Style {
        Style::colored(self.s.secondary[0], self.s.doc_color())
    }

    /// A theme named `name` over the palette `s`.
    pub fn new(name: String, s: Palette) -> (r: DarkTheme)
        ensures
            r.s == s,
            r.name == name,
    {
        DarkTheme { s, name }
    }

    /// Display name.
    pub fn name(&self) -> (r: &str)
        ensures
            r@ == self.name@,
    {
        self.name.as_str()
    }

    /// This theme prefers dark colours.
    pub fn dark_theme(&self) -> (r: bool)
        ensures
            r,
    {
        true
    }

    /// The underlying palette.
    pub fn s(&self) -> (r: &Palette)
        ensures
            *r == self.s,
    {
        &self.s
    }

    /// Focused widget: shade 2 of the primary ramp.
    pub fn focus(&self) -> (r: Style)
        ensures
            r == self.spec_focus(),
    {
        self.s.style(self.s.primary[2])
    }

    /// Selection: shade 1 of the secondary ramp.
    pub fn select(&self) -> (r: Style)
        ensures
            r == self.spec_select(),
    {
        self.s.style(self.s.secondary[1])
    }

    /// Text field.
    pub fn text_input(&self) -> (r: Style)
        ensures
            r == self.spec_text_input(),
    {
        self.s.style(self.s.gray[3])
    }

    /// Focused text field.
    pub fn text_focus(&self) -> (r: Style)
        ensures
            r == self.spec_text_focus(),
    {
        self.s.style(self.s.primary[0])
    }

    /// Selected text.
    pub fn text_select(&self) -> (r: Style)
        ensures
            r == self.spec_text_select(),
    {
        self.s.style(self.s.secondary[0])
    }

    /// Container background: the darkest black.
    pub fn container_base(&self) -> (r: Style)
        ensures
            r == self.spec_container_base(),
    {
        self.s.style(self.s.black[0])
    }

    /// Container border.
    pub fn container_border(&self) -> (r: Style)
        ensures
            r == self.spec_container_border(),
    {
        Style::new().fg(self.s.gray[0]).bg(self.s.black[0])
    }

    /// Container arrows.
    pub fn container_arrow(&self) -> (r: Style)
        ensures
            r == self.spec_container_arrow(),
    {
        Style::new().fg(self.s.secondary[0]).bg(self.s.black[0])
    }

    /// Popup background: the first white.
    pub fn popup_base(&self) -> (r: Style)
        ensures
            r == self.spec_popup_base(),
    {
        self.s.style(self.s.white[0])
    }

    /// Label text inside a popup.
    pub fn popup_label(&self) -> (r: Style)
        ensures
            r == self.spec_popup_base(),
    {
        self.s.style(self.s.white[0])
    }

    /// Popup border.
    pub fn popup_border(&self) -> (r: Style)
        ensures
            r == self.spec_popup_border(),
    {
        Style::new().fg(self.s.gray[0]).bg(self.s.white[0])
    }

    /// Popup arrows.
    pub fn popup_arrow(&self) -> (r: Style)
        ensures
            r == self.spec_popup_arrow(),
    {
        Style::new().fg(self.s.secondary[0]).bg(self.s.white[0])
    }

    /// Dialog background: shade 1 of gray.
    pub fn dialog_base(&self) -> (r: Style)
        ensures
            r == self.spec_dialog_base(),
    {
        self.s.style(self.s.gray[1])
    }

    /// Label text inside a dialog.
    pub fn dialog_label(&self) -> (r: Style)
        ensures
            r == self.spec_dialog_base(),
    {
        self.s.style(self.s.gray[1])
    }

    /// Dialog border: the neutral gray, as on every other surface.
    pub fn dialog_border(&self) -> (r: Style)
        ensures
            r == self.spec_dialog_border(),
    {
        Style::new().fg(self.s.gray[0]).bg(self.s.gray[1])
    }

    /// Dialog arrows.
    pub fn dialog_arrow(&self) -> (r: Style)
        ensures
            r == self.spec_dialog_arrow(),
    {
        Style::new().fg(self.s.secondary[2]).bg(self.s.gray[1])
    }

    /// Status line.
    pub fn status_base(&self) -> (r: Style)
        ensures
            r == self.spec_status_base(),
    {
        Style::new().fg(self.s.white[0]).bg(self.s.black[0])
    }

    /// Button at rest.
    pub fn button_base(&self) -> (r: Style)
        ensures
            r == self.spec_button_base(),
    {
        self.s.style(self.s.gray[2])
    }

    /// Armed button.
    pub fn button_armed(&self) -> (r: Style)
        ensures
            r == self.spec_button_armed(),
    {
        self.s.style(self.s.secondary[0])
    }

    /// Table header row.
    pub fn table_header(&self) -> (r: Style)
        ensures
            r == self.spec_table_header(),
    {
        self.s.style(self.s.blue[2])
    }

    /// Table footer row.
    pub fn table_footer(&self) -> (r: Style)
        ensures
            r == self.spec_table_header(),
    {
        self.s.style(self.s.blue[2])
    }

    /// Background colour of document views: the true-dark first green.
    pub fn doc_base_color(&self) -> (r: Color)
        ensures
            r == self.s.doc_color(),
    {
        self.s.true_dark_color(self.s.green[0])
    }

    /// Document view: its own background with softer text.
    pub fn doc_base(&self) -> (r: Style)
        ensures
            r == self.spec_doc_base(),
    {
        self.s.reduced_style(self.doc_base_color())
    }

    /// Document border.
    pub fn doc_border(&self) -> (r: Style)
        ensures
            r == self.spec_doc_border(),
    {
        Style::new().fg(self.s.gray[0]).bg(self.doc_base_color())
    }

    /// Document arrows.
    pub fn doc_arrow(&self) -> (r: Style)
        ensures
            r == self.spec_doc_arrow(),
    {
        Style::new().fg(self.s.secondary[0]).bg(self.doc_base_color())
    }
}

/// How long a button keeps its armed look, in milliseconds.
pub const ARMED_DELAY_MS: u64 = 50;

/// Scrollbar glyphs of document views, one set per orientation.
pub open spec fn doc_symbols(vertical: bool) -> ScrollSymbols {
    if vertical {
        ScrollSymbols { track: "\u{2502}", thumb: "\u{2588}", begin: "\u{2191}", end: "\u{2193}", min: " " }
    } else {
        ScrollSymbols { track: "\u{2500}", thumb: "\u{2588}", begin: "\u{2190}", end: "\u{2192}", min: " " }
    }
}

impl DarkTheme {
    pub open spec fn spec_scroll_style(self) -> ScrollStyle {
        ScrollStyle::spec_framed(self.spec_container_border(), self.spec_container_arrow())
    }

    pub open spec fn spec_popup_scroll_style(self) -> ScrollStyle {
        ScrollStyle::spec_framed(self.spec_popup_border(), self.spec_popup_arrow())
    }

    pub open spec fn spec_dialog_scroll_style(self) -> ScrollStyle {
        ScrollStyle::spec_framed(self.spec_dialog_border(), self.spec_dialog_arrow())
    }

    pub open spec fn spec_doc_scroll_style(self) -> ScrollStyle {
        ScrollStyle {
            vertical: Some(doc_symbols(true)),
            horizontal: Some(doc_symbols(false)),
            ..ScrollStyle::spec_framed(self.spec_doc_border(), self.spec_doc_arrow())
        }
    }

    /// Lists sit on the container background with softer text.
    pub open spec fn spec_list_style(self) -> ListStyle {
        ListStyle {
            style: self.s.reduced_style_on(self.s.container_color()),
            select: Some(self.spec_select()),
            focus: Some(self.spec_focus()),
            scroll: Some(self.spec_scroll_style()),
        }
    }

    pub open spec fn spec_text_style(self) -> TextStyle {
        TextStyle {
            style: self.spec_text_input(),
            focus: Some(self.spec_text_focus()),
            select: Some(self.spec_text_select()),
            invalid: Some(Style::bg_only(self.s.red[3])),
            scroll: None,
            border_style: None,
        }
    }

    pub open spec fn spec_button_style(self) -> ButtonStyle {
        ButtonStyle {
            style: self.spec_button_base(),
            focus: Some(self.spec_focus()),
            armed: Some(self.spec_select()),
            armed_delay_ms: Some(ARMED_DELAY_MS),
        }
    }

    /// Popup of a menu: the status line's colours in a full frame.
    pub open spec fn spec_menu_popup(self) -> PopupStyle {
        PopupStyle { style: self.spec_status_base(), scroll: None, block: Some(Block::spec_bordered()) }
    }

    /// Calendar month.
    pub fn month_style(&self) -> (r: CalendarStyle)
        ensures
            r == (CalendarStyle {
                style: self.s.style_on(self.s.black[2]),
                title: None,
                weeknum: Some(Style::fg_only(self.s.limegreen[2])),
                weekday: Some(Style::fg_only(self.s.limegreen[2])),
                day: None,
                select: Some(self.spec_select()),
                focus: Some(self.spec_focus()),
            }),
    {
        CalendarStyle {
            style: self.s.style(self.s.black[2]),
            title: None,
            weeknum: Some(Style::new().fg(self.s.limegreen[2])),
            weekday: Some(Style::new().fg(self.s.limegreen[2])),
            day: None,
            select: Some(self.select()),
            focus: Some(self.focus()),
        }
    }

    /// Drop shadow to the bottom right in the container colour.
    pub fn shadow_style(&self) -> (r: ShadowStyle)
        ensures
            r == (ShadowStyle {
                style: Style::bg_only(self.s.black[0]),
                dir: ShadowDirection::BottomRight,
            }),
    {
        ShadowStyle { style: Style::new().bg(self.s.black[0]), dir: ShadowDirection::BottomRight }
    }

    /// Line numbers beside a container.
    pub fn line_nr_style(&self) -> (r: LineNumberStyle)
        ensures
            r == (LineNumberStyle {
                style: Style { fg: Some(self.s.gray[1]), ..self.spec_container_base() },
                cursor: Some(self.spec_text_select()),
            }),
    {
        LineNumberStyle {
            style: self.container_base().fg(self.s.gray[1]),
            cursor: Some(self.text_select()),
        }
    }

    /// Text area on a container.
    pub fn textarea_style(&self) -> (r: TextStyle)
        ensures
            r == (TextStyle {
                style: self.spec_container_base(),
                focus: Some(self.spec_focus()),
                select: Some(self.spec_text_select()),
                invalid: None,
                scroll: Some(self.spec_scroll_style()),
                border_style: Some(self.spec_container_border()),
            }),
    {
        TextStyle {
            style: self.container_base(),
            focus: Some(self.focus()),
            select: Some(self.text_select()),
            invalid: None,
            scroll: Some(self.scroll_style()),
            border_style: Some(self.container_border()),
        }
    }

    /// Text input; invalid input shows on the strongest red.
    pub fn text_style(&self) -> (r: TextStyle)
        ensures
            r == self.spec_text_style(),
    {
        TextStyle {
            style: self.text_input(),
            focus: Some(self.text_focus()),
            select: Some(self.text_select()),
            invalid: Some(Style::new().bg(self.s.red[3])),
            scroll: None,
            border_style: None,
        }
    }

    /// Paragraph on a container.
    pub fn paragraph_style(&self) -> (r: ParagraphStyle)
        ensures
            r == (ParagraphStyle {
                style: self.spec_container_base(),
                focus: Some(self.spec_focus()),
                scroll: Some(self.spec_scroll_style()),
            }),
    {
        ParagraphStyle {
            style: self.container_base(),
            focus: Some(self.focus()),
            scroll: Some(self.scroll_style()),
        }
    }

    /// Choice field with a popup list framed on the left.
    pub fn choice_style(&self) -> (r: ChoiceStyle)
        ensures
            r == (ChoiceStyle {
                style: self.spec_text_input(),
                select: Some(self.spec_text_focus()),
                focus: Some(self.spec_text_focus()),
                popup: PopupStyle {
                    style: self.spec_popup_base(),
                    scroll: Some(self.spec_popup_scroll_style()),
                    block: Some(Block {
                        borders: Borders { top: false, bottom: false, left: true, right: false },
                        border_style: Some(self.spec_popup_arrow()),
                    }),
                },
            }),
    {
        ChoiceStyle {
            style: self.text_input(),
            select: Some(self.text_focus()),
            focus: Some(self.text_focus()),
            popup: PopupStyle {
                style: self.popup_base(),
                scroll: Some(self.popup_scroll_style()),
                block: Some(Block {
                    borders: Borders { top: false, bottom: false, left: true, right: false },
                    border_style: Some(self.popup_arrow()),
                }),
            },
        }
    }

    /// Radio buttons, stacked.
    pub fn radio_style(&self) -> (r: RadioStyle)
        ensures
            r == (RadioStyle {
                layout: Some(RadioLayout::Stacked),
                style: self.spec_text_input(),
                focus: Some(self.spec_text_focus()),
            }),
    {
        RadioStyle {
            layout: Some(RadioLayout::Stacked),
            style: self.text_input(),
            focus: Some(self.text_focus()),
        }
    }

    /// Checkbox.
    pub fn checkbox_style(&self) -> (r: CheckboxStyle)
        ensures
            r == (CheckboxStyle { style: self.spec_text_input(), focus: Some(self.spec_text_focus()) }),
    {
        CheckboxStyle { style: self.text_input(), focus: Some(self.text_focus()) }
    }

    /// Menu bar on the status line's colours.
    pub fn menu_style(&self) -> (r: MenuStyle)
        ensures
            r == (MenuStyle {
                style: self.spec_status_base(),
                title: Some(Style::colored(self.s.black[0], self.s.yellow[0])),
                select: Some(self.spec_select()),
                focus: Some(self.spec_focus()),
                right: Some(Style::fg_only(self.s.bluegreen[0])),
                disabled: Some(Style::fg_only(self.s.gray[0])),
                highlight: Some(Style { underlined: true, ..Style::empty() }),
                popup: self.spec_menu_popup(),
            }),
    {
        MenuStyle {
            style: self.status_base(),
            title: Some(Style::new().fg(self.s.black[0]).bg(self.s.yellow[0])),
            select: Some(self.select()),
            focus: Some(self.focus()),
            right: Some(Style::new().fg(self.s.bluegreen[0])),
            disabled: Some(Style::new().fg(self.s.gray[0])),
            highlight: Some(Style::new().underlined()),
            popup: PopupStyle {
                style: self.status_base(),
                scroll: None,
                block: Some(Block::bordered()),
            },
        }
    }

    /// Menu bar in its hidden variant: muted text throughout, and a title on
    /// the true-dark strongest red.
    pub fn menu_style_hidden(&self) -> (r: MenuStyle)
        ensures
            ({
                let muted = Style { fg: Some(self.s.gray[0]), ..self.spec_status_base() };
                r == (MenuStyle {
                    style: muted,
                    title: Some(
                        Style::colored(self.s.black[0], true_dark(self.s.red[3])),
                    ),
                    select: Some(muted),
                    focus: Some(muted),
                    right: Some(Style::fg_only(self.s.bluegreen[0])),
                    disabled: Some(Style::fg_only(self.s.gray[0])),
                    highlight: Some(Style { underlined: true, ..Style::empty() }),
                    popup: self.spec_menu_popup(),
                })
            }),
    {
        let mut style = self.status_base();
        style = style.fg(self.s.gray[0]);
        MenuStyle {
            style,
            title: Some(
                Style::new().fg(self.s.black[0]).bg(self.s.true_dark_color(self.s.red[3])),
            ),
            select: Some(style),
            focus: Some(style),
            right: Some(Style::new().fg(self.s.bluegreen[0])),
            disabled: Some(Style::new().fg(self.s.gray[0])),
            highlight: Some(Style::new().underlined()),
            popup: PopupStyle {
                style: self.status_base(),
                scroll: None,
                block: Some(Block::bordered()),
            },
        }
    }

    /// Button: armed like a selection, for a fixed delay.
    pub fn button_style(&self) -> (r: ButtonStyle)
        ensures
            r == self.spec_button_style(),
    {
        ButtonStyle {
            style: self.button_base(),
            focus: Some(self.focus()),
            armed: Some(self.select()),
            armed_delay_ms: Some(ARMED_DELAY_MS),
        }
    }

    /// Table on a container.
    pub fn table_style(&self) -> (r: TableStyle)
        ensures
            r == (TableStyle {
                style: self.spec_container_base(),
                select_row: Some(self.spec_select()),
                show_row_focus: true,
                focus_style: Some(self.spec_focus()),
                border_style: Some(self.spec_container_border()),
                scroll: Some(self.spec_scroll_style()),
            }),
    {
        TableStyle {
            style: self.container_base(),
            select_row: Some(self.select()),
            show_row_focus: true,
            focus_style: Some(self.focus()),
            border_style: Some(self.container_border()),
            scroll: Some(self.scroll_style()),
        }
    }

    /// List on a container, with softer text.
    pub fn list_style(&self) -> (r: ListStyle)
        ensures
            r == self.spec_list_style(),
    {
        let base = self.container_base();
        let fg = self.s.reduced_text_color(self.s.black[0]);
        ListStyle {
            style: base.fg(fg),
            select: Some(self.select()),
            focus: Some(self.focus()),
            scroll: Some(self.scroll_style()),
        }
    }

    /// Scrollbar of containers.
    pub fn scroll_style(&self) -> (r: ScrollStyle)
        ensures
            r == self.spec_scroll_style(),
    {
        ScrollStyle::framed(self.container_border(), self.container_arrow())
    }

    /// Scrollbar of popups.
    pub fn popup_scroll_style(&self) -> (r: ScrollStyle)
        ensures
            r == self.spec_popup_scroll_style(),
    {
        ScrollStyle::framed(self.popup_border(), self.popup_arrow())
    }

    /// Scrollbar of dialogs.
    pub fn dialog_scroll_style(&self) -> (r: ScrollStyle)
        ensures
            r == self.spec_dialog_scroll_style(),
    {
        ScrollStyle::framed(self.dialog_border(), self.dialog_arrow())
    }

    /// Split panes: divider in the container border, dragged in focus.
    pub fn split_style(&self) -> (r: SplitStyle)
        ensures
            r == (SplitStyle {
                style: self.spec_container_border(),
                arrow_style: Some(self.spec_container_arrow()),
                drag_style: Some(self.spec_focus()),
            }),
    {
        SplitStyle {
            style: self.container_border(),
            arrow_style: Some(self.container_arrow()),
            drag_style: Some(self.focus()),
        }
    }

    /// Scrolled view.
    pub fn view_style(&self) -> (r: ViewStyle)
        ensures
            r == (ViewStyle { scroll: Some(self.spec_scroll_style()) }),
    {
        ViewStyle { scroll: Some(self.scroll_style()) }
    }

    /// Tab bar on a container.
    pub fn tabbed_style(&self) -> (r: TabbedStyle)
        ensures
            r == (TabbedStyle {
                style: self.spec_container_border(),
                tab: Some(self.s.style_on(self.s.gray[1])),
                select: Some(self.s.style_on(self.s.gray[3])),
                focus: Some(self.spec_focus()),
            }),
    {
        TabbedStyle {
            style: self.container_border(),
            tab: Some(self.s.gray(1)),
            select: Some(self.s.gray(3)),
            focus: Some(self.focus()),
        }
    }

    /// Status line with three indicator fields after the main one, on the
    /// strongest to weaker blues, with text chosen against the first white.
    pub fn statusline_style(&self) -> (r: Vec<Style>)
        ensures
            r@ == seq![
                self.spec_status_base(),
                Style::colored(self.s.text_for(self.s.white[0]), self.s.blue[3]),
                Style::colored(self.s.text_for(self.s.white[0]), self.s.blue[2]),
                Style::colored(self.s.text_for(self.s.white[0]), self.s.blue[1]),
            ],
    {
        let fg = self.s.text_color(self.s.white[0]);
        let r = vec![
            self.status_base(),
            Style::new().fg(fg).bg(self.s.blue[3]),
            Style::new().fg(fg).bg(self.s.blue[2]),
            Style::new().fg(fg).bg(self.s.blue[1]),
        ];
        r
    }

    /// File dialog: a dialog with lists, a text input and buttons.
    pub fn file_dialog_style(&self) -> (r: FileDialogStyle)
        ensures
            r == (FileDialogStyle {
                style: self.spec_dialog_base(),
                list: Some(self.spec_list_style()),
                roots: Some(ListStyle { style: self.spec_dialog_base(), ..self.spec_list_style() }),
                text: Some(self.spec_text_style()),
                button: Some(self.spec_button_style()),
                block: Some(Block::spec_bordered()),
            }),
    {
        let list = self.list_style();
        FileDialogStyle {
            style: self.dialog_base(),
            list: Some(list),
            roots: Some(ListStyle { style: self.dialog_base(), ..list }),
            text: Some(self.text_style()),
            button: Some(self.button_style()),
            block: Some(Block::bordered()),
        }
    }

    /// Message dialog.
    pub fn msg_dialog_style(&self) -> (r: MsgDialogStyle)
        ensures
            r == (MsgDialogStyle {
                style: self.spec_dialog_base(),
                button: Some(self.spec_button_style()),
            }),
    {
        MsgDialogStyle { style: self.dialog_base(), button: Some(self.button_style()) }
    }

    /// Pager, framed above and below.
    pub fn pager_style(&self) -> (r: PagerStyle)
        ensures
            r == (PagerStyle {
                style: self.spec_container_base(),
                navigation: Some(self.spec_container_arrow()),
                block: Some(Block {
                    borders: Borders { top: true, bottom: true, left: false, right: false },
                    border_style: Some(self.spec_container_border()),
                }),
            }),
    {
        PagerStyle {
            style: self.container_base(),
            navigation: Some(self.container_arrow()),
            block: Some(Block {
                borders: Borders { top: true, bottom: true, left: false, right: false },
                border_style: Some(self.container_border()),
            }),
        }
    }

    /// Clipper.
    pub fn clipper_style(&self) -> (r: ClipperStyle)
        ensures
            r == (ClipperStyle {
                style: self.spec_container_base(),
                scroll: Some(self.spec_scroll_style()),
            }),
    {
        ClipperStyle { style: self.container_base(), scroll: Some(self.scroll_style()) }
    }

    /// Choice field for tool bars: on the container, selected in focus, with
    /// a popup framed on the left in the container border.
    pub fn choice_style_tools(&self) -> (r: ChoiceStyle)
        ensures
            r == (ChoiceStyle {
                style: self.spec_container_base(),
                select: Some(self.spec_focus()),
                focus: Some(self.spec_focus()),
                popup: PopupStyle {
                    style: self.spec_container_base(),
                    scroll: Some(self.spec_scroll_style()),
                    block: Some(Block {
                        borders: Borders { top: false, bottom: false, left: true, right: false },
                        border_style: Some(self.spec_container_border()),
                    }),
                },
            }),
    {
        ChoiceStyle {
            style: self.container_base(),
            select: Some(self.focus()),
            focus: Some(self.focus()),
            popup: PopupStyle {
                style: self.container_base(),
                scroll: Some(self.scroll_style()),
                block: Some(Block {
                    borders: Borders { top: false, bottom: false, left: true, right: false },
                    border_style: Some(self.container_border()),
                }),
            },
        }
    }

    /// Scrollbar of document views, with line glyphs.
    pub fn doc_scroll_style(&self) -> (r: ScrollStyle)
        ensures
            r == self.spec_doc_scroll_style(),
    {
        let vertical = ScrollSymbols {
            track: "\u{2502}",
            thumb: "\u{2588}",
            begin: "\u{2191}",
            end: "\u{2193}",
            min: " ",
        };
        let horizontal = ScrollSymbols {
            track: "\u{2500}",
            thumb: "\u{2588}",
            begin: "\u{2190}",
            end: "\u{2192}",
            min: " ",
        };
        ScrollStyle {
            vertical: Some(vertical),
            horizontal: Some(horizontal),
            ..ScrollStyle::framed(self.doc_border(), self.doc_arrow())
        }
    }

    /// Line numbers beside a document: gray text that suits the document
    /// background, shade 3 where light text is preferred or the background
    /// has no lightness, shade 0 where dark text is.
    pub fn line_nr_style_doc(&self) -> (r: LineNumberStyle)
        ensures
            r == (LineNumberStyle {
                style: Style { fg: Some(self.doc_line_number_fg()), ..self.spec_doc_base() },
                cursor: Some(self.spec_text_select()),
            }),
    {
        let base = self.doc_base();
        let fg = match self.s.rate_text_color(self.doc_base_color()) {
            None => self.s.gray[3],
            Some(true) => self.s.gray[3],
            Some(false) => self.s.gray[0],
        };
        LineNumberStyle { style: base.fg(fg), cursor: Some(self.text_select()) }
    }

    /// Text area of a document view.
    pub fn textarea_style_doc(&self) -> (r: TextStyle)
        ensures
            r == (TextStyle {
                style: self.spec_doc_base(),
                focus: Some(self.spec_focus()),
                select: Some(self.spec_text_select()),
                invalid: None,
                scroll: Some(self.spec_doc_scroll_style()),
                border_style: Some(self.spec_doc_border()),
            }),
    {
        TextStyle {
            style: self.doc_base(),
            focus: Some(self.focus()),
            select: Some(self.text_select()),
            invalid: None,
            scroll: Some(self.doc_scroll_style()),
            border_style: Some(self.doc_border()),
        }
    }

    /// Tab bar of a document view.
    pub fn tabbed_style_doc(&self) -> (r: TabbedStyle)
        ensures
            r == (TabbedStyle {
                style: self.spec_doc_border(),
                tab: Some(self.s.style_on(self.s.gray[1])),
                select: Some(self.s.style_on(self.s.gray[3])),
                focus: Some(self.spec_focus()),
            }),
    {
        TabbedStyle {
            style: self.doc_border(),
            tab: Some(self.s.gray(1)),
            select: Some(self.s.gray(3)),
            focus: Some(self.focus()),
        }
    }
}

/// The plain-style concerns a theme answers for.
#[derive(Debug, Clone, Copy, PartialEq, Eq)]
pub enum Concern {
    Focus,
    Select,
    TextInput,
    TextFocus,
    TextSelect,
    ContainerBase,
    ContainerBorder,
    ContainerArrow,
    PopupBase,
    PopupLabel,
    PopupBorder,
    PopupArrow,
    DialogBase,
    DialogLabel,
    DialogBorder,
    DialogArrow,
    StatusBase,
    ButtonBase,
    ButtonArmed,
    TableHeader,
    TableFooter,
    DocBase,
    DocBorder,
    DocArrow,
}

impl DarkTheme {
    pub open spec fn style_of(self, c: Concern) -> Style {
        match c {
            Concern::Focus => self.spec_focus(),
            Concern::Select => self.spec_select(),
            Concern::TextInput => self.spec_text_input(),
            Concern::TextFocus => self.spec_text_focus(),
            Concern::TextSelect => self.spec_text_select(),
            Concern::ContainerBase => self.spec_container_base(),
            Concern::ContainerBorder => self.spec_container_border(),
            Concern::ContainerArrow => self.spec_container_arrow(),
            Concern::PopupBase | Concern::PopupLabel => self.spec_popup_base(),
            Concern::PopupBorder => self.spec_popup_border(),
            Concern::PopupArrow => self.spec_popup_arrow(),
            Concern::DialogBase | Concern::DialogLabel => self.spec_dialog_base(),
            Concern::DialogBorder => self.spec_dialog_border(),
            Concern::DialogArrow => self.spec_dialog_arrow(),
            Concern::StatusBase => self.spec_status_base(),
            Concern::ButtonBase => self.spec_button_base(),
            Concern::ButtonArmed => self.spec_button_armed(),
            Concern::TableHeader | Concern::TableFooter => self.spec_table_header(),
            Concern::DocBase => self.spec_doc_base(),
            Concern::DocBorder => self.spec_doc_border(),
            Concern::DocArrow => self.spec_doc_arrow(),
        }
    }

    /// The style of one concern.
    pub fn style_for(&self, c: Concern) -> (r: Style)
        ensures
            r == self.style_of(c),
    {
        match c {
            Concern::Focus => self.focus(),
            Concern::Select => self.select(),
            Concern::TextInput => self.text_input(),
            Concern::TextFocus => self.text_focus(),
            Concern::TextSelect => self.text_select(),
            Concern::ContainerBase => self.container_base(),
            Concern::ContainerBorder => self.container_border(),
            Concern::ContainerArrow => self.container_arrow(),
            Concern::PopupBase => self.popup_base(),
            Concern::PopupLabel => self.popup_label(),
            Concern::PopupBorder => self.popup_border(),
            Concern::PopupArrow => self.popup_arrow(),
            Concern::DialogBase => self.dialog_base(),
            Concern::DialogLabel => self.dialog_label(),
            Concern::DialogBorder => self.dialog_border(),
            Concern::DialogArrow => self.dialog_arrow(),
            Concern::StatusBase => self.status_base(),
            Concern::ButtonBase => self.button_base(),
            Concern::ButtonArmed => self.button_armed(),
            Concern::TableHeader => self.table_header(),
            Concern::TableFooter => self.table_footer(),
            Concern::DocBase => self.doc_base(),
            Concern::DocBorder => self.doc_border(),
            Concern::DocArrow => self.doc_arrow(),
        }
    }
}

/// A concern's style depends on the palette alone: two themes over the same
/// palette (whatever their names) give the same style, so asking twice gives
/// the same answer.
pub proof fn lemma_style_for_deterministic(a: DarkTheme, b: DarkTheme, c: Concern)
    requires
        a.s == b.s,
    ensures
        a.style_of(c) == b.style_of(c),
{
}

/// Every concern of every theme has a style with both colours set.
pub proof fn lemma_every_concern_styled(t: DarkTheme, c: Concern)
    ensures
        t.style_of(c).fg.is_some(),
        t.style_of(c).bg.is_some(),
{
}

/// A background without lightness gets no light/dark rating and unset text;
/// the document's line numbers then fall back to shade 3 of gray. The
/// document background itself, being darkened RGB, always has a rating.
pub proof fn lemma_undefined_lightness_fallback(t: DarkTheme)
    ensures
        rating(Color::Reset).is_none(),
        t.s.text_for(Color::Reset) == Color::Reset,
        t.s.reduced_text_for(Color::Reset) == Color::Reset,
        rating(t.s.doc_color()).is_none() ==> t.doc_line_number_fg() == t.s.gray[3],
        rating(t.s.doc_color()).is_some(),
{
}

} // verus!
