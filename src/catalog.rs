use vstd::prelude::*;

use crate::color::Color;
use crate::palette::Palette;
use crate::theme::DarkTheme;

verus! {

/// Number of palettes rat_theme ships.
pub const SHIPPED_COUNT: usize = 10;

/// The palette at `index` of rat_theme's shipped list.
pub uninterp spec fn shipped_palette(index: int) -> Palette;

/// Relies on rat_theme's `color_schemes`: the ten shipped palettes, in the
/// order Imperial, Radium, Tundra, Monochrome, Monekai, Oxocarbon, VSCodeDark,
/// Ocean, Base16, Base16Relaxed; the same ones on every call. In each of them
/// (every shade there is an RGB colour) the container, popup, dialog and
/// document backgrounds differ, and focus (`primary[2]`) differs from
/// selection (`secondary[1]`). Focus and selection also differ from every
/// surface, except in Oxocarbon and VSCodeDark, whose secondary ramp is their
/// gray ramp, so that selection there takes the dialog background.
#[verifier::external_body]
fn shipped_palettes() -> (r: Vec<Palette>)
    ensures
        r@.len() == SHIPPED_COUNT,
        forall|i: int| 0 <= i < SHIPPED_COUNT ==> r@[i] == shipped_palette(i),
        forall|i: int| 0 <= i < SHIPPED_COUNT ==> #[trigger] r@[i].is_valid(),
        forall|i: int|
            0 <= i < SHIPPED_COUNT && i != 5 && i != 6 ==> #[trigger] r@[i].emphasis_apart_from_surfaces(),
        r@[5].secondary == r@[5].gray && r@[6].secondary == r@[6].gray,
{
    let rgb = |c: ratatui::style::Color| match c {
        ratatui::style::Color::Rgb(r, g, b) => Color::Rgb(r, g, b),
        _ => Color::Reset,
    };
    let m = |a: [ratatui::style::Color; 4]| a.map(rgb);
    rat_theme::color_schemes().into_iter().map(|(_, s)| Palette {
        primary: m(s.primary), secondary: m(s.secondary), white: m(s.white), black: m(s.black),
        gray: m(s.gray), red: m(s.red), yellow: m(s.yellow), limegreen: m(s.limegreen),
        green: m(s.green), bluegreen: m(s.bluegreen), blue: m(s.blue),
    }).collect()
}

/// Display names of the shipped themes, in catalog order.
pub open spec fn shipped_name(i: int) -> Seq<char> {
    if i == 0 { "Imperial"@ }
    else if i == 1 { "Radium"@ }
    else if i == 2 { "Tundra"@ }
    else if i == 3 { "Monochrome"@ }
    else if i == 4 { "Monekai"@ }
    else if i == 5 { "Oxocarbon"@ }
    else if i == 6 { "VSCodeDark"@ }
    else if i == 7 { "Ocean"@ }
    else if i == 8 { "Base16"@ }
    else { "Base16Relaxed"@ }
}

/// A dark theme for every shipped palette, named as in `shipped_name`.
pub fn dark_themes() -> (r: Vec<DarkTheme>)
    ensures
        r@.len() == SHIPPED_COUNT,
        forall|i: int| 0 <= i < r@.len() ==> r@[i].name@ == shipped_name(i),
        forall|i: int| 0 <= i < r@.len() ==> r@[i].s == shipped_palette(i),
        forall|i: int| 0 <= i < r@.len() ==> #[trigger] r@[i].s.is_valid(),
        forall|i: int|
            0 <= i < r@.len() && i != 5 && i != 6 ==> #[trigger] r@[i].s.emphasis_apart_from_surfaces(),
        r@[5].s.secondary == r@[5].s.gray && r@[6].s.secondary == r@[6].s.gray,
{
    let p = shipped_palettes();
    let names: [&str; SHIPPED_COUNT] = [
        "Imperial", "Radium", "Tundra", "Monochrome", "Monekai", "Oxocarbon", "VSCodeDark",
        "Ocean", "Base16", "Base16Relaxed",
    ];
    proof {
        reveal_strlit("Imperial");
        reveal_strlit("Radium");
        reveal_strlit("Tundra");
        reveal_strlit("Monochrome");
        reveal_strlit("Monekai");
        reveal_strlit("Oxocarbon");
        reveal_strlit("VSCodeDark");
        reveal_strlit("Ocean");
        reveal_strlit("Base16");
        reveal_strlit("Base16Relaxed");
    }
    let mut r: Vec<DarkTheme> = Vec::new();
    let mut i: usize = 0;
    while i < SHIPPED_COUNT
        invariant
            i <= SHIPPED_COUNT,
            p@.len() == SHIPPED_COUNT,
            r@.len() == i,
            names@ == seq![
                "Imperial", "Radium", "Tundra", "Monochrome", "Monekai", "Oxocarbon", "VSCodeDark",
                "Ocean", "Base16", "Base16Relaxed",
            ],
            forall|j: int| 0 <= j < i ==> r@[j].name@ == shipped_name(j),
            forall|j: int| 0 <= j < SHIPPED_COUNT ==> p@[j] == shipped_palette(j),
            forall|j: int| 0 <= j < SHIPPED_COUNT ==> #[trigger] p@[j].is_valid(),
            forall|j: int| 0 <= j < i ==> r@[j].s == shipped_palette(j),
            forall|j: int| 0 <= j < i ==> #[trigger] r@[j].s.is_valid(),
            forall|j: int|
                0 <= j < SHIPPED_COUNT && j != 5 && j != 6 ==> #[trigger] p@[j].emphasis_apart_from_surfaces(),
            p@[5].secondary == p@[5].gray && p@[6].secondary == p@[6].gray,
            forall|j: int| 0 <= j < i ==> r@[j].s == p@[j],
        decreases SHIPPED_COUNT - i,
    {
        assert(p@[i as int].is_valid());
        assert(i != 5 && i != 6 ==> p@[i as int].emphasis_apart_from_surfaces());
        r.push(DarkTheme::new(names[i].to_string(), p[i]));
        i += 1;
    }
    assert(forall|j: int|
        0 <= j < SHIPPED_COUNT && j != 5 && j != 6 ==> #[trigger] r@[j].s.emphasis_apart_from_surfaces()) by {
        assert forall|j: int| 0 <= j < SHIPPED_COUNT && j != 5 && j != 6 implies #[trigger] r@[j].s.emphasis_apart_from_surfaces() by {
            assert(r@[j].s == p@[j]);
            assert(p@[j].emphasis_apart_from_surfaces());
        }
    }
    assert(r@[5].s == p@[5] && r@[6].s == p@[6]);
    r
}

/// Why a list of themes cannot form a catalog.
#[derive(Debug, Clone, Copy, PartialEq, Eq)]
pub enum PaletteError {
    /// The theme at `index` has two surfaces with the same background.
    IndistinctSurfaces { index: usize },
    /// The theme at `index` shows focus and selection in the same colour.
    FocusLikeSelection { index: usize },
}

/// An ordered list of themes whose palettes all keep their surfaces apart.
#[derive(Debug, Clone)]
pub struct ThemeCatalog {
    themes: Vec<DarkTheme>,
}

impl View for ThemeCatalog {
    type V = Seq<DarkTheme>;

    closed spec fn view(&self) -> Seq<DarkTheme> {
        self.themes@
    }
}

/// Every theme's palette passes `Palette::is_valid`.
pub open spec fn all_valid(ts: Seq<DarkTheme>) -> bool {
    forall|i: int| 0 <= i < ts.len() ==> ts[i].s.is_valid()
}

/// Position of the first theme called `name`, if any.
pub open spec fn first_named(ts: Seq<DarkTheme>, name: Seq<char>, i: int) -> bool {
    0 <= i < ts.len() && ts[i].name@ == name && forall|j: int| 0 <= j < i ==> ts[j].name@ != name
}

impl ThemeCatalog {
    pub open spec fn wf(&self) -> bool {
        all_valid(self@)
    }

    /// Builds a catalog, checking each palette once. Fails on the first theme
    /// whose surfaces cannot be told apart.
    pub fn new(themes: Vec<DarkTheme>) -> (r: Result<ThemeCatalog, PaletteError>)
        ensures
            match r {
                Ok(c) => c.wf() && c@ == themes@,
                Err(PaletteError::IndistinctSurfaces { index }) => index < themes@.len()
                    && !themes@[index as int].s.surfaces_distinct() && all_valid(
                    themes@.take(index as int),
                ),
                Err(PaletteError::FocusLikeSelection { index }) => index < themes@.len()
                    && themes@[index as int].s.surfaces_distinct()
                    && !themes@[index as int].s.emphasis_distinct() && all_valid(
                    themes@.take(index as int),
                ),
            },
            r.is_ok() <==> all_valid(themes@),
    {
        let mut i: usize = 0;
        while i < themes.len()
            invariant
                i <= themes@.len(),
                all_valid(themes@.take(i as int)),
            decreases themes@.len() - i,
        {
            if !themes[i].s.has_distinct_surfaces() {
                return Err(PaletteError::IndistinctSurfaces { index: i });
            }
            if themes[i].s.primary[2] == themes[i].s.secondary[1] {
                return Err(PaletteError::FocusLikeSelection { index: i });
            }
            assert(themes@.take(i as int + 1) == themes@.take(i as int).push(themes@[i as int]));
            i += 1;
        }
        assert(themes@.take(i as int) == themes@);
        Ok(ThemeCatalog { themes })
    }

    /// The shipped themes, checked; every shipped palette passes.
    pub fn shipped() -> (r: Result<ThemeCatalog, PaletteError>)
        ensures
            r.is_ok(),
            r matches Ok(c) ==> c@.len() == SHIPPED_COUNT && c.wf() && (forall|i: int|
                0 <= i < SHIPPED_COUNT ==> c@[i].name@ == shipped_name(i) && c@[i].s
                    == shipped_palette(i)),
    {
        ThemeCatalog::new(dark_themes())
    }

    /// The themes in catalog order.
    pub fn themes(&self) -> (r: &Vec<DarkTheme>)
        ensures
            r@ == self@,
    {
        &self.themes
    }

    /// The first theme whose name is exactly `name` (case matters), or `None`.
    pub fn select_theme(&self, name: &String) -> (r: Option<&DarkTheme>)
        ensures
            match r {
                Some(t) => exists|i: int| first_named(self@, name@, i) && *t == self@[i],
                None => forall|i: int| 0 <= i < self@.len() ==> self@[i].name@ != name@,
            },
    {
        let mut i: usize = 0;
        while i < self.themes.len()
            invariant
                i <= self@.len(),
                forall|j: int| 0 <= j < i ==> self@[j].name@ != name@,
            decreases self@.len() - i,
        {
            if self.themes[i].name == *name {
                assert(first_named(self@, name@, i as int));
                return Some(&self.themes[i]);
            }
            i += 1;
        }
        None
    }
}

/// Every theme of a well-formed catalog keeps its container, popup, dialog and
/// document backgrounds pairwise distinct, and its focus and selection apart.
pub proof fn lemma_catalog_surfaces_distinct(c: ThemeCatalog, i: int)
    requires
        c.wf(),
        0 <= i < c@.len(),
    ensures
        ({
            let p = c@[i].s;
            let (a, b, d, o) = (p.container_color(), p.popup_color(), p.dialog_color(), p.doc_color());
            a != b && a != d && a != o && b != d && b != o && d != o && p.primary[2]
                != p.secondary[1]
        }),
{
}

} // verus!
