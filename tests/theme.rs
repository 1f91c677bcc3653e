use mdtheme::catalog::{dark_themes, PaletteError, ThemeCatalog};
use mdtheme::color::Color;
use mdtheme::palette::Palette;
use mdtheme::style::Style;
use mdtheme::theme::{Concern, DarkTheme};
use mdtheme::widgets::ShadowDirection;

fn ramp(a: (u8, u8, u8), b: (u8, u8, u8), c: (u8, u8, u8), d: (u8, u8, u8)) -> [Color; 4] {
    [
        Color::Rgb(a.0, a.1, a.2),
        Color::Rgb(b.0, b.1, b.2),
        Color::Rgb(c.0, c.1, c.2),
        Color::Rgb(d.0, d.1, d.2),
    ]
}

fn flat(v: u8) -> [Color; 4] {
    ramp((v, v, v), (v, v, v), (v, v, v), (v, v, v))
}

fn rate_text_color(c: Color) -> Option<bool> {
    sample_palette().rate_text_color(c)
}

fn true_dark_color(c: Color) -> Color {
    sample_palette().true_dark_color(c)
}

fn sample_palette() -> Palette {
    Palette {
        primary: ramp((48, 0, 87), (83, 0, 142), (117, 0, 197), (140, 0, 253)),
        secondary: ramp((87, 75, 0), (145, 126, 0), (201, 175, 0), (255, 222, 0)),
        white: ramp((240, 240, 240), (242, 242, 242), (246, 246, 246), (250, 250, 250)),
        black: ramp((20, 20, 20), (25, 25, 25), (30, 30, 30), (40, 40, 40)),
        gray: ramp((59, 61, 78), (76, 79, 99), (93, 96, 120), (110, 114, 145)),
        red: ramp((72, 15, 15), (120, 25, 25), (170, 35, 35), (210, 45, 45)),
        yellow: flat(200),
        limegreen: flat(120),
        green: ramp((24, 98, 24), (35, 130, 35), (45, 160, 45), (50, 205, 50)),
        bluegreen: flat(90),
        blue: ramp((22, 43, 65), (30, 70, 110), (40, 100, 160), (43, 129, 212)),
    }
}

fn lum(c: Color) -> i64 {
    match c {
        Color::Reset => 0,
        Color::Rgb(r, g, b) => 30 * r as i64 + 59 * g as i64 + 11 * b as i64,
    }
}

fn shipped() -> ThemeCatalog {
    ThemeCatalog::shipped().expect("shipped palettes keep their surfaces apart")
}

#[test]
fn container_base_and_text_on_dark_background() {
    let t = DarkTheme::new("Sample".to_string(), sample_palette());
    let base = t.container_base();
    assert_eq!(base.bg, Some(Color::Rgb(20, 20, 20)));
    let p = sample_palette();
    assert_eq!(p.text_color(Color::Rgb(20, 20, 20)), p.white[3]);
    assert_ne!(p.text_color(Color::Rgb(20, 20, 20)), p.black[0]);
    assert_eq!(base.fg, Some(p.white[3]));
}

#[test]
fn switching_themes_leaves_earlier_styles_unchanged() {
    let c = shipped();
    let imperial = c.select_theme(&"Imperial".to_string()).expect("Imperial");
    let before = imperial.menu_style();
    let focus_before = imperial.focus();
    let mono = c.select_theme(&"Monochrome".to_string()).expect("Monochrome");
    let _ = mono.menu_style();
    assert_eq!(imperial.menu_style(), before);
    assert_eq!(imperial.focus(), focus_before);
    assert_eq!(imperial.name(), "Imperial");
    assert_eq!(mono.name(), "Monochrome");
}

#[test]
fn style_for_is_deterministic() {
    let c = shipped();
    for t in c.themes() {
        assert_eq!(t.style_for(Concern::Focus), t.style_for(Concern::Focus));
        assert_eq!(t.file_dialog_style(), t.file_dialog_style());
        assert_eq!(t.statusline_style(), t.statusline_style());
    }
}

#[test]
fn text_color_beats_the_rejected_candidate() {
    let p = sample_palette();
    let light = p.white[3];
    let dark = p.black[0];
    for v in [0u8, 10, 40, 60, 80, 100, 160, 200, 230, 255] {
        let bg = Color::Rgb(v, v, v);
        let chosen = p.text_color(bg);
        let other = if chosen == light { dark } else { light };
        let b = lum(bg);
        assert!((lum(chosen) - b).abs() > (lum(other) - b).abs(), "background {}", v);
    }
    assert_eq!(p.text_color(Color::Rgb(0, 0, 0)), light);
    assert_eq!(p.text_color(Color::Rgb(255, 255, 255)), dark);
}

#[test]
fn reduced_text_uses_the_softer_pair() {
    let p = sample_palette();
    assert_eq!(p.reduced_text_color(Color::Rgb(0, 0, 0)), p.white[0]);
    assert_eq!(p.reduced_text_color(Color::Rgb(255, 255, 255)), p.black[3]);
    assert_eq!(p.reduced_text_color(Color::Reset), Color::Reset);
    let s = p.reduced_style(Color::Rgb(0, 0, 0));
    assert_eq!(s.bg, Some(Color::Rgb(0, 0, 0)));
    assert_eq!(s.fg, Some(p.white[0]));
}

#[test]
fn rating_follows_luminance_threshold() {
    assert_eq!(rate_text_color(Color::Rgb(0, 0, 0)), Some(true));
    assert_eq!(rate_text_color(Color::Rgb(255, 255, 255)), Some(false));
    assert_eq!(rate_text_color(Color::Rgb(100, 100, 100)), Some(true));
    assert_eq!(rate_text_color(Color::Rgb(110, 110, 110)), Some(false));
}

#[test]
fn shipped_surfaces_are_distinct() {
    let c = shipped();
    assert_eq!(c.themes().len(), 10);
    for t in c.themes() {
        let bgs = [
            t.container_base().bg,
            t.popup_base().bg,
            t.dialog_base().bg,
            t.doc_base().bg,
        ];
        for i in 0..4 {
            for j in (i + 1)..4 {
                assert_ne!(bgs[i], bgs[j], "{} surfaces {} and {}", t.name(), i, j);
            }
        }
        assert!(t.s().has_distinct_surfaces());
        assert_ne!(t.focus().bg, t.select().bg);
    }
}

#[test]
fn true_dark_never_lightens() {
    assert_eq!(true_dark_color(Color::Rgb(255, 128, 0)), Color::Rgb(63, 31, 0));
    assert_eq!(true_dark_color(Color::Rgb(0, 0, 0)), Color::Rgb(0, 0, 0));
    assert_eq!(true_dark_color(Color::Rgb(255, 255, 255)), Color::Rgb(63, 63, 63));
    assert_eq!(true_dark_color(Color::Reset), Color::Rgb(0, 0, 0));
    for v in [1u8, 4, 5, 100, 254] {
        match true_dark_color(Color::Rgb(v, v, v)) {
            Color::Rgb(r, g, b) => {
                assert!(r <= v && g <= v && b <= v && r <= 63);
                assert_eq!(r as u32, v as u32 * 63 / 255);
                assert_eq!((r, g), (b, b));
            }
            Color::Reset => panic!("darkened colour must be RGB"),
        }
    }
}

#[test]
fn undefined_lightness_gives_no_rating() {
    let p = sample_palette();
    assert_eq!(rate_text_color(Color::Reset), None);
    assert_eq!(p.rate_text_color(Color::Reset), None);
    assert_eq!(p.text_color(Color::Reset), Color::Reset);
    let t = DarkTheme::new("Sample".to_string(), p);
    let ln = t.line_nr_style_doc();
    let doc = t.doc_base_color();
    let expected = match p.rate_text_color(doc) {
        Some(false) => p.gray[0],
        _ => p.gray[3],
    };
    assert_eq!(ln.style.fg, Some(expected));
    assert_eq!(ln.style.bg, Some(doc));
}

#[test]
fn every_theme_answers_every_concern() {
    let all = [
        Concern::Focus,
        Concern::Select,
        Concern::TextInput,
        Concern::TextFocus,
        Concern::TextSelect,
        Concern::ContainerBase,
        Concern::ContainerBorder,
        Concern::ContainerArrow,
        Concern::PopupBase,
        Concern::PopupLabel,
        Concern::PopupBorder,
        Concern::PopupArrow,
        Concern::DialogBase,
        Concern::DialogLabel,
        Concern::DialogBorder,
        Concern::DialogArrow,
        Concern::StatusBase,
        Concern::ButtonBase,
        Concern::ButtonArmed,
        Concern::TableHeader,
        Concern::TableFooter,
        Concern::DocBase,
        Concern::DocBorder,
        Concern::DocArrow,
    ];
    for t in dark_themes() {
        for c in all {
            let s = t.style_for(c);
            assert!(s.fg.is_some() && s.bg.is_some());
        }
        let _ = (
            t.month_style(),
            t.shadow_style(),
            t.line_nr_style(),
            t.textarea_style(),
            t.text_style(),
            t.paragraph_style(),
            t.choice_style(),
            t.radio_style(),
            t.checkbox_style(),
            t.menu_style(),
            t.menu_style_hidden(),
            t.button_style(),
            t.table_style(),
            t.list_style(),
        );
        let _ = (
            t.scroll_style(),
            t.popup_scroll_style(),
            t.dialog_scroll_style(),
            t.split_style(),
            t.view_style(),
            t.tabbed_style(),
            t.statusline_style(),
            t.msg_dialog_style(),
            t.pager_style(),
            t.clipper_style(),
            t.choice_style_tools(),
            t.doc_scroll_style(),
            t.textarea_style_doc(),
            t.tabbed_style_doc(),
        );
    }
}

#[test]
fn catalog_order_and_names() {
    let names: Vec<String> = dark_themes().iter().map(|t| t.name().to_string()).collect();
    assert_eq!(
        names,
        vec![
            "Imperial", "Radium", "Tundra", "Monochrome", "Monekai", "Oxocarbon", "VSCodeDark",
            "Ocean", "Base16", "Base16Relaxed"
        ]
    );
    let imperial = &dark_themes()[0];
    assert_eq!(imperial.s().black[0], Color::Rgb(0x0f, 0x10, 0x14));
    assert_eq!(imperial.s().primary[3], Color::Rgb(0x8c, 0x00, 0xfd));
    assert!(imperial.dark_theme());
}

#[test]
fn lookup_is_exact_and_case_sensitive() {
    let c = shipped();
    assert!(c.select_theme(&"Ocean".to_string()).is_some());
    assert!(c.select_theme(&"ocean".to_string()).is_none());
    assert!(c.select_theme(&"Nope".to_string()).is_none());
    assert!(c.select_theme(&"".to_string()).is_none());
}

#[test]
fn catalog_rejects_indistinct_surfaces() {
    let good = DarkTheme::new("Good".to_string(), sample_palette());
    let mut p = sample_palette();
    p.white = flat(20);
    let bad = DarkTheme::new("Bad".to_string(), p);
    let r = ThemeCatalog::new(vec![good.clone(), bad]);
    assert_eq!(r.err(), Some(PaletteError::IndistinctSurfaces { index: 1 }));
    assert!(ThemeCatalog::new(vec![good]).is_ok());
    assert!(ThemeCatalog::new(Vec::new()).is_ok());
    let mut q = sample_palette();
    q.secondary[1] = q.primary[2];
    let same = DarkTheme::new("Same".to_string(), q);
    let r = ThemeCatalog::new(vec![same]);
    assert_eq!(r.err(), Some(PaletteError::FocusLikeSelection { index: 0 }));
}

#[test]
fn composite_styles_reuse_primitives() {
    let t = DarkTheme::new("Sample".to_string(), sample_palette());
    let p = sample_palette();
    assert_eq!(t.focus(), p.style(p.primary[2]));
    assert_eq!(t.select(), p.style(p.secondary[1]));
    let fd = t.file_dialog_style();
    assert_eq!(fd.style, t.dialog_base());
    assert_eq!(fd.list, Some(t.list_style()));
    assert_eq!(fd.roots.unwrap().style, t.dialog_base());
    assert_eq!(fd.roots.unwrap().select, Some(t.select()));
    assert_eq!(fd.button.unwrap().armed_delay_ms, Some(50));
    assert_eq!(t.dialog_border(), Style::new().fg(p.gray[0]).bg(p.gray[1]));
    assert_eq!(t.dialog_border().fg, t.container_border().fg);
    let sc = t.dialog_scroll_style();
    assert_eq!(sc.thumb_style, Some(t.dialog_border()));
    assert_eq!(sc.begin_style, Some(t.dialog_arrow()));
    let hidden = t.menu_style_hidden();
    assert_eq!(hidden.title.unwrap().bg, Some(true_dark_color(p.red[3])));
    assert_eq!(hidden.style.fg, Some(p.gray[0]));
    assert_eq!(t.shadow_style().dir, ShadowDirection::BottomRight);
    assert_eq!(t.menu_style().highlight, Some(Style::new().underlined()));
    let sl = t.statusline_style();
    assert_eq!(sl.len(), 4);
    assert_eq!(sl[1].bg, Some(p.blue[3]));
    assert_eq!(sl[1].fg, Some(p.text_color(p.white[0])));
    let ds = t.doc_scroll_style();
    assert_eq!(ds.vertical.unwrap().begin, "\u{2191}");
    assert_eq!(ds.thumb_style, Some(t.doc_border()));
}

#[test]
fn text_color_takes_the_farther_candidate() {
    let mut p = sample_palette();
    p.black[0] = Color::Rgb(0, 0, 0);
    p.white[3] = Color::Rgb(255, 255, 255);
    assert_eq!(p.text_color(Color::Rgb(115, 115, 115)), Color::Rgb(255, 255, 255));
    assert_eq!(p.reduced_text_color(Color::Rgb(115, 115, 115)), p.white[0]);
    assert_eq!(p.text_color(Color::Rgb(140, 140, 140)), Color::Rgb(0, 0, 0));
    assert_eq!(p.reduced_text_color(Color::Rgb(140, 140, 140)), p.black[3]);
    assert_eq!(p.rate_text_color(Color::Rgb(115, 115, 115)), Some(false));
    let t = DarkTheme::new("Sample".to_string(), p);
    assert_eq!(t.popup_base().fg, Some(Color::Rgb(0, 0, 0)));
}

#[test]
fn shipped_text_maximizes_contrast() {
    let c = shipped();
    let mono = c.select_theme(&"Monochrome".to_string()).expect("Monochrome");
    let p = *mono.s();
    assert_eq!(p.white[0], Color::Rgb(103, 119, 119));
    assert_eq!(mono.popup_base().fg, Some(p.white[3]));
    assert_eq!(mono.statusline_style()[1].fg, Some(p.white[3]));
    for t in c.themes() {
        let p = t.s();
        for bg in [p.white[0], p.primary[2], p.secondary[1], p.gray[3], p.black[2]] {
            let chosen = lum(p.text_color(bg));
            let other = if p.text_color(bg) == p.white[3] { lum(p.black[0]) } else { lum(p.white[3]) };
            assert!((chosen - lum(bg)).abs() >= (other - lum(bg)).abs(), "{}", t.name());
        }
    }
}
