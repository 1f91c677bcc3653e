use mdtheme::config::{
    dedup_texts, glob_setting, locale_tag, log_setting, number_setting, number_value,
    parse_u16, pattern_value, split_patterns, MDConfig, DEFAULT_FILE_SPLIT_AT,
    DEFAULT_TEXT_WIDTH,
};

fn strings(v: &[&str]) -> Vec<String> {
    v.iter().map(|s| s.to_string()).collect()
}

#[test]
fn parse_u16_matches_std() {
    for s in ["0", "7", "65", "+15", "65535", "65536", "", "+", "-1", "12a", " 1", "0065", "99999999"] {
        assert_eq!(parse_u16(s), s.parse::<u16>().ok(), "{:?}", s);
    }
    assert_eq!(parse_u16("120"), Some(120));
    assert_eq!(parse_u16("70000"), None);
}

#[test]
fn number_setting_falls_back() {
    assert_eq!(number_setting(Some("80"), DEFAULT_TEXT_WIDTH), 80);
    assert_eq!(number_setting(Some("wide"), DEFAULT_TEXT_WIDTH), 65);
    assert_eq!(number_setting(None, DEFAULT_FILE_SPLIT_AT), 15);
}

#[test]
fn patterns_split_at_spaces_and_commas() {
    assert_eq!(split_patterns("*.md, *.txt"), strings(&["*.md", "", "*.txt"]));
    assert_eq!(split_patterns("a"), strings(&["a"]));
    assert_eq!(split_patterns(""), strings(&[""]));
    assert_eq!(split_patterns(",x"), strings(&["", "x"]));
}

#[test]
fn dedup_drops_equal_neighbours() {
    let v = strings(&["a", "a", "b", "a", "a"]);
    assert_eq!(dedup_texts(&v), strings(&["a", "b", "a"]));
    assert_eq!(dedup_texts(&Vec::new()), Vec::<String>::new());
}

#[test]
fn glob_setting_sorts_and_dedups() {
    assert_eq!(glob_setting(Some("*.txt, *.md,*.txt")), strings(&["", "*.md", "*.txt"]));
    assert_eq!(glob_setting(None), strings(&["*.md"]));
}

#[test]
fn stored_forms() {
    assert_eq!(pattern_value(&strings(&["*.md", "*.txt"])), "*.md, *.txt");
    assert_eq!(pattern_value(&Vec::new()), "*.md");
    assert_eq!(log_setting(Some("  info \n")), "info");
    assert_eq!(log_setting(None), "warn");
    assert_eq!(number_value(65), "65");
    assert_eq!(number_value(0), "0");
    assert_eq!(number_value(65535), "65535");
    assert_eq!(parse_u16(&number_value(40000)), Some(40000));
    assert_eq!(locale_tag("de-AT"), "de_AT");
}

#[test]
fn defaults() {
    let d = MDConfig::default();
    assert_eq!(d.theme, "Imperial");
    assert_eq!(d.text_width, 65);
    assert_eq!(d.file_split_at, 15);
    assert_eq!(d.globs, strings(&["*.md"]));
    assert_eq!(d.log_level, "debug");
    assert!(!d.show_ctrl);
    assert!(d.load_file.is_empty());
}

#[test]
fn settings_round_trip() {
    let c = MDConfig::from_settings(Some("Ocean"), Some("20"), Some("x"), Some("b a"), Some(" error "));
    assert_eq!(c.theme, "Ocean");
    assert_eq!(c.file_split_at, 20);
    assert_eq!(c.text_width, 65);
    assert_eq!(c.globs, strings(&["a", "b"]));
    assert_eq!(c.log_level, "error");
    let kv = c.settings();
    let expect: Vec<(String, String)> = vec![
        ("theme".to_string(), "Ocean".to_string()),
        ("file_split_at".to_string(), "20".to_string()),
        ("text_width".to_string(), "65".to_string()),
        ("file_pattern".to_string(), "a, b".to_string()),
        ("log".to_string(), "error".to_string()),
    ];
    assert_eq!(kv, expect);
    let back = MDConfig::from_settings(
        Some(&kv[0].1),
        Some(&kv[1].1),
        Some(&kv[2].1),
        Some(&kv[3].1),
        Some(&kv[4].1),
    );
    assert_eq!(back.globs, strings(&["", "a", "b"]));
    assert_eq!(back.text_width, 65);
    let none = MDConfig::from_settings(None, None, None, None, None);
    assert_eq!(none.theme, "Imperial");
    assert_eq!(none.log_level, "warn");
    assert_eq!(none.globs, strings(&["*.md"]));
}
