use vstd::prelude::*;
use vstd::string::StrSliceExecFns;

use rat_widget::text::Locale;
use std::path::PathBuf;

verus! {

/// Default number of lines after which a file is split.
pub const DEFAULT_FILE_SPLIT_AT: u16 = 15;

/// Default text width.
pub const DEFAULT_TEXT_WIDTH: u16 = 65;

pub open spec fn is_digit(c: char) -> bool {
    '0' <= c && c <= '9'
}

/// Value of a run of decimal digits.
pub open spec fn digits_value(s: Seq<char>) -> int
    decreases s.len(),
{
    if s.len() == 0 {
        0
    } else {
        digits_value(s.drop_last()) * 10 + (s.last() as int - '0' as int)
    }
}

/// The digits of a number, after an optional leading `+`.
pub open spec fn unsigned_digits(s: Seq<char>) -> Seq<char> {
    if s.len() > 0 && s[0] == '+' {
        s.drop_first()
    } else {
        s
    }
}

/// The `u16` that `s` denotes in decimal (an optional `+`, then one or more
/// digits, at most 65535), or `None`.
pub open spec fn parsed_u16(s: Seq<char>) -> Option<u16> {
    let d = unsigned_digits(s);
    if d.len() > 0 && (forall|i: int| 0 <= i < d.len() ==> is_digit(d[i])) && digits_value(d)
        <= 65535 {
        Some(digits_value(d) as u16)
    } else {
        None
    }
}

proof fn lemma_digits_value_grows(s: Seq<char>, k: int)
    requires
        0 <= k <= s.len(),
        forall|i: int| 0 <= i < s.len() ==> is_digit(s[i]),
    ensures
        0 <= digits_value(s.take(k)) <= digits_value(s),
    decreases s.len(),
{
    if k < s.len() {
        lemma_digits_value_grows(s.drop_last(), k);
        assert(s.drop_last().take(k) == s.take(k));
    } else {
        assert(s.take(k) == s);
    }
    if s.len() > 0 {
        lemma_digits_value_grows(s.drop_last(), s.len() - 1);
        assert(s.drop_last().take(s.len() - 1) == s.drop_last());
    }
}

/// Reads a `u16` written in decimal, as std's `u16::from_str` does.
pub fn parse_u16(s: &str) -> (r: Option<u16>)
    ensures
        r == parsed_u16(s@),
{
    let n = s.unicode_len();
    let mut start: usize = 0;
    if n > 0 && s.get_char(0) == '+' {
        start = 1;
    }
    let ghost d = unsigned_digits(s@);
    assert(d == s@.subrange(start as int, n as int));
    if start == n {
        return None;
    }
    let mut v: u32 = 0;
    let mut i: usize = start;
    while i < n
        invariant
            start <= i <= n,
            n == s@.len(),
            d == s@.subrange(start as int, n as int),
            d == unsigned_digits(s@),
            forall|j: int| 0 <= j < i - start ==> is_digit(d[j]),
            v == digits_value(d.take(i - start)),
            v <= 65535,
        decreases n - i,
    {
        let c = s.get_char(i);
        let ghost k = i - start;
        assert(d[k] == c);
        if !('0' <= c && c <= '9') {
            assert(!is_digit(d[k]));
            return None;
        }
        assert(d.take(k + 1).drop_last() == d.take(k));
        assert(d.take(k + 1).last() == c);
        v = v * 10 + (c as u32 - '0' as u32);
        assert(v == digits_value(d.take(k + 1)));
        i += 1;
        if v > 65535 {
            proof {
                let k1 = i - start;
                if forall|j: int| 0 <= j < d.len() ==> is_digit(d[j]) {
                    lemma_digits_value_grows(d, k1);
                }
            }
            return None;
        }
    }
    assert(d.take(n - start) == d);
    Some(v as u16)
}

/// A numeric setting: the stored text if it reads as a `u16`, else `default`.
pub fn number_setting(value: Option<&str>, default: u16) -> (r: u16)
    ensures
        r == match value {
            Some(v) => match parsed_u16(v@) {
                Some(n) => n,
                None => default,
            },
            None => default,
        },
{
    match value {
        Some(v) => match parse_u16(v) {
            Some(n) => n,
            None => default,
        },
        None => default,
    }
}

pub open spec fn is_separator(c: char) -> bool {
    c == ' ' || c == ','
}

/// The pieces of `s` between spaces and commas, empty ones included.
pub open spec fn split_pieces(s: Seq<char>) -> Seq<Seq<char>>
    decreases s.len(),
{
    if s.len() == 0 {
        seq![Seq::empty()]
    } else {
        let p = split_pieces(s.drop_last());
        if is_separator(s.last()) {
            p.push(Seq::empty())
        } else {
            p.update(p.len() - 1, p.last().push(s.last()))
        }
    }
}

/// `s` with runs of equal neighbours reduced to one.
pub open spec fn dedup_adjacent(s: Seq<Seq<char>>) -> Seq<Seq<char>>
    decreases s.len(),
{
    if s.len() == 0 {
        s
    } else if s.len() >= 2 && s[s.len() - 2] == s.last() {
        dedup_adjacent(s.drop_last())
    } else {
        dedup_adjacent(s.drop_last()).push(s.last())
    }
}

/// The texts a list of strings holds.
pub open spec fn texts(v: Seq<String>) -> Seq<Seq<char>> {
    v.map_values(|x: String| x@)
}

/// The parts joined with `sep` between neighbours.
pub open spec fn joined(parts: Seq<Seq<char>>, sep: Seq<char>) -> Seq<char>
    decreases parts.len(),
{
    if parts.len() == 0 {
        Seq::empty()
    } else if parts.len() == 1 {
        parts[0]
    } else {
        joined(parts.drop_last(), sep) + sep + parts.last()
    }
}

/// `a` comes no later than `b` in code-point order (the order of `String`).
pub open spec fn text_le(a: Seq<char>, b: Seq<char>) -> bool
    decreases a.len(),
{
    if a.len() == 0 {
        true
    } else if b.len() == 0 {
        false
    } else if a[0] != b[0] {
        a[0] < b[0]
    } else {
        text_le(a.drop_first(), b.drop_first())
    }
}

/// `t` holds the texts of `s`, each as often, in ascending order.
pub open spec fn sorted_arrangement(t: Seq<Seq<char>>, s: Seq<Seq<char>>) -> bool {
    &&& t.to_multiset() == s.to_multiset()
    &&& forall|i: int, j: int| 0 <= i < j < t.len() ==> text_le(t[i], t[j])
}

/// A character with the Unicode `White_Space` property, as
/// `char::is_whitespace` tests it.
pub open spec fn is_white_space(c: char) -> bool {
    ('\u{9}' <= c && c <= '\u{d}') || c == ' ' || c == '\u{85}' || c == '\u{a0}' || c
        == '\u{1680}' || ('\u{2000}' <= c && c <= '\u{200a}') || c == '\u{2028}' || c
        == '\u{2029}' || c == '\u{202f}' || c == '\u{205f}' || c == '\u{3000}'
}

/// `s` without its leading white space.
pub open spec fn trim_start(s: Seq<char>) -> Seq<char>
    decreases s.len(),
{
    if s.len() > 0 && is_white_space(s[0]) {
        trim_start(s.drop_first())
    } else {
        s
    }
}

/// `s` without its trailing white space.
pub open spec fn trim_end(s: Seq<char>) -> Seq<char>
    decreases s.len(),
{
    if s.len() > 0 && is_white_space(s.last()) {
        trim_end(s.drop_last())
    } else {
        s
    }
}

/// `s` without white space at either end.
pub open spec fn trimmed(s: Seq<char>) -> Seq<char> {
    trim_end(trim_start(s))
}

/// The stored pattern text, `*.md` when absent.
pub open spec fn pattern_text(value: Option<&str>) -> Seq<char> {
    match value {
        Some(v) => v@,
        None => "*.md"@,
    }
}

/// `t` is what a pattern text `s` yields: its pieces (see `split_pieces`)
/// in ascending order, equal neighbours dropped.
pub open spec fn patterns_of(s: Seq<char>, t: Seq<Seq<char>>) -> bool {
    exists|u: Seq<Seq<char>>| sorted_arrangement(u, split_pieces(s)) && t == dedup_adjacent(u)
}

/// Relies on `slice::sort` of std on `String`s: the same strings in ascending
/// order, which for `String` is lexicographic by code point.
#[verifier::external_body]
fn sort_texts(v: Vec<String>) -> (r: Vec<String>)
    ensures
        r@.len() == v@.len(),
        sorted_arrangement(r@.map_values(|x: String| x@), v@.map_values(|x: String| x@)),
{
    let mut v = v;
    v.sort();
    v
}

/// Relies on `str::trim` of std: leading and trailing whitespace removed.
#[verifier::external_body]
fn trim_text(s: &str) -> (r: String)
    ensures
        r@ == trimmed(s@),
{
    s.trim().to_string()
}

/// Relies on `slice::join` of std: the parts with `sep` between neighbours.
#[verifier::external_body]
fn join_texts(parts: &Vec<String>, sep: &str) -> (r: String)
    ensures
        r@ == joined(parts@.map_values(|x: String| x@), sep@),
{
    parts.join(sep)
}

/// The decimal digit for `d` (below ten).
pub open spec fn digit_char(d: int) -> char {
    seq!['0', '1', '2', '3', '4', '5', '6', '7', '8', '9'][d]
}

/// `n` in plain decimal: no sign, no leading zeros.
pub open spec fn decimal_digits(n: nat) -> Seq<char>
    decreases n,
{
    if n < 10 {
        seq![digit_char(n as int)]
    } else {
        decimal_digits(n / 10).push(digit_char((n % 10) as int))
    }
}

/// Relies on `u16`'s `Display` in std: plain decimal digits.
#[verifier::external_body]
fn decimal_text(n: u16) -> (r: String)
    ensures
        r@ == decimal_digits(n as nat),
{
    n.to_string()
}

proof fn lemma_digit_char(d: int)
    requires
        0 <= d < 10,
    ensures
        is_digit(digit_char(d)),
        digit_char(d) as int - '0' as int == d,
        digit_char(d) != '+',
{
    let t = seq!['0', '1', '2', '3', '4', '5', '6', '7', '8', '9'];
    assert(t[0] == '0' && t[1] == '1' && t[2] == '2' && t[3] == '3' && t[4] == '4');
    assert(t[5] == '5' && t[6] == '6' && t[7] == '7' && t[8] == '8' && t[9] == '9');
}

proof fn lemma_decimal_digits(n: nat)
    ensures
        decimal_digits(n).len() > 0,
        decimal_digits(n)[0] != '+',
        forall|i: int| 0 <= i < decimal_digits(n).len() ==> is_digit(#[trigger] decimal_digits(n)[i]),
        digits_value(decimal_digits(n)) == n,
    decreases n,
{
    let s = decimal_digits(n);
    if n < 10 {
        lemma_digit_char(n as int);
        assert(s.drop_last() =~= Seq::<char>::empty());
        assert(digits_value(Seq::<char>::empty()) == 0);
        assert(s.last() == digit_char(n as int));
    } else {
        lemma_decimal_digits(n / 10);
        lemma_digit_char((n % 10) as int);
        let p = decimal_digits(n / 10);
        assert(s.drop_last() =~= p);
        assert(forall|i: int| 0 <= i < s.len() ==> is_digit(#[trigger] s[i])) by {
            assert forall|i: int| 0 <= i < s.len() implies is_digit(#[trigger] s[i]) by {
                if i < p.len() {
                    assert(s[i] == p[i]);
                }
            }
        }
        assert(s[0] == p[0]);
        assert(s.last() == digit_char((n % 10) as int));
        assert(digits_value(s) == digits_value(p) * 10 + (n % 10));
        assert((n / 10) * 10 + n % 10 == n) by (nonlinear_arith);
    }
}

/// A number stored in plain decimal reads back as the same number.
pub proof fn lemma_stored_number_reads_back(n: u16)
    ensures
        parsed_u16(decimal_digits(n as nat)) == Some(n),
{
    lemma_decimal_digits(n as nat);
    let s = decimal_digits(n as nat);
    assert(unsigned_digits(s) == s);
}

proof fn lemma_split_nonempty(s: Seq<char>)
    ensures
        split_pieces(s).len() >= 1,
    decreases s.len(),
{
    if s.len() > 0 {
        lemma_split_nonempty(s.drop_last());
    }
}

/// Splits a pattern list at spaces and commas, keeping empty pieces.
pub fn split_patterns(s: &str) -> (r: Vec<String>)
    ensures
        texts(r@) == split_pieces(s@),
{
    let n = s.unicode_len();
    let mut r: Vec<String> = Vec::new();
    let mut start: usize = 0;
    let mut i: usize = 0;
    assert(s@.take(0) =~= Seq::<char>::empty());
    assert(texts(r@).push(s@.subrange(0, 0)) =~= split_pieces(s@.take(0)));
    while i < n
        invariant
            start <= i <= n,
            n == s@.len(),
            texts(r@).push(s@.subrange(start as int, i as int)) == split_pieces(s@.take(i as int)),
        decreases n - i,
    {
        let c = s.get_char(i);
        let ghost old_r = r@;
        let ghost old_start = start;
        assert(s@.take(i as int + 1).drop_last() =~= s@.take(i as int));
        assert(s@.take(i as int + 1).last() == c);
        proof {
            lemma_split_nonempty(s@.take(i as int));
        }
        if c == ' ' || c == ',' {
            let piece = s.substring_char(start, i).to_string();
            r.push(piece);
            start = i + 1;
            assert(texts(r@) =~= texts(old_r).push(s@.subrange(old_start as int, i as int)));
            assert(s@.subrange(start as int, i as int + 1) =~= Seq::<char>::empty());
        } else {
            assert(s@.subrange(start as int, i as int + 1) =~= s@.subrange(
                start as int,
                i as int,
            ).push(c));
            assert(texts(r@).push(s@.subrange(start as int, i as int + 1)) =~= texts(r@).push(
                s@.subrange(start as int, i as int),
            ).update(texts(r@).len() as int, s@.subrange(start as int, i as int).push(c)));
        }
        i += 1;
    }
    let last = s.substring_char(start, n).to_string();
    let ghost before = r@;
    r.push(last);
    assert(texts(r@) =~= texts(before).push(s@.subrange(start as int, n as int)));
    assert(s@.take(n as int) =~= s@);
    r
}

/// Drops each string equal to the one before it.
pub fn dedup_texts(v: &Vec<String>) -> (r: Vec<String>)
    ensures
        texts(r@) == dedup_adjacent(texts(v@)),
{
    let mut r: Vec<String> = Vec::new();
    let mut i: usize = 0;
    assert(texts(v@).take(0) =~= Seq::<Seq<char>>::empty());
    assert(texts(r@) =~= Seq::<Seq<char>>::empty());
    while i < v.len()
        invariant
            i <= v@.len(),
            texts(r@) == dedup_adjacent(texts(v@).take(i as int)),
        decreases v@.len() - i,
    {
        let ghost t = texts(v@).take(i as int + 1);
        assert(t.drop_last() =~= texts(v@).take(i as int));
        assert(t.last() == v@[i as int]@);
        if i > 0 && v[i] == v[i - 1] {
            assert(t[t.len() - 2] == v@[i - 1]@);
        } else {
            let ghost before = r@;
            r.push(v[i].clone());
            assert(texts(r@) =~= texts(before).push(v@[i as int]@));
            if i > 0 {
                assert(t[t.len() - 2] == v@[i - 1]@);
            }
        }
        i += 1;
    }
    assert(texts(v@).take(i as int) =~= texts(v@));
    r
}

/// The file patterns of a stored pattern list (`*.md` when absent): split at
/// spaces and commas, sorted, equal neighbours dropped.
pub fn glob_setting(value: Option<&str>) -> (r: Vec<String>)
    ensures
        patterns_of(pattern_text(value), texts(r@)),
{
    let s = match value {
        Some(v) => v,
        None => "*.md",
    };
    let pieces = split_patterns(s);
    assert(pieces@.map_values(|x: String| x@) == texts(pieces@));
    let sorted = sort_texts(pieces);
    assert(sorted@.map_values(|x: String| x@) == texts(sorted@));
    let r = dedup_texts(&sorted);
    assert(sorted_arrangement(texts(sorted@), split_pieces(pattern_text(value))));
    r
}

/// The stored form of a pattern list: the patterns separated by `, `, or
/// `*.md` when there are none.
pub fn pattern_value(globs: &Vec<String>) -> (r: String)
    ensures
        globs@.len() == 0 ==> r@ == "*.md"@,
        globs@.len() > 0 ==> r@ == joined(texts(globs@), ", "@),
{
    if globs.len() == 0 {
        "*.md".to_string()
    } else {
        join_texts(globs, ", ")
    }
}

/// A log level as stored: the text without surrounding whitespace (`warn`
/// when absent).
pub fn log_setting(value: Option<&str>) -> (r: String)
    ensures
        r@ == trimmed(
            match value {
                Some(v) => v@,
                None => "warn"@,
            },
        ),
{
    match value {
        Some(v) => trim_text(v),
        None => trim_text("warn"),
    }
}

/// A number as stored, in plain decimal.
pub fn number_value(n: u16) -> (r: String)
    ensures
        r@ == decimal_digits(n as nat),
{
    decimal_text(n)
}

#[verifier::external_type_specification]
#[verifier::external_body]
pub struct ExLocale(Locale);

#[verifier::external_type_specification]
#[verifier::external_body]
pub struct ExPathBuf(PathBuf);

/// Relies on sys_locale's `get_locale`: the system's preferred language tag,
/// if it can be found. It depends on the environment, so nothing is stated.
#[verifier::external_body]
fn system_locale() -> (r: Option<String>)
{
    sys_locale::get_locale()
}

/// Relies on `str::replace` of std: every `from` in `s` replaced by `to`.
#[verifier::external_body]
fn replace_char(s: &str, from: char, to: char) -> (r: String)
    ensures
        r@ == s@.map_values(|c: char| if c == from { to } else { c }),
{
    s.replace(from, to.encode_utf8(&mut [0u8; 4]))
}

/// Relies on `FromStr` of pure_rust_locales' `Locale`: the locale of that
/// name, if there is one.
#[verifier::external_body]
fn locale_named(s: &str) -> (r: Option<Locale>)
{
    s.parse::<Locale>().ok()
}

/// Relies on pure_rust_locales' `Locale::POSIX`.
#[verifier::external_body]
fn posix_locale() -> (r: Locale)
{
    Locale::POSIX
}

/// Editor settings.
#[derive(Debug)]
pub struct MDConfig {
    pub loc: Locale,
    pub theme: String,
    pub text_width: u16,
    pub load_file: Vec<PathBuf>,
    pub globs: Vec<String>,
    pub file_split_at: u16,
    pub show_ctrl: bool,
    pub log_level: String,
}

/// A language tag in the form locale names use (`en-US` becomes `en_US`).
pub fn locale_tag(tag: &str) -> (r: String)
    ensures
        r@ == tag@.map_values(|c: char| if c == '-' { '_' } else { c }),
{
    replace_char(tag, '-', '_')
}

/// The system's locale, or `en-US` when it is unknown, or POSIX when the
/// name is not a known locale.
fn default_locale() -> Locale {
    let tag = match system_locale() {
        Some(t) => t,
        None => "en-US".to_string(),
    };
    match locale_named(locale_tag(tag.as_str()).as_str()) {
        Some(l) => l,
        None => posix_locale(),
    }
}

impl MDConfig {
    /// The documented defaults, apart from the locale.
    pub open spec fn has_defaults(&self) -> bool {
        &&& self.theme@ == "Imperial"@
        &&& !self.show_ctrl
        &&& self.file_split_at == DEFAULT_FILE_SPLIT_AT
        &&& self.text_width == DEFAULT_TEXT_WIDTH
        &&& self.load_file@.len() == 0
        &&& texts(self.globs@) == seq!["*.md"@]
        &&& self.log_level@ == "debug"@
    }

    /// Settings read from stored values, each absent one taking its default,
    /// a number that does not read as a `u16` too. The locale is the
    /// system's; nothing is loaded at start.
    pub fn from_settings(
        theme: Option<&str>,
        file_split_at: Option<&str>,
        text_width: Option<&str>,
        file_pattern: Option<&str>,
        log: Option<&str>,
    ) -> (r: MDConfig)
        ensures
            r.theme@ == match theme {
                Some(t) => t@,
                None => "Imperial"@,
            },
            r.file_split_at == match file_split_at {
                Some(v) => match parsed_u16(v@) {
                    Some(n) => n,
                    None => DEFAULT_FILE_SPLIT_AT,
                },
                None => DEFAULT_FILE_SPLIT_AT,
            },
            r.text_width == match text_width {
                Some(v) => match parsed_u16(v@) {
                    Some(n) => n,
                    None => DEFAULT_TEXT_WIDTH,
                },
                None => DEFAULT_TEXT_WIDTH,
            },
            patterns_of(pattern_text(file_pattern), texts(r.globs@)),
            r.log_level@ == trimmed(
                match log {
                    Some(v) => v@,
                    None => "warn"@,
                },
            ),
            !r.show_ctrl,
            r.load_file@.len() == 0,
    {
        let d = MDConfig::default();
        MDConfig {
            loc: d.loc,
            theme: match theme {
                Some(t) => t.to_string(),
                None => "Imperial".to_string(),
            },
            text_width: number_setting(text_width, DEFAULT_TEXT_WIDTH),
            load_file: d.load_file,
            globs: glob_setting(file_pattern),
            file_split_at: number_setting(file_split_at, DEFAULT_FILE_SPLIT_AT),
            show_ctrl: d.show_ctrl,
            log_level: log_setting(log),
        }
    }

    /// The key/value pairs under which these settings are stored.
    pub fn settings(&self) -> (r: Vec<(String, String)>)
        ensures
            r@.len() == 5,
            r@[0].0@ == "theme"@ && r@[0].1@ == self.theme@,
            r@[1].0@ == "file_split_at"@ && r@[1].1@ == decimal_digits(self.file_split_at as nat),
            r@[2].0@ == "text_width"@ && r@[2].1@ == decimal_digits(self.text_width as nat),
            r@[3].0@ == "file_pattern"@ && (self.globs@.len() == 0 ==> r@[3].1@ == "*.md"@) && (
            self.globs@.len() > 0 ==> r@[3].1@ == joined(texts(self.globs@), ", "@)),
            r@[4].0@ == "log"@ && r@[4].1@ == self.log_level@,
    {
        let mut r: Vec<(String, String)> = Vec::new();
        r.push(("theme".to_string(), self.theme.clone()));
        r.push(("file_split_at".to_string(), number_value(self.file_split_at)));
        r.push(("text_width".to_string(), number_value(self.text_width)));
        r.push(("file_pattern".to_string(), pattern_value(&self.globs)));
        r.push(("log".to_string(), self.log_level.clone()));
        r
    }
}

impl Default for MDConfig {
    /// Theme Imperial, the default widths, the pattern `*.md`, log level
    /// debug, and the system's locale.
    fn default() -> (r: MDConfig)
        ensures
            r.has_defaults(),
    {
        let mut globs: Vec<String> = Vec::new();
        globs.push("*.md".to_string());
        let r = MDConfig {
            loc: default_locale(),
            theme: "Imperial".to_string(),
            show_ctrl: false,
            file_split_at: DEFAULT_FILE_SPLIT_AT,
            text_width: DEFAULT_TEXT_WIDTH,
            load_file: Vec::new(),
            globs,
            log_level: "debug".to_string(),
        };
        assert(texts(r.globs@) =~= seq!["*.md"@]);
        r
    }
}

} // verus!
