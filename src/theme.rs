//! Choice between the light and the dark colour theme, from the
//! configuration and from a terminal's theme marker.

use vstd::prelude::*;
use crate::config::{eq_ignore_ascii_case, eq_ignore_case};
use crate::scene::{lower_of, lowercase};
use crate::text::{contains, contains_seq, is_prefix, starts_with};

verus! {

/// A string without its leading and trailing white space, as `str::trim`
/// gives it.
pub uninterp spec fn trimmed_of(s: Seq<char>) -> Seq<char>;

/// Relies on `str::trim`: leading and trailing Unicode white space removed.
#[verifier::external_body]
fn trim(s: &str) -> (r: &str)
    ensures
        r@ == trimmed_of(s@),
{
    s.trim()
}

/// What the configuration asks for.
#[derive(Debug, Clone, Copy, PartialEq, Eq, Structural)]
pub enum ThemeChoice {
    Light,
    Dark,
    /// Look at the terminal to decide.
    Detect,
}

/// The theme a trimmed configuration value names, up to ASCII case.
pub open spec fn choice_of(t: Seq<char>) -> ThemeChoice {
    if eq_ignore_case(t, "light"@) || eq_ignore_case(t, "frostglow"@) {
        ThemeChoice::Light
    } else if eq_ignore_case(t, "dark"@) || eq_ignore_case(t, "deep-cracked-ice"@)
        || eq_ignore_case(t, "deep_cracked_ice"@) {
        ThemeChoice::Dark
    } else {
        ThemeChoice::Detect
    }
}

/// The theme the configuration's `theme` value asks for.
pub fn theme_choice(config_theme: &str) -> (r: ThemeChoice)
    ensures
        r == choice_of(trimmed_of(config_theme@)),
{
    let t = trim(config_theme);
    if eq_ignore_ascii_case(t, "light") || eq_ignore_ascii_case(t, "frostglow") {
        ThemeChoice::Light
    } else if eq_ignore_ascii_case(t, "dark") || eq_ignore_ascii_case(t, "deep-cracked-ice")
        || eq_ignore_ascii_case(t, "deep_cracked_ice") {
        ThemeChoice::Dark
    } else {
        ThemeChoice::Detect
    }
}

/// Light (`true`) or dark (`false`) as a lower-case marker text says, or
/// nothing when it says neither.
pub open spec fn marker_says(t: Seq<char>) -> Option<bool> {
    if contains_seq(t, "light"@) || contains_seq(t, "frostglow"@) {
        Some(true)
    } else if contains_seq(t, "dark"@) || contains_seq(t, "cracked"@) || contains_seq(t, "ice"@) {
        Some(false)
    } else {
        None
    }
}

/// Reads a lower-case theme marker.
pub fn theme_of_lowercase_marker(t: &str) -> (r: Option<bool>)
    ensures
        r == marker_says(t@),
{
    if contains(t, "light") || contains(t, "frostglow") {
        Some(true)
    } else if contains(t, "dark") || contains(t, "cracked") || contains(t, "ice") {
        Some(false)
    } else {
        None
    }
}

/// Reads a terminal's theme marker in any case and with surrounding white
/// space: `Some(true)` for a light theme, `Some(false)` for a dark one.
pub fn parse_theme_marker(theme_marker: &str) -> (r: Option<bool>)
    ensures
        r == marker_says(lower_of(trimmed_of(theme_marker@))),
{
    let t = trim(theme_marker);
    let lower = lowercase(t);
    theme_of_lowercase_marker(lower.as_str())
}

/// What an explicit theme setting says: light when it mentions "light"
/// or "frostglow", dark when it mentions "dark".
pub open spec fn setting_says(lower: Seq<char>) -> Option<bool> {
    if contains_seq(lower, "light"@) || contains_seq(lower, "frostglow"@) {
        Some(true)
    } else if contains_seq(lower, "dark"@) {
        Some(false)
    } else {
        None
    }
}

fn setting_says_lower(t: &str) -> (r: Option<bool>)
    ensures
        r == setting_says(t@),
{
    if contains(t, "light") || contains(t, "frostglow") {
        Some(true)
    } else if contains(t, "dark") {
        Some(false)
    } else {
        None
    }
}

/// Reads an explicit theme setting, such as an environment variable, in
/// any letter case.
pub fn theme_setting(value: &str) -> (r: Option<bool>)
    ensures
        r == setting_says(lower_of(value@)),
{
    let lower = lowercase(value);
    setting_says_lower(lower.as_str())
}

/// Whether a terminal's theme name, in any letter case, names a light
/// theme.
pub fn terminal_theme_is_light(value: &str) -> (r: bool)
    ensures
        r == contains_seq(lower_of(value@), "light"@),
{
    let lower = lowercase(value);
    contains(lower.as_str(), "light")
}

/// Reads the first ten lines of a terminal configuration, joined: light
/// when they mention "frostglow" or "light", dark when they mention
/// "deep cracked ice" or "dark".
pub open spec fn header_says(lower: Seq<char>) -> Option<bool> {
    if contains_seq(lower, "frostglow"@) || contains_seq(lower, "light"@) {
        Some(true)
    } else if contains_seq(lower, "deep cracked ice"@) || contains_seq(lower, "dark"@) {
        Some(false)
    } else {
        None
    }
}

/// Reads the joined head of a terminal configuration, in any letter case.
pub fn config_header_theme(header: &str) -> (r: Option<bool>)
    ensures
        r == header_says(lower_of(header@)),
{
    let lower = lowercase(header);
    let t = lower.as_str();
    if contains(t, "frostglow") || contains(t, "light") {
        Some(true)
    } else if contains(t, "deep cracked ice") || contains(t, "dark") {
        Some(false)
    } else {
        None
    }
}

/// Position of the first `c` in `s` at or after `i`, or the length.
pub open spec fn first_index_from(s: Seq<char>, c: char, i: nat) -> nat
    decreases s.len() - i,
{
    if i >= s.len() {
        s.len()
    } else if s[i as int] == c {
        i
    } else {
        first_index_from(s, c, i + 1)
    }
}

/// Position just after the last `c` in the first `j` characters, or 0.
pub open spec fn after_last_from(s: Seq<char>, c: char, j: nat) -> nat
    decreases j,
{
    if j == 0 {
        0
    } else if s[j - 1] == c {
        j
    } else {
        after_last_from(s, c, (j - 1) as nat)
    }
}

/// Value of a string of decimal digits.
pub open spec fn digits_value(d: Seq<char>) -> nat
    decreases d.len(),
{
    if d.len() == 0 {
        0
    } else {
        digits_value(d.drop_last()) * 10 + ((d.last() as u32) - 48) as nat
    }
}

pub open spec fn is_digit(c: char) -> bool {
    '0' <= c && c <= '9'
}

pub open spec fn all_digits(d: Seq<char>) -> bool {
    forall|i: int| 0 <= i < d.len() ==> is_digit(#[trigger] d[i])
}

/// The text after an optional leading `+`.
pub open spec fn unsigned_digits(s: Seq<char>) -> Seq<char> {
    if s.len() > 0 && s[0] == '+' {
        s.drop_first()
    } else {
        s
    }
}

/// A byte as `str::parse::<u8>` reads it: an optional `+`, then at least
/// one decimal digit and nothing else, of value at most 255.
pub open spec fn parsed_u8(s: Seq<char>) -> Option<u8> {
    let d = unsigned_digits(s);
    if d.len() > 0 && all_digits(d) && digits_value(d) <= 255 {
        Some(digits_value(d) as u8)
    } else {
        None
    }
}

proof fn digits_prefix_grows(d: Seq<char>, i: int)
    requires
        0 <= i <= d.len(),
        forall|k: int| 0 <= k < d.len() ==> is_digit(#[trigger] d[k]),
    ensures
        digits_value(d.subrange(0, i)) <= digits_value(d),
    decreases d.len() - i,
{
    if i < d.len() {
        digits_prefix_grows(d, i + 1);
        assert(d.subrange(0, i + 1).drop_last() =~= d.subrange(0, i));
    } else {
        assert(d.subrange(0, i) =~= d);
    }
}

/// Reads a byte written in decimal, as `str::parse::<u8>` does.
pub fn parse_u8(s: &str) -> (r: Option<u8>)
    ensures
        r == parsed_u8(s@),
{
    let n = s.unicode_len();
    let mut i: usize = 0;
    if n > 0 && s.get_char(0) == '+' {
        i = 1;
    }
    let ghost start = i as int;
    let ghost d = s@.subrange(start, n as int);
    proof {
        assert(d =~= unsigned_digits(s@));
    }
    if i == n {
        return None;
    }
    let mut v: u32 = 0;
    while i < n
        invariant
            n == s@.len(),
            0 <= start <= i <= n,
            d == s@.subrange(start, n as int),
            d == unsigned_digits(s@),
            v <= 255,
            v == digits_value(d.subrange(0, i - start)),
            forall|k: int| 0 <= k < i - start ==> is_digit(#[trigger] d[k]),
        decreases n - i,
    {
        let c = s.get_char(i);
        assert(d.len() == n - start);
        assert(s@[i as int] == c);
        assert(d[i - start] == s@[i as int]);
        if !('0' <= c && c <= '9') {
            assert(!is_digit(d[i - start]));
            return None;
        }
        assert(d.subrange(0, i + 1 - start).drop_last() =~= d.subrange(0, i - start));
        assert(d.subrange(0, i + 1 - start).last() == c);
        let nv: u32 = v * 10 + (c as u32 - 48);
        assert(nv == digits_value(d.subrange(0, i + 1 - start)));
        if nv > 255 {
            proof {
                if all_digits(d) {
                    digits_prefix_grows(d, i + 1 - start);
                }
            }
            return None;
        }
        v = nv;
        i = i + 1;
    }
    proof {
        assert(d.subrange(0, n - start) =~= d);
    }
    Some(v as u8)
}

/// What a COLORFGBG value says: its last `;`-separated field, trimmed and
/// read as a colour index, is a light background from 7 up.
pub open spec fn colorfgbg_says(s: Seq<char>) -> Option<bool> {
    let field = s.subrange(after_last_from(s, ';', s.len()) as int, s.len() as int);
    match parsed_u8(trimmed_of(field)) {
        Some(i) => Some(i >= 7),
        None => None,
    }
}

/// Reads a COLORFGBG value ("15;0"): whether the background is light, or
/// nothing when the value names no colour index.
pub fn colorfgbg_theme(value: &str) -> (r: Option<bool>)
    ensures
        r == colorfgbg_says(value@),
{
    let n = value.unicode_len();
    let mut j: usize = n;
    while j > 0 && value.get_char(j - 1) != ';'
        invariant
            j <= n,
            n == value@.len(),
            after_last_from(value@, ';', n as nat) == after_last_from(value@, ';', j as nat),
        decreases j,
    {
        j = j - 1;
    }
    let field = value.substring_char(j, n);
    match parse_u8(trim(field)) {
        Some(i) => Some(i >= 7),
        None => None,
    }
}

/// What one line of a ghostty configuration says: the part before any
/// `#`, trimmed, when it starts with "theme", read as a theme setting.
pub open spec fn ghostty_line_says(line: Seq<char>) -> Option<bool> {
    let clean = trimmed_of(line.subrange(0, first_index_from(line, '#', 0) as int));
    if is_prefix("theme"@, clean) {
        setting_says(lower_of(clean))
    } else {
        None
    }
}

/// Reads one line of a ghostty configuration.
pub fn ghostty_line_theme(line: &str) -> (r: Option<bool>)
    ensures
        r == ghostty_line_says(line@),
{
    let n = line.unicode_len();
    let mut i: usize = 0;
    while i < n && line.get_char(i) != '#'
        invariant
            i <= n,
            n == line@.len(),
            first_index_from(line@, '#', 0) == first_index_from(line@, '#', i as nat),
        decreases n - i,
    {
        i = i + 1;
    }
    let clean = trim(line.substring_char(0, i));
    if starts_with(clean, "theme") {
        theme_setting(clean)
    } else {
        None
    }
}

} // verus!
