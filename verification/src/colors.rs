//! Color configuration: the persisted color map, its validation, and its
//! translation into concrete terminal styles. Rendering the styles is the
//! presentation layer's part; this module owns the parsing decisions.

use vstd::prelude::*;
use vstd::string::*;

use crate::error::{Error, ErrorKind};
use crate::log::{Highlight, StyleMap};
use crate::strutil::{lower_of, lowercase, str_eq};
use crate::table::{spec_find, Table, TableEntry};

verus! {

/// A configured color: a palette index, a 24-bit value, or one of the eight
/// ANSI color names.
#[derive(Debug, Clone, PartialEq)]
pub enum Color {
    /// A color number from 0 to 255, for 256-color terminals.
    Fixed(u8),
    /// A 24-bit RGB color.
    RGB { r: u8, g: u8, b: u8 },
    /// A named color of the original 3/4-bit ANSI palette.
    Named(String),
}

/// A raw color value as it may appear in a configuration document.
#[derive(Debug, Clone, PartialEq)]
pub struct ColorValue {
    pub color: String,
    pub rgb: Option<String>,
}

/// One configured highlight style: optional foreground and background
/// colors, and the font effects.
#[derive(Debug, Clone, PartialEq)]
pub struct ConfigColor {
    pub color: Option<Color>,
    pub background: Option<Color>,
    pub bold: Option<bool>,
    pub underline: Option<bool>,
    pub italic: Option<bool>,
    pub inverse: Option<bool>,
}

/// The configured highlight overrides, keyed by highlight name.
#[derive(Debug, Clone, PartialEq)]
pub struct ConfigColorMap(pub Table<ConfigColor>);

/// A concrete terminal color.
#[derive(Debug, Clone, Copy, PartialEq, Eq, Structural)]
pub enum TermColor {
    Black,
    Red,
    Green,
    Yellow,
    Blue,
    Purple,
    Cyan,
    White,
    Fixed(u8),
    Rgb(u8, u8, u8),
}

/// A concrete terminal style; the presentation layer renders it.
#[derive(Debug, Clone, Copy, PartialEq, Eq, Structural)]
pub struct Style {
    pub foreground: Option<TermColor>,
    pub background: Option<TermColor>,
    pub is_bold: bool,
    pub is_underline: bool,
    pub is_italic: bool,
    pub is_reverse: bool,
}

/// The style with no color and no effects.
pub open spec fn spec_plain_style() -> Style {
    Style {
        foreground: None,
        background: None,
        is_bold: false,
        is_underline: false,
        is_italic: false,
        is_reverse: false,
    }
}

impl Style {
    /// The style with no color and no effects.
    pub fn plain() -> (r: Style)
        ensures
            r == spec_plain_style(),
    {
        Style {
            foreground: None,
            background: None,
            is_bold: false,
            is_underline: false,
            is_italic: false,
            is_reverse: false,
        }
    }
}

/// The terminal color a lowercased name denotes, if any.
pub open spec fn spec_named_color(t: Seq<char>) -> Option<TermColor> {
    if t == ("black")@ {
        Some(TermColor::Black)
    } else if t == ("red")@ {
        Some(TermColor::Red)
    } else if t == ("green")@ {
        Some(TermColor::Green)
    } else if t == ("yellow")@ {
        Some(TermColor::Yellow)
    } else if t == ("blue")@ {
        Some(TermColor::Blue)
    } else if t == ("purple")@ {
        Some(TermColor::Purple)
    } else if t == ("cyan")@ {
        Some(TermColor::Cyan)
    } else if t == ("white")@ {
        Some(TermColor::White)
    } else {
        None
    }
}

/// The terminal color a configured color denotes: palette and RGB values
/// directly, names case-insensitively.
pub open spec fn spec_color_value(c: Color) -> Option<TermColor> {
    match c {
        Color::Fixed(v) => Some(TermColor::Fixed(v)),
        Color::RGB { r, g, b } => Some(TermColor::Rgb(r, g, b)),
        Color::Named(s) => spec_named_color(lower_of(s@)),
    }
}

/// The message reported for a color name that is not in the ANSI palette.
pub open spec fn spec_color_error_message(s: Seq<char>) -> Seq<char> {
    ("could not parse color: '")@ + s + (
    "' is not a valid color name. Expected one of: black, red, green, yellow, blue, purple, cyan, white")@
}

/// The terminal color of a configured color, or a `Deserialization` error
/// naming the unknown color name.
pub fn color_value(c: &Color) -> (res: Result<TermColor, Error>)
    ensures
        match spec_color_value(*c) {
            Some(tc) => res == Result::<TermColor, Error>::Ok(tc),
            None => (res matches Err(e) && e.kind == ErrorKind::Deserialization && (c matches
                Color::Named(s) && e.message@ == spec_color_error_message(s@)) && e.status is None),
        },
{
    match c {
        Color::Fixed(v) => Ok(TermColor::Fixed(*v)),
        Color::RGB { r, g, b } => Ok(TermColor::Rgb(*r, *g, *b)),
        Color::Named(s) => {
            let folded = lowercase(s.as_str());
            if str_eq(folded.as_str(), "black") {
                Ok(TermColor::Black)
            } else if str_eq(folded.as_str(), "red") {
                Ok(TermColor::Red)
            } else if str_eq(folded.as_str(), "green") {
                Ok(TermColor::Green)
            } else if str_eq(folded.as_str(), "yellow") {
                Ok(TermColor::Yellow)
            } else if str_eq(folded.as_str(), "blue") {
                Ok(TermColor::Blue)
            } else if str_eq(folded.as_str(), "purple") {
                Ok(TermColor::Purple)
            } else if str_eq(folded.as_str(), "cyan") {
                Ok(TermColor::Cyan)
            } else if str_eq(folded.as_str(), "white") {
                Ok(TermColor::White)
            } else {
                let mut m = crate::strutil::concat_strs("could not parse color: '", s.as_str());
                m.append(
                    "' is not a valid color name. Expected one of: black, red, green, yellow, blue, purple, cyan, white",
                );
                Err(Error { message: m, kind: ErrorKind::Deserialization, status: None })
            }
        },
    }
}

/// An optional configured color resolved to an optional terminal color;
/// `None` of the outer option means the configured color is invalid.
pub open spec fn spec_opt_color(c: Option<Color>) -> Option<Option<TermColor>> {
    match c {
        None => Some(None),
        Some(cv) => match spec_color_value(cv) {
            Some(v) => Some(Some(v)),
            None => None,
        },
    }
}

/// The style a configured highlight denotes, when both its colors are valid.
pub open spec fn spec_parse_config_color(cc: ConfigColor) -> Option<Style> {
    match (spec_opt_color(cc.color), spec_opt_color(cc.background)) {
        (Some(fg), Some(bg)) => Some(
            Style {
                foreground: fg,
                background: bg,
                is_bold: cc.bold == Some(true),
                is_underline: cc.underline == Some(true),
                is_italic: cc.italic == Some(true),
                is_reverse: cc.inverse == Some(true),
            },
        ),
        _ => None,
    }
}

impl ConfigColor {
    /// The concrete style this configuration denotes, or the
    /// `Deserialization` error of its first invalid color.
    pub fn parse(&self) -> (res: Result<Style, Error>)
        ensures
            match spec_parse_config_color(*self) {
                Some(st) => res == Result::<Style, Error>::Ok(st),
                None => (res matches Err(e) && e.kind == ErrorKind::Deserialization && e.status
                    is None),
            },
    {
        let foreground = match &self.color {
            Some(c) => match color_value(c) {
                Ok(v) => Some(v),
                Err(e) => {
                    return Err(e);
                },
            },
            None => None,
        };
        let background = match &self.background {
            Some(c) => match color_value(c) {
                Ok(v) => Some(v),
                Err(e) => {
                    return Err(e);
                },
            },
            None => None,
        };
        Ok(
            Style {
                foreground,
                background,
                is_bold: self.bold == Some(true),
                is_underline: self.underline == Some(true),
                is_italic: self.italic == Some(true),
                is_reverse: self.inverse == Some(true),
            },
        )
    }
}

/// The default highlight styles, used where the configuration overrides
/// nothing.
pub open spec fn spec_default_styles() -> StyleMap {
    StyleMap {
        important: Style {
            foreground: Some(TermColor::Red),
            background: None,
            is_bold: true,
            is_underline: false,
            is_italic: false,
            is_reverse: false,
        },
        special: Style { foreground: Some(TermColor::Cyan), ..spec_plain_style() },
        repo: Style { foreground: Some(TermColor::Cyan), ..spec_plain_style() },
        origin: Style { foreground: Some(TermColor::Green), ..spec_plain_style() },
        remote: Style { foreground: Some(TermColor::Green), ..spec_plain_style() },
        username: Style { foreground: Some(TermColor::Green), ..spec_plain_style() },
        path: Style { foreground: Some(TermColor::Cyan), ..spec_plain_style() },
        protocol: Style { foreground: Some(TermColor::Cyan), ..spec_plain_style() },
        url: Style { foreground: Some(TermColor::Purple), ..spec_plain_style() },
        commit: Style { foreground: Some(TermColor::Green), ..spec_plain_style() },
        date: spec_plain_style(),
        author: spec_plain_style(),
        commit_msg: Style { foreground: Some(TermColor::Cyan), ..spec_plain_style() },
        warning: Style { foreground: Some(TermColor::Yellow), ..spec_plain_style() },
    }
}

/// The highlight a configuration key names, if any.
pub open spec fn spec_highlight_for_key(k: Seq<char>) -> Option<Highlight> {
    if k == ("important")@ {
        Some(Highlight::Important)
    } else if k == ("special")@ {
        Some(Highlight::Special)
    } else if k == ("repo")@ {
        Some(Highlight::Repo)
    } else if k == ("origin")@ {
        Some(Highlight::Origin)
    } else if k == ("remote")@ {
        Some(Highlight::Remote)
    } else if k == ("username")@ {
        Some(Highlight::Username)
    } else if k == ("path")@ {
        Some(Highlight::Path)
    } else if k == ("protocol")@ {
        Some(Highlight::Protocol)
    } else if k == ("url")@ {
        Some(Highlight::Url)
    } else if k == ("commit")@ {
        Some(Highlight::Commit)
    } else if k == ("date")@ {
        Some(Highlight::Date)
    } else if k == ("author")@ {
        Some(Highlight::Author)
    } else if k == ("commit_msg")@ {
        Some(Highlight::CommitMsg)
    } else if k == ("warning")@ {
        Some(Highlight::Warning)
    } else {
        None
    }
}

/// The style map with one highlight replaced.
pub open spec fn spec_set_style(m: StyleMap, h: Highlight, s: Style) -> StyleMap {
    match h {
        Highlight::Important => StyleMap { important: s, ..m },
        Highlight::Special => StyleMap { special: s, ..m },
        Highlight::Repo => StyleMap { repo: s, ..m },
        Highlight::Origin => StyleMap { origin: s, ..m },
        Highlight::Remote => StyleMap { remote: s, ..m },
        Highlight::Username => StyleMap { username: s, ..m },
        Highlight::Path => StyleMap { path: s, ..m },
        Highlight::Protocol => StyleMap { protocol: s, ..m },
        Highlight::Url => StyleMap { url: s, ..m },
        Highlight::Commit => StyleMap { commit: s, ..m },
        Highlight::Date => StyleMap { date: s, ..m },
        Highlight::Author => StyleMap { author: s, ..m },
        Highlight::CommitMsg => StyleMap { commit_msg: s, ..m },
        Highlight::Warning => StyleMap { warning: s, ..m },
    }
}

/// The style map the configured overrides denote over a base map, walking
/// the entries in order; `None` when an entry names an unknown highlight or
/// an invalid color.
pub open spec fn spec_parse_highlights(m: StyleMap, s: Seq<TableEntry<ConfigColor>>) -> Option<
    StyleMap,
>
    decreases s.len(),
{
    if s.len() == 0 {
        Some(m)
    } else {
        match spec_highlight_for_key(s[0].name@) {
            None => None,
            Some(h) => match spec_parse_config_color(s[0].value) {
                None => None,
                Some(st) => spec_parse_highlights(spec_set_style(m, h, st), s.drop_first()),
            },
        }
    }
}

impl ConfigColorMap {
    /// The configured override for one highlight key.
    pub fn get(&self, key: &str) -> (r: Option<&ConfigColor>)
        ensures
            match spec_find(self.0@, key@) {
                Some(v) => r matches Some(rv) && *rv == v,
                None => r is None,
            },
    {
        self.0.get(key)
    }

    /// The default highlight styles.
    pub fn default_highlights() -> (r: StyleMap)
        ensures
            r == spec_default_styles(),
    {
        let plain = Style::plain();
        StyleMap {
            important: Style {
                foreground: Some(TermColor::Red),
                background: None,
                is_bold: true,
                is_underline: false,
                is_italic: false,
                is_reverse: false,
            },
            special: Style { foreground: Some(TermColor::Cyan), ..plain },
            repo: Style { foreground: Some(TermColor::Cyan), ..plain },
            origin: Style { foreground: Some(TermColor::Green), ..plain },
            remote: Style { foreground: Some(TermColor::Green), ..plain },
            username: Style { foreground: Some(TermColor::Green), ..plain },
            path: Style { foreground: Some(TermColor::Cyan), ..plain },
            protocol: Style { foreground: Some(TermColor::Cyan), ..plain },
            url: Style { foreground: Some(TermColor::Purple), ..plain },
            commit: Style { foreground: Some(TermColor::Green), ..plain },
            date: plain,
            author: plain,
            commit_msg: Style { foreground: Some(TermColor::Cyan), ..plain },
            warning: Style { foreground: Some(TermColor::Yellow), ..plain },
        }
    }

    /// Validate the configured overrides over the defaults: the resulting
    /// style map, or a `Deserialization` error for the first entry naming an
    /// unknown highlight or an invalid color.
    #[verifier::loop_isolation(false)]
    pub fn parse_highlights(&self) -> (res: Result<StyleMap, Error>)
        ensures
            match spec_parse_highlights(spec_default_styles(), self.0@) {
                Some(m) => res matches Ok(got) && got == m,
                None => (res matches Err(e) && e.kind == ErrorKind::Deserialization && e.status
                    is None),
            },
    {
        let mut map = Self::default_highlights();
        let entries = self.0.entries();
        let n = entries.len();
        proof {
            assert(self.0@.subrange(0, n as int) =~= self.0@);
        }
        let mut i: usize = 0;
        while i < n
            invariant
                i <= n,
                spec_parse_highlights(spec_default_styles(), self.0@) == spec_parse_highlights(
                    map,
                    self.0@.subrange(i as int, n as int),
                ),
            decreases n - i,
        {
            let ghost rem = self.0@.subrange(i as int, n as int);
            proof {
                assert(rem[0] == self.0@[i as int]);
                assert(rem.drop_first() =~= self.0@.subrange(i + 1, n as int));
            }
            let entry = &entries[i];
            let key = entry.name.as_str();
            let highlight = if str_eq(key, "important") {
                Highlight::Important
            } else if str_eq(key, "special") {
                Highlight::Special
            } else if str_eq(key, "repo") {
                Highlight::Repo
            } else if str_eq(key, "origin") {
                Highlight::Origin
            } else if str_eq(key, "remote") {
                Highlight::Remote
            } else if str_eq(key, "username") {
                Highlight::Username
            } else if str_eq(key, "path") {
                Highlight::Path
            } else if str_eq(key, "protocol") {
                Highlight::Protocol
            } else if str_eq(key, "url") {
                Highlight::Url
            } else if str_eq(key, "commit") {
                Highlight::Commit
            } else if str_eq(key, "date") {
                Highlight::Date
            } else if str_eq(key, "author") {
                Highlight::Author
            } else if str_eq(key, "commit_msg") {
                Highlight::CommitMsg
            } else if str_eq(key, "warning") {
                Highlight::Warning
            } else {
                let mut m = crate::strutil::concat_strs(
                    "could not validate color config: '",
                    key,
                );
                m.append(
                    "' is not a valid highlight. Expected one of important, special, repo, origin, remote, username, path, protocol, url, commit, date, author, commit_msg, warning.",
                );
                return Err(Error { message: m, kind: ErrorKind::Deserialization, status: None });
            };
            let style = match entry.value.parse() {
                Ok(st) => st,
                Err(e) => {
                    return Err(e);
                },
            };
            match highlight {
                Highlight::Important => map.important = style,
                Highlight::Special => map.special = style,
                Highlight::Repo => map.repo = style,
                Highlight::Origin => map.origin = style,
                Highlight::Remote => map.remote = style,
                Highlight::Username => map.username = style,
                Highlight::Path => map.path = style,
                Highlight::Protocol => map.protocol = style,
                Highlight::Url => map.url = style,
                Highlight::Commit => map.commit = style,
                Highlight::Date => map.date = style,
                Highlight::Author => map.author = style,
                Highlight::CommitMsg => map.commit_msg = style,
                Highlight::Warning => map.warning = style,
            }
            i = i + 1;
        }
        proof {
            assert(self.0@.subrange(n as int, n as int) =~= Seq::<TableEntry<ConfigColor>>::empty());
        }
        Ok(map)
    }
}

} // verus!
