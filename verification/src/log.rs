//! Presentation-layer data: the highlight categories, the map from highlight
//! to terminal style, and the text helpers the human-readable output uses.
//! Writing to the terminal is the caller's part.

use vstd::prelude::*;
use vstd::string::*;

use crate::colors::{spec_default_styles, spec_parse_highlights, ConfigColorMap, Style};
use crate::config::Config;
use crate::error::{Error, ErrorKind};
use crate::strutil::push_char;

verus! {

/// The highlight categories the output distinguishes.
#[derive(Debug, Copy, Hash, Clone, PartialEq, Eq, Structural)]
pub enum Highlight {
    Important,
    Special,
    Repo,
    Origin,
    Remote,
    Username,
    Path,
    Protocol,
    Url,
    Commit,
    Date,
    Author,
    CommitMsg,
    Warning,
}

/// One terminal style per highlight category.
#[derive(Debug, Clone, Copy, PartialEq, Eq, Structural)]
pub struct StyleMap {
    pub important: Style,
    pub special: Style,
    pub repo: Style,
    pub origin: Style,
    pub remote: Style,
    pub username: Style,
    pub path: Style,
    pub protocol: Style,
    pub url: Style,
    pub commit: Style,
    pub date: Style,
    pub author: Style,
    pub commit_msg: Style,
    pub warning: Style,
}

/// The style a map assigns to a highlight.
pub open spec fn spec_style_of(m: StyleMap, h: Highlight) -> Style {
    match h {
        Highlight::Important => m.important,
        Highlight::Special => m.special,
        Highlight::Repo => m.repo,
        Highlight::Origin => m.origin,
        Highlight::Remote => m.remote,
        Highlight::Username => m.username,
        Highlight::Path => m.path,
        Highlight::Protocol => m.protocol,
        Highlight::Url => m.url,
        Highlight::Commit => m.commit,
        Highlight::Date => m.date,
        Highlight::Author => m.author,
        Highlight::CommitMsg => m.commit_msg,
        Highlight::Warning => m.warning,
    }
}

impl StyleMap {
    /// The style for one highlight.
    pub fn get_style(&self, h: Highlight) -> (r: Style)
        ensures
            r == spec_style_of(*self, h),
    {
        match h {
            Highlight::Important => self.important,
            Highlight::Special => self.special,
            Highlight::Repo => self.repo,
            Highlight::Origin => self.origin,
            Highlight::Remote => self.remote,
            Highlight::Username => self.username,
            Highlight::Path => self.path,
            Highlight::Protocol => self.protocol,
            Highlight::Url => self.url,
            Highlight::Commit => self.commit,
            Highlight::Date => self.date,
            Highlight::Author => self.author,
            Highlight::CommitMsg => self.commit_msg,
            Highlight::Warning => self.warning,
        }
    }
}

/// A piece of text paired with the highlight it is rendered under.
#[derive(Debug, Clone, PartialEq)]
pub struct StyledString(pub String, pub Highlight);

/// Text that can be paired with a highlight for rendering.
pub trait Paint {
    /// The characters of the text.
    spec fn text_view(&self) -> Seq<char>;

    /// Pair the text with a highlight.
    fn paint(&self, highlight: Highlight) -> (r: StyledString)
        ensures
            r.0@ == self.text_view(),
            r.1 == highlight,
    ;
}

impl Paint for String {
    open spec fn text_view(&self) -> Seq<char> {
        self@
    }

    fn paint(&self, highlight: Highlight) -> (r: StyledString) {
        StyledString(self.clone(), highlight)
    }
}

impl Paint for str {
    open spec fn text_view(&self) -> Seq<char> {
        self@
    }

    fn paint(&self, highlight: Highlight) -> (r: StyledString) {
        StyledString(String::from_str(self), highlight)
    }
}

/// A sequence of `n` spaces.
pub open spec fn spec_spaces(n: nat) -> Seq<char> {
    Seq::new(n, |i: int| ' ')
}

/// Pad `s` on the right with spaces up to `width` bytes.
#[verifier::loop_isolation(false)]
pub fn leftpad(s: &str, width: usize) -> (r: String)
    ensures
        r@ == s@ + spec_spaces(if width >= s.spec_bytes().len() as usize {
            (width - s.spec_bytes().len() as usize) as nat
        } else {
            0nat
        }),
{
    let byte_len = s.len();
    let pad: usize = if width > byte_len {
        width - byte_len
    } else {
        0
    };
    let mut r = String::from_str(s);
    let mut k: usize = 0;
    while k < pad
        invariant
            k <= pad,
            r@ == s@ + spec_spaces(k as nat),
        decreases pad - k,
    {
        push_char(&mut r, ' ');
        proof {
            assert(r@ =~= s@ + spec_spaces((k + 1) as nat));
        }
        k = k + 1;
    }
    proof {
        if pad == 0 {
            assert(r@ =~= s@ + spec_spaces(0nat));
        }
        assert(pad as nat == (if width >= s.spec_bytes().len() as usize {
            (width - s.spec_bytes().len() as usize) as nat
        } else {
            0nat
        }));
    }
    r
}

/// The default highlight styles, used before a configuration is loaded.
pub fn load_default_colors() -> (r: Result<StyleMap, Error>)
    ensures
        r matches Ok(m) && m == spec_default_styles(),
{
    Ok(ConfigColorMap::default_highlights())
}

/// The highlight styles a configuration denotes: its overrides applied over
/// the defaults, or the defaults when it configures no colors.
pub fn load_colors(config: &Config) -> (r: Result<StyleMap, Error>)
    ensures
        match config.colors {
            None => (r matches Ok(m) && m == spec_default_styles()),
            Some(map) => (match spec_parse_highlights(spec_default_styles(), map.0@) {
                Some(m) => r matches Ok(got) && got == m,
                None => (r matches Err(e) && e.kind == ErrorKind::Deserialization && e.status
                    is None),
            }),
        },
{
    match &config.colors {
        Some(map) => map.parse_highlights(),
        None => Ok(ConfigColorMap::default_highlights()),
    }
}

} // verus!
