//! The style sheets of the popup.
use vstd::prelude::*;

use crate::config::paths::{join, join_path, Paths};
use crate::text::{chars_of, concat, nat_to_chars, nat_digits, string_of};

verus! {

/// Whether a character is dropped from a font name written into a style
/// sheet: quotes, backslashes and line breaks.
pub open spec fn css_unsafe(c: char) -> bool {
    c == '"' || c == '\\' || c == '\n' || c == '\r'
}

/// A text with the characters that could break out of a CSS string removed.
pub open spec fn css_string_spec(s: Seq<char>) -> Seq<char>
    decreases s.len(),
{
    if s.len() == 0 {
        Seq::empty()
    } else {
        let rest = css_string_spec(s.drop_last());
        if css_unsafe(s.last()) {
            rest
        } else {
            rest.push(s.last())
        }
    }
}

/// A text made safe to stand inside a CSS string.
pub fn css_string(value: &str) -> (r: String)
    ensures
        r@ == css_string_spec(value@),
{
    let cs = chars_of(value);
    let mut out: Vec<char> = Vec::new();
    let mut i: usize = 0;
    while i < cs.len()
        invariant
            i <= cs.len(),
            cs@ == value@,
            out@ == css_string_spec(cs@.take(i as int)),
        decreases cs.len() - i,
    {
        assert(cs@.take(i + 1).drop_last() =~= cs@.take(i as int));
        let c = cs[i];
        if !(c == '"' || c == '\\' || c == '\n' || c == '\r') {
            out.push(c);
        }
        i = i + 1;
    }
    assert(cs@.take(cs.len() as int) =~= cs@);
    string_of(out.as_slice())
}

/// The font size a style sheet uses: the setting clamped to 8..=32 pixels.
pub open spec fn css_font_size(size: u8) -> nat {
    if size < 8 {
        8
    } else if size > 32 {
        32
    } else {
        size as nat
    }
}

/// The style sheet that applies the font settings and a transparent window.
pub open spec fn runtime_css_spec(font_family: Seq<char>, font_size: u8) -> Seq<char> {
    ".argvus-calendar, .event-editor { font-family: \""@ + css_string_spec(font_family)
        + "\", monospace; font-size: "@ + nat_digits(css_font_size(font_size))
        + "px; }\nwindow.argvus-calendar-window, .argvus-calendar-window { background-color: transparent; background-image: none; box-shadow: none; }"@
}

/// The style sheet that applies the font settings.
pub fn runtime_css(font_family: &str, font_size: u8) -> (r: String)
    ensures
        r@ == runtime_css_spec(font_family@, font_size),
{
    let family = css_string(font_family);
    let size: u8 = if font_size < 8 {
        8
    } else if font_size > 32 {
        32
    } else {
        font_size
    };
    let head = chars_of(".argvus-calendar, .event-editor { font-family: \"");
    let fam = chars_of(family.as_str());
    let mid = chars_of("\", monospace; font-size: ");
    let digits = nat_to_chars(size as u64);
    let tail = chars_of(
        "px; }\nwindow.argvus-calendar-window, .argvus-calendar-window { background-color: transparent; background-image: none; box-shadow: none; }",
    );
    let a = concat(head.as_slice(), fam.as_slice());
    let b = concat(a.as_slice(), mid.as_slice());
    let c = concat(b.as_slice(), digits.as_slice());
    let d = concat(c.as_slice(), tail.as_slice());
    string_of(d.as_slice())
}

/// The style sheets to load, lowest priority first: the user's, the
/// system theme, the active theme's file when there is one, and the cached
/// theme.
pub fn stylesheet_paths(paths: &Paths, active_theme: Option<&str>) -> (r: Vec<String>)
    ensures
        match active_theme {
            Some(t) => r@.len() == 4 && r@[2]@ == join_path(paths.theme_dir@, t@ + ".css"@)
                && r@[3]@ == paths.cache_theme_file@,
            None => r@.len() == 3 && r@[2]@ == paths.cache_theme_file@,
        },
        r@[0]@ == paths.user_style@,
        r@[1]@ == paths.theme_file@,
{
    let mut r: Vec<String> = Vec::new();
    r.push(paths.user_style.clone());
    r.push(paths.theme_file.clone());
    match active_theme {
        Some(t) => {
            let tv = chars_of(t);
            let ext = chars_of(".css");
            let file = concat(tv.as_slice(), ext.as_slice());
            let name = string_of(file.as_slice());
            r.push(join(paths.theme_dir.as_str(), name.as_str()));
        },
        None => {},
    }
    r.push(paths.cache_theme_file.clone());
    r
}

} // verus!
