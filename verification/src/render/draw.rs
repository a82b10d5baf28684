//! Large-type text for the clock face: the time drawn in a FIGlet font and fitted to the
//! width it is shown in.

use figlet_rs::FIGfont;
use unicode_width::UnicodeWidthStr;
use vstd::prelude::*;

use crate::text::{chars_of, lines, lines_chars, slice_chars, string_of, trim, trim_chars};

verus! {

/// What the standard FIGlet font draws for a text, rows separated by line feeds; `None`
/// where the font has no figure for it.
pub uninterp spec fn figlet_standard(text: Seq<char>) -> Option<Seq<char>>;

/// How many terminal columns a text takes (`UnicodeWidthStr::width`).
pub uninterp spec fn unicode_width(text: Seq<char>) -> usize;

/// `FIGfont::standard`, `FIGfont::convert` and the figure's `Display`: the text drawn in
/// the standard font that ships with the crate. Stated: the result is a function of the
/// text, and an empty text has no figure (`convert` refuses an empty message). The
/// drawing itself is not described.
#[verifier::external_body]
fn figlet_art(text: &str) -> (r: Option<String>)
    ensures
        match r {
            Some(art) => figlet_standard(text@) == Some(art@),
            None => figlet_standard(text@) is None,
        },
        text@.len() == 0 ==> r is None,
{
    match FIGfont::standard() {
        Ok(font) => font.convert(text).map(|figure| figure.to_string()),
        Err(_) => None,
    }
}

/// `UnicodeWidthStr::width`: the display width of `text`, as a function of the text.
#[verifier::external_body]
fn display_width(text: &str) -> (r: usize)
    ensures
        r == unicode_width(text@),
{
    UnicodeWidthStr::width(text)
}

/// At most the first `n` characters of `line`.
pub open spec fn take_chars(line: Seq<char>, n: nat) -> Seq<char> {
    if n < line.len() {
        line.take(n as int)
    } else {
        line
    }
}

/// A line too wide for `max_width` columns, cut to `max_width` characters.
pub open spec fn fit_line(line: Seq<char>, max_width: nat) -> Seq<char> {
    if unicode_width(line) > max_width {
        take_chars(line, max_width)
    } else {
        line
    }
}

/// The lines of `ls` that are not blank, each fitted to `max_width`.
pub open spec fn fitted_lines(ls: Seq<Seq<char>>, max_width: nat) -> Seq<Seq<char>>
    decreases ls.len(),
{
    if ls.len() == 0 {
        Seq::empty()
    } else {
        let rest = fitted_lines(ls.drop_last(), max_width);
        if trim(ls.last()).len() == 0 {
            rest
        } else {
            rest.push(fit_line(ls.last(), max_width))
        }
    }
}

/// The rows to show for `text` given its drawing `art`: the text itself when there is no
/// drawing, else the drawing's non-blank rows fitted to `max_width`.
pub open spec fn spec_art_lines(text: Seq<char>, art: Option<Seq<char>>, max_width: nat) -> Seq<
    Seq<char>,
> {
    match art {
        None => seq![text],
        Some(a) => fitted_lines(lines(a), max_width),
    }
}

/// The rows to show for `text`, given what the FIGlet font drew for it.
pub fn art_lines(text: &str, art: Option<String>, max_width: usize) -> (r: Vec<String>)
    ensures
        r@.map_values(|s: String| s@) == spec_art_lines(
            text@,
            match art {
                Some(a) => Some(a@),
                None => None,
            },
            max_width as nat,
        ),
{
    let art = match art {
        None => {
            let mut r: Vec<String> = Vec::new();
            let t = string_of(&chars_of(text));
            r.push(t);
            assert(r@.map_values(|s: String| s@) =~= seq![text@]);
            return r;
        },
        Some(a) => a,
    };
    let ls = lines_chars(&chars_of(art.as_str()));
    let ghost lv = lines(art@);
    let mut r: Vec<String> = Vec::new();
    let mut i: usize = 0;
    while i < ls.len()
        invariant
            i <= ls.len(),
            ls@.map_values(|p: Vec<char>| p@) == lv,
            r@.map_values(|s: String| s@) == fitted_lines(lv.take(i as int), max_width as nat),
        decreases ls.len() - i,
    {
        let line = &ls[i];
        assert(line@ == lv[i as int]);
        assert(lv.take(i + 1).drop_last() =~= lv.take(i as int));
        assert(lv.take(i + 1).last() == lv[i as int]);
        let trimmed = trim_chars(line);
        if trimmed.len() > 0 {
            let whole = string_of(line);
            let fitted = if display_width(whole.as_str()) > max_width {
                if max_width < line.len() {
                    let head = slice_chars(line, 0, max_width);
                    assert(head@ =~= line@.take(max_width as int));
                    string_of(&head)
                } else {
                    whole
                }
            } else {
                whole
            };
            assert(fitted@ == fit_line(lv[i as int], max_width as nat));
            let ghost before = r@.map_values(|s: String| s@);
            r.push(fitted);
            assert(r@.map_values(|s: String| s@) =~= before.push(fitted@));
        }
        i += 1;
    }
    assert(lv.take(ls.len() as int) =~= lv);
    r
}

/// The rows of `text` drawn in the FIGlet font, blank rows left out and each row cut to
/// `max_width` characters when it is wider; the text itself when the font cannot draw it.
pub fn figlet_lines(text: &str, max_width: usize) -> (r: Vec<String>)
    ensures
        r@.map_values(|s: String| s@) == spec_art_lines(
            text@,
            figlet_standard(text@),
            max_width as nat,
        ),
        text@.len() == 0 ==> r@.map_values(|s: String| s@) == seq![text@],
{
    let art = figlet_art(text);
    art_lines(text, art, max_width)
}

/// The row as it is painted: the font's own characters are kept.
pub fn solidify_figlet_line(line: &str) -> (r: String)
    ensures
        r@ == line@,
{
    string_of(&chars_of(line))
}

} // verus!
