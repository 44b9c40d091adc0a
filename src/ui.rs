//! Text preparation for display: control sequences removed, long lines wrapped.
use vstd::prelude::*;
use unicode_width::UnicodeWidthStr;
use crate::text::{chars_of, lines_of, split_lines, string_of};

verus! {

/// `c` is an ASCII letter.
pub open spec fn is_ascii_alpha(c: char) -> bool {
    ('a' <= c && c <= 'z') || ('A' <= c && c <= 'Z')
}

/// `s` made printable: a tab becomes four spaces, carriage returns are dropped, and an
/// escape with what follows it is dropped (for `ESC [`, up to a letter that ends the
/// sequence). `esc` and `csi` tell whether an escape, or an `ESC [` sequence, is open.
pub open spec fn normalized(s: Seq<char>, esc: bool, csi: bool) -> Seq<char>
    decreases s.len(),
{
    if s.len() == 0 {
        Seq::empty()
    } else {
        let c = s[0];
        let rest = s.drop_first();
        if csi {
            normalized(rest, false, !is_ascii_alpha(c))
        } else if esc {
            normalized(rest, false, c == '[')
        } else if c == '\t' {
            seq![' ', ' ', ' ', ' '] + normalized(rest, false, false)
        } else if c == '\r' {
            normalized(rest, false, false)
        } else if c == '\x1b' {
            normalized(rest, true, false)
        } else {
            seq![c] + normalized(rest, false, false)
        }
    }
}

/// Strips terminal control sequences and expands tabs so that `text` can be shown as is.
pub fn normalize_text_for_ui(text: &str) -> (r: String)
    ensures
        r@ == normalized(text@, false, false),
{
    let v = chars_of(text);
    let mut out: Vec<char> = Vec::new();
    let mut esc = false;
    let mut csi = false;
    let mut i: usize = 0;
    assert(v@.subrange(0, v@.len() as int) =~= v@);
    while i < v.len()
        invariant
            i <= v@.len(),
            v@ == text@,
            !(esc && csi),
            out@ + normalized(v@.subrange(i as int, v@.len() as int), esc, csi) == normalized(
                text@,
                false,
                false,
            ),
        decreases v@.len() - i,
    {
        let c = v[i];
        let ghost before = out@;
        let ghost rest = v@.subrange(i + 1, v@.len() as int);
        assert(v@.subrange(i as int, v@.len() as int).drop_first() =~= rest);
        assert(v@.subrange(i as int, v@.len() as int)[0] == c);
        if csi {
            if ('a' <= c && c <= 'z') || ('A' <= c && c <= 'Z') {
                csi = false;
            }
        } else if esc {
            esc = false;
            if c == '[' {
                csi = true;
            }
        } else if c == '\t' {
            out.push(' ');
            out.push(' ');
            out.push(' ');
            out.push(' ');
            assert(out@ =~= before + seq![' ', ' ', ' ', ' ']);
        } else if c == '\r' {
        } else if c == '\x1b' {
            esc = true;
        } else {
            out.push(c);
        }
        i = i + 1;
        assert(out@ + normalized(rest, esc, csi) =~= normalized(text@, false, false));
    }
    string_of(&out)
}

pub uninterp spec fn cell_width(c: char) -> usize;

/// Relies on `unicode_width::UnicodeWidthStr::width`: the display width, in columns, of
/// the one-character string holding `c`, which depends on `c` alone.
#[verifier::external_body]
fn char_cell_width(c: char) -> (r: usize)
    ensures
        r == cell_width(c),
{
    let mut buf = [0u8; 4];
    UnicodeWidthStr::width(&*c.encode_utf8(&mut buf))
}

/// One line wrapped at `maxw` columns, `used` columns being taken already; a newline ends it.
/// Zero-width characters never start a new row.
pub open spec fn wrapped_line(l: Seq<char>, used: int, maxw: int) -> Seq<char>
    decreases l.len(),
{
    if l.len() == 0 {
        seq!['\n']
    } else {
        let c = l[0];
        let w = cell_width(c) as int;
        if w == 0 {
            seq![c] + wrapped_line(l.drop_first(), used, maxw)
        } else if used + w > maxw {
            seq!['\n', c] + wrapped_line(l.drop_first(), w, maxw)
        } else {
            seq![c] + wrapped_line(l.drop_first(), used + w, maxw)
        }
    }
}

/// Every line wrapped, in order.
pub open spec fn wrapped_lines(ls: Seq<Seq<char>>, maxw: int) -> Seq<char>
    decreases ls.len(),
{
    if ls.len() == 0 {
        Seq::empty()
    } else {
        wrapped_lines(ls.drop_last(), maxw) + wrapped_line(ls.last(), 0, maxw)
    }
}

/// The column limit a requested width gives: at least one.
pub open spec fn column_limit(width: u16) -> int {
    if width == 0 {
        1
    } else {
        width as int
    }
}

fn wrap_line_into(out: &mut Vec<char>, l: &Vec<char>, maxw: usize)
    requires
        maxw >= 1,
    ensures
        final(out)@ == old(out)@ + wrapped_line(l@, 0, maxw as int),
{
    let ghost start = old(out)@;
    let mut used: usize = 0;
    let mut i: usize = 0;
    assert(l@.subrange(0, l@.len() as int) =~= l@);
    while i < l.len()
        invariant
            i <= l@.len(),
            out@ + wrapped_line(l@.subrange(i as int, l@.len() as int), used as int, maxw as int)
                == start + wrapped_line(l@, 0, maxw as int),
        decreases l@.len() - i,
    {
        let c = l[i];
        let w = char_cell_width(c);
        let ghost before = out@;
        let ghost rest = l@.subrange(i + 1, l@.len() as int);
        assert(l@.subrange(i as int, l@.len() as int).drop_first() =~= rest);
        assert(l@.subrange(i as int, l@.len() as int)[0] == c);
        if w == 0 {
            out.push(c);
        } else if w > maxw || used > maxw - w {
            out.push('\n');
            out.push(c);
            assert(out@ =~= before + seq!['\n', c]);
            used = w;
        } else {
            out.push(c);
            used = used + w;
        }
        i = i + 1;
        assert(out@ + wrapped_line(rest, used as int, maxw as int) =~= start + wrapped_line(
            l@,
            0,
            maxw as int,
        ));
    }
    let ghost before = out@;
    out.push('\n');
    assert(out@ =~= before + wrapped_line(l@.subrange(i as int, l@.len() as int), used as int, maxw as int));
}

/// Breaks each line of `text` so that no row is wider than `width` columns (at least one),
/// a character wider than the limit standing on a row of its own; every line ends with a
/// newline.
pub fn prewrap_text(text: &str, width: u16) -> (r: String)
    ensures
        r@ == wrapped_lines(lines_of(text@), column_limit(width)),
{
    let maxw: usize = if width == 0 {
        1
    } else {
        width as usize
    };
    let lines = split_lines(&chars_of(text));
    let ghost ls = lines_of(text@);
    let mut out: Vec<char> = Vec::new();
    let mut i: usize = 0;
    while i < lines.len()
        invariant
            i <= lines@.len() == ls.len(),
            ls == lines_of(text@),
            maxw as int == column_limit(width),
            forall|k: int| 0 <= k < lines@.len() ==> #[trigger] lines@[k]@ == ls[k],
            out@ == wrapped_lines(ls.subrange(0, i as int), maxw as int),
        decreases lines@.len() - i,
    {
        wrap_line_into(&mut out, &lines[i], maxw);
        assert(ls.subrange(0, i + 1).drop_last() =~= ls.subrange(0, i as int));
        i = i + 1;
    }
    assert(ls.subrange(0, ls.len() as int) =~= ls);
    string_of(&out)
}

} // verus!
