//! Editable fields read from a configuration dump of loosely formatted `key / value` lines.
use vstd::prelude::*;
use crate::text::{
    chars_of, is_whitespace, is_ws, lines_of, replace_char, replace_char_exec, slice_of,
    split_from, split_lines, split_n, string_of, trim, trim_chars,
};

verus! {

/// One editable setting: its key, the value being edited, the value read, and whether
/// the two differ.
#[derive(Debug, Clone)]
pub struct ConfigField {
    pub key: String,
    pub value: String,
    pub original: String,
    pub modified: bool,
}

/// `c` is the ASCII letter or character `l`, ignoring ASCII case (`l` given in lower case).
pub open spec fn ascii_eq_ci(c: char, l: char) -> bool {
    c == l || ('a' <= l && l <= 'z' && (c as u32) + 32 == (l as u32))
}

/// `s` starts with `p`, ignoring ASCII case (`p` given in lower case).
pub open spec fn starts_with_ci(s: Seq<char>, p: Seq<char>) -> bool {
    s.len() >= p.len() && forall|i: int| 0 <= i < p.len() ==> ascii_eq_ci(#[trigger] s[i], p[i])
}

/// `s` equals `p`, ignoring ASCII case.
pub open spec fn eq_ci(s: Seq<char>, p: Seq<char>) -> bool {
    s.len() == p.len() && starts_with_ci(s, p)
}

pub open spec fn is_form_rule_char(c: char) -> bool {
    c == '-' || c == '+' || c == '|' || c == '┼' || c == '─' || is_ws(c)
}

/// The alternate vertical bars replaced by `|`.
pub open spec fn normalize_bars(s: Seq<char>) -> Seq<char> {
    replace_char(replace_char(replace_char(replace_char(s, '│', '|'), '┃', '|'), '┆', '|'), '¦', '|')
}

/// Trailing colons removed.
pub open spec fn trim_end_colons(s: Seq<char>) -> Seq<char>
    decreases s.len(),
{
    if s.len() > 0 && s.last() == ':' {
        trim_end_colons(s.drop_last())
    } else {
        s
    }
}

/// A pair split at the first `c`, both sides trimmed, if `c` occurs.
pub open spec fn split_pair(t: Seq<char>, c: char) -> Option<(Seq<char>, Seq<char>)> {
    if t.contains(c) {
        let p = split_from(t, c, 0, 2);
        Some((trim(p[0]), trim(p[1])))
    } else {
        None
    }
}

/// `key | value`.
pub open spec fn kv_pipe(t: Seq<char>) -> Option<(Seq<char>, Seq<char>)> {
    match split_pair(t, '|') {
        Some((k, v)) => if k.len() > 0 {
            Some((k, v))
        } else {
            None
        },
        None => None,
    }
}

/// `key=value`; colons that end the key are dropped.
pub open spec fn kv_equals(t: Seq<char>) -> Option<(Seq<char>, Seq<char>)> {
    match split_pair(t, '=') {
        Some((k, v)) => if trim_end_colons(k).len() > 0 {
            Some((trim_end_colons(k), v))
        } else {
            None
        },
        None => None,
    }
}

/// `key: value`, unless the key is `config` in any ASCII case (a title line).
pub open spec fn kv_colon(t: Seq<char>) -> Option<(Seq<char>, Seq<char>)> {
    match split_pair(t, ':') {
        Some((k, v)) => if k.len() > 0 && !eq_ci(k, "config"@) {
            Some((k, v))
        } else {
            None
        },
        None => None,
    }
}

/// `key<TAB>value`.
pub open spec fn kv_tab(t: Seq<char>) -> Option<(Seq<char>, Seq<char>)> {
    match split_pair(t, '\t') {
        Some((k, v)) => if k.len() > 0 {
            Some((k, v))
        } else {
            None
        },
        None => None,
    }
}

/// Index of the first run of two spaces at or after `i`, or the length.
pub open spec fn double_space_at(t: Seq<char>, i: int) -> int
    decreases t.len() - i,
{
    if i < 0 || i + 1 >= t.len() {
        t.len() as int
    } else if t[i] == ' ' && t[i + 1] == ' ' {
        i
    } else {
        double_space_at(t, i + 1)
    }
}

/// End of the run of spaces that starts at `j`.
pub open spec fn space_run_end(t: Seq<char>, j: int) -> int
    decreases t.len() - j,
{
    if j >= 0 && j < t.len() && t[j] == ' ' {
        space_run_end(t, j + 1)
    } else {
        j
    }
}

/// `key  value`: the first run of two or more spaces is the column boundary.
pub open spec fn kv_spaces(t: Seq<char>) -> Option<(Seq<char>, Seq<char>)> {
    let i = double_space_at(t, 0);
    if i + 1 < t.len() {
        let j = space_run_end(t, i + 2);
        let k = trim(t.subrange(0, i));
        let v = trim(t.subrange(j, t.len() as int));
        if k.len() > 0 && v.len() > 0 {
            Some((k, v))
        } else {
            None
        }
    } else {
        None
    }
}

/// A line that is no setting: blank, a comment, a header, or a table ruler.
pub open spec fn is_form_skipped(raw: Seq<char>) -> bool {
    raw.len() == 0 || raw[0] == '#' || starts_with_ci(raw, "key"@) || starts_with_ci(
        raw,
        "config"@,
    ) || (forall|i: int| 0 <= i < raw.len() ==> is_form_rule_char(#[trigger] raw[i]))
}

/// The first of the five heuristics that yields a non-empty key, in their fixed order.
pub open spec fn first_pair(t: Seq<char>) -> Option<(Seq<char>, Seq<char>)> {
    if kv_pipe(t) is Some {
        kv_pipe(t)
    } else if kv_equals(t) is Some {
        kv_equals(t)
    } else if kv_colon(t) is Some {
        kv_colon(t)
    } else if kv_tab(t) is Some {
        kv_tab(t)
    } else {
        kv_spaces(t)
    }
}

/// One trailing colon removed.
pub open spec fn strip_colon(k: Seq<char>) -> Seq<char> {
    if k.len() > 0 && k.last() == ':' {
        k.drop_last()
    } else {
        k
    }
}

/// The setting one line of a configuration dump holds, if any.
pub open spec fn config_line(line: Seq<char>) -> Option<(Seq<char>, Seq<char>)> {
    let raw = trim(line);
    if is_form_skipped(raw) {
        None
    } else {
        match first_pair(normalize_bars(raw)) {
            Some((k, v)) => if strip_colon(k).len() > 0 {
                Some((strip_colon(k), v))
            } else {
                None
            },
            None => None,
        }
    }
}

/// The settings of a configuration dump, in the order of their lines.
pub open spec fn config_pairs(text: Seq<char>) -> Seq<(Seq<char>, Seq<char>)> {
    lines_of(text).filter_map(|l: Seq<char>| config_line(l))
}

fn has_char(v: &Vec<char>, c: char) -> (r: bool)
    ensures
        r == v@.contains(c),
{
    let mut i: usize = 0;
    while i < v.len()
        invariant
            i <= v@.len(),
            forall|k: int| 0 <= k < i ==> v@[k] != c,
        decreases v@.len() - i,
    {
        if v[i] == c {
            assert(v@[i as int] == c);
            return true;
        }
        i = i + 1;
    }
    false
}

pub fn ascii_eq_ci_exec(c: char, l: char) -> (r: bool)
    ensures
        r == ascii_eq_ci(c, l),
{
    c == l || ('a' <= l && l <= 'z' && (c as u32) + 32 == (l as u32))
}

pub fn starts_with_ci_exec(s: &Vec<char>, p: &Vec<char>) -> (r: bool)
    ensures
        r == starts_with_ci(s@, p@),
{
    if s.len() < p.len() {
        return false;
    }
    let mut i: usize = 0;
    while i < p.len()
        invariant
            i <= p@.len() <= s@.len(),
            forall|k: int| 0 <= k < i ==> ascii_eq_ci(#[trigger] s@[k], p@[k]),
        decreases p@.len() - i,
    {
        if !ascii_eq_ci_exec(s[i], p[i]) {
            return false;
        }
        i = i + 1;
    }
    true
}

fn is_form_skipped_exec(raw: &Vec<char>) -> (r: bool)
    ensures
        r == is_form_skipped(raw@),
{
    proof {
        reveal_strlit("key");
        reveal_strlit("config");
    }
    if raw.len() == 0 || raw[0] == '#' {
        return true;
    }
    if starts_with_ci_exec(raw, &chars_of("key")) || starts_with_ci_exec(raw, &chars_of("config")) {
        return true;
    }
    let mut i: usize = 0;
    while i < raw.len()
        invariant
            i <= raw@.len(),
            raw@.len() > 0 && raw@[0] != '#',
            !starts_with_ci(raw@, "key"@) && !starts_with_ci(raw@, "config"@),
            forall|k: int| 0 <= k < i ==> is_form_rule_char(#[trigger] raw@[k]),
        decreases raw@.len() - i,
    {
        let c = raw[i];
        if !(c == '-' || c == '+' || c == '|' || c == '┼' || c == '─' || is_whitespace(c)) {
            assert(!is_form_rule_char(raw@[i as int]));
            return false;
        }
        i = i + 1;
    }
    true
}

fn split_pair_exec(t: &Vec<char>, c: char) -> (r: Option<(Vec<char>, Vec<char>)>)
    ensures
        r.is_some() == split_pair(t@, c).is_some(),
        r.is_some() ==> r.unwrap().0@ == split_pair(t@, c).unwrap().0 && r.unwrap().1@
            == split_pair(t@, c).unwrap().1,
{
    if !has_char(t, c) {
        return None;
    }
    proof {
        let k = choose|k: int| 0 <= k < t@.len() && t@[k] == c;
        crate::text::lemma_find_char_bounds(t@, c, 0);
        let f = crate::text::find_char(t@, c, 0);
        if f >= t@.len() {
            assert(t@[k] != c);
        }
        assert(split_from(t@, c, f + 1, 1) == seq![t@.subrange(f + 1, t@.len() as int)]);
        assert(split_from(t@, c, 0, 2) == seq![t@.subrange(0, f)] + split_from(t@, c, f + 1, 1));
        assert(split_from(t@, c, 0, 2).len() == 2);
    }
    let p = split_n(t, c, 2);
    Some((trim_chars(&p[0]), trim_chars(&p[1])))
}

fn trim_end_colons_exec(s: &Vec<char>) -> (r: Vec<char>)
    ensures
        r@ == trim_end_colons(s@),
{
    let mut hi: usize = s.len();
    assert(s@.subrange(0, hi as int) =~= s@);
    while hi > 0 && s[hi - 1] == ':'
        invariant
            hi <= s@.len(),
            trim_end_colons(s@) == trim_end_colons(s@.subrange(0, hi as int)),
        decreases hi,
    {
        assert(s@.subrange(0, hi as int).drop_last() =~= s@.subrange(0, hi - 1));
        hi = hi - 1;
    }
    slice_of(s, 0, hi)
}

fn eq_config_ci(k: &Vec<char>) -> (r: bool)
    ensures
        r == eq_ci(k@, "config"@),
{
    proof {
        reveal_strlit("config");
    }
    let p = chars_of("config");
    k.len() == p.len() && starts_with_ci_exec(k, &p)
}

fn first_pair_exec(t: &Vec<char>) -> (r: Option<(Vec<char>, Vec<char>)>)
    ensures
        r.is_some() == first_pair(t@).is_some(),
        r.is_some() ==> r.unwrap().0@ == first_pair(t@).unwrap().0 && r.unwrap().1@
            == first_pair(t@).unwrap().1,
{
    if let Some((k, v)) = split_pair_exec(t, '|') {
        if k.len() > 0 {
            return Some((k, v));
        }
    }
    if let Some((k, v)) = split_pair_exec(t, '=') {
        let k = trim_end_colons_exec(&k);
        if k.len() > 0 {
            return Some((k, v));
        }
    }
    if let Some((k, v)) = split_pair_exec(t, ':') {
        if k.len() > 0 && !eq_config_ci(&k) {
            return Some((k, v));
        }
    }
    if let Some((k, v)) = split_pair_exec(t, '\t') {
        if k.len() > 0 {
            return Some((k, v));
        }
    }
    split_at_spaces(t)
}

fn split_at_spaces(t: &Vec<char>) -> (r: Option<(Vec<char>, Vec<char>)>)
    ensures
        r.is_some() == kv_spaces(t@).is_some(),
        r.is_some() ==> r.unwrap().0@ == kv_spaces(t@).unwrap().0 && r.unwrap().1@ == kv_spaces(
            t@,
        ).unwrap().1,
{
    let n = t.len();
    let mut i: usize = 0;
    while i < n && i + 1 < n && !(t[i] == ' ' && t[i + 1] == ' ')
        invariant
            n == t@.len(),
            i <= n,
            double_space_at(t@, 0) == double_space_at(t@, i as int),
        decreases n - i,
    {
        i = i + 1;
    }
    if i >= n || i + 1 >= n {
        return None;
    }
    let mut j: usize = i + 2;
    while j < n && t[j] == ' '
        invariant
            i + 2 <= j <= n == t@.len(),
            space_run_end(t@, i + 2) == space_run_end(t@, j as int),
        decreases n - j,
    {
        j = j + 1;
    }
    let k = trim_chars(&slice_of(t, 0, i));
    let v = trim_chars(&slice_of(t, j, n));
    if k.len() > 0 && v.len() > 0 {
        Some((k, v))
    } else {
        None
    }
}

fn normalize_bars_exec(s: &Vec<char>) -> (r: Vec<char>)
    ensures
        r@ == normalize_bars(s@),
{
    let a = replace_char_exec(s, '│', '|');
    let b = replace_char_exec(&a, '┃', '|');
    let c = replace_char_exec(&b, '┆', '|');
    replace_char_exec(&c, '¦', '|')
}

/// The setting that one line of a configuration dump holds.
pub fn parse_config_line(line: &Vec<char>) -> (r: Option<(Vec<char>, Vec<char>)>)
    ensures
        r.is_some() == config_line(line@).is_some(),
        r.is_some() ==> r.unwrap().0@ == config_line(line@).unwrap().0 && r.unwrap().1@
            == config_line(line@).unwrap().1,
{
    let raw = trim_chars(line);
    if is_form_skipped_exec(&raw) {
        return None;
    }
    let t = normalize_bars_exec(&raw);
    match first_pair_exec(&t) {
        Some((k, v)) => {
            let mut k = k;
            if k.len() > 0 && k[k.len() - 1] == ':' {
                k.pop();
            }
            if k.len() > 0 {
                Some((k, v))
            } else {
                None
            }
        },
        None => None,
    }
}

/// Reads the settings of a configuration dump as unmodified fields, in order.
pub fn parse_config_fields(text: &str) -> (r: Vec<ConfigField>)
    ensures
        r@.len() == config_pairs(text@).len(),
        forall|k: int|
            0 <= k < r@.len() ==> (#[trigger] r@[k]).key@ == config_pairs(text@)[k].0
                && r@[k].value@ == config_pairs(text@)[k].1 && r@[k].original@ == config_pairs(
                text@,
            )[k].1 && !r@[k].modified,
{
    let lines = split_lines(&chars_of(text));
    let ghost ls = lines_of(text@);
    let ghost done: Seq<(Seq<char>, Seq<char>)> = Seq::empty();
    let mut r: Vec<ConfigField> = Vec::new();
    let mut i: usize = 0;
    while i < lines.len()
        invariant
            i <= lines@.len() == ls.len(),
            ls == lines_of(text@),
            forall|k: int| 0 <= k < lines@.len() ==> #[trigger] lines@[k]@ == ls[k],
            done == ls.subrange(0, i as int).filter_map(|l: Seq<char>| config_line(l)),
            r@.len() == done.len(),
            forall|k: int|
                0 <= k < r@.len() ==> (#[trigger] r@[k]).key@ == done[k].0 && r@[k].value@
                    == done[k].1 && r@[k].original@ == done[k].1 && !r@[k].modified,
        decreases lines@.len() - i,
    {
        let pair = parse_config_line(&lines[i]);
        assert(ls.subrange(0, i + 1).drop_last() =~= ls.subrange(0, i as int));
        match pair {
            Some((k, v)) => {
                let value = string_of(&v);
                r.push(
                    ConfigField { key: string_of(&k), value: value.clone(), original: value, modified: false },
                );
                proof {
                    done = done.push((k@, v@));
                }
            },
            None => {},
        }
        i = i + 1;
        assert(done =~= ls.subrange(0, i as int).filter_map(|l: Seq<char>| config_line(l)));
    }
    assert(ls.subrange(0, ls.len() as int) =~= ls);
    r
}

} // verus!
