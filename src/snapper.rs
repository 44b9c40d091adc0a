//! Snapshot records and the parsers for the listing tables the snapshot tool prints.
use vstd::prelude::*;
use crate::text::{
    chars_of, is_whitespace, is_ws, lines_of, parse_u64, parse_u64_spec, replace_char,
    replace_char_exec, slice_of, split_from, split_lines, split_n, string_of, trim, trim_all,
    trim_chars, trim_each,
};
use vstd::string::*;
use crate::config_form::{ascii_eq_ci, eq_ci, starts_with_ci};
use crate::system::{elevated_args, run, Invocation, RunOutcome};
use crate::app::Task;
use crate::text::{concat, decimal, decimal_string};

verus! {

/// One snapshot of a configuration, as listed by the snapshot tool.
#[derive(Debug, Clone)]
pub struct Snapshot {
    pub id: u64,
    pub config: String,
    /// The tool's "type" column.
    pub kind: String,
    pub cleanup: String,
    pub user: String,
    pub date: String,
    pub description: String,
}

/// A named snapshot configuration.
#[derive(Debug, Clone)]
pub struct Config {
    pub name: String,
}

/// What a snapshot holds, as plain sequences.
pub ghost struct SnapshotView {
    pub id: u64,
    pub config: Seq<char>,
    pub kind: Seq<char>,
    pub cleanup: Seq<char>,
    pub user: Seq<char>,
    pub date: Seq<char>,
    pub description: Seq<char>,
}

impl View for Snapshot {
    type V = SnapshotView;

    open spec fn view(&self) -> SnapshotView {
        SnapshotView {
            id: self.id,
            config: self.config@,
            kind: self.kind@,
            cleanup: self.cleanup@,
            user: self.user@,
            date: self.date@,
            description: self.description@,
        }
    }
}

pub open spec fn snapshots_view(v: Seq<Snapshot>) -> Seq<SnapshotView> {
    v.map_values(|s: Snapshot| s@)
}

impl Snapshot {
    /// A copy that Verus can see is equal.
    pub fn duplicate(&self) -> (r: Snapshot)
        ensures
            r@ == self@,
    {
        Snapshot {
            id: self.id,
            config: self.config.clone(),
            kind: self.kind.clone(),
            cleanup: self.cleanup.clone(),
            user: self.user.clone(),
            date: self.date.clone(),
            description: self.description.clone(),
        }
    }
}

/// A copy of a list of snapshots.
pub fn duplicate_all(v: &Vec<Snapshot>) -> (r: Vec<Snapshot>)
    ensures
        snapshots_view(r@) == snapshots_view(v@),
{
    let mut r: Vec<Snapshot> = Vec::new();
    let mut i: usize = 0;
    while i < v.len()
        invariant
            i <= v@.len(),
            r@.len() == i,
            forall|j: int| 0 <= j < i ==> (#[trigger] r@[j])@ == v@[j]@,
        decreases v@.len() - i,
    {
        r.push(v[i].duplicate());
        i = i + 1;
    }
    assert(snapshots_view(r@) =~= snapshots_view(v@));
    r
}

/// Ruler characters of the tool's box-drawn tables.
pub open spec fn is_rule_char(c: char) -> bool {
    c == '─' || c == '┼' || is_ws(c)
}

/// A trimmed row that holds no record: blank, a comment, a dashed or box-drawn ruler.
pub open spec fn is_skipped_row(lt: Seq<char>) -> bool {
    lt.len() == 0 || lt[0] == '#' || (lt.len() >= 3 && lt[0] == '-' && lt[1] == '-' && lt[2]
        == '-') || lt.contains('┼') || (forall|i: int|
        0 <= i < lt.len() ==> is_rule_char(#[trigger] lt[i]))
}

pub open spec fn no_description() -> Seq<char> {
    "(no description)"@
}

pub open spec fn bracketed(s: Seq<char>) -> Seq<char> {
    seq!['['] + s + seq![']']
}

/// A tag that says something: neither empty nor a lone dash.
pub open spec fn is_informative(s: Seq<char>) -> bool {
    s.len() > 0 && s != seq!['-']
}

/// The description shown for a snapshot that has none: the cleanup tag, else the
/// type tag, in brackets, else a fixed marker.
pub open spec fn placeholder(cleanup: Seq<char>, kind: Seq<char>) -> Seq<char> {
    if is_informative(cleanup) {
        bracketed(cleanup)
    } else if is_informative(kind) {
        bracketed(kind)
    } else {
        no_description()
    }
}

/// The trimmed fields of a row of the column layout
/// `id | date | user | description | cleanup | type`, at most six.
pub open spec fn column_fields(lt: Seq<char>) -> Seq<Seq<char>> {
    trim_all(split_from(replace_char(lt, '│', '|'), '|', 0, 6))
}

/// The record of one line of the column layout, if it holds one. Rows of three to
/// five fields are read in the older `id | date | description` shape.
pub open spec fn column_row(line: Seq<char>, config: Seq<char>) -> Option<SnapshotView> {
    let lt = trim(line);
    let f = column_fields(lt);
    if is_skipped_row(lt) || f.len() < 3 {
        None
    } else {
        match parse_u64_spec(f[0]) {
            None => None,
            Some(id) => if f.len() == 6 {
                Some(
                    SnapshotView {
                        id,
                        config,
                        kind: f[5],
                        cleanup: f[4],
                        user: f[2],
                        date: f[1],
                        description: if f[3].len() == 0 {
                            placeholder(f[4], f[5])
                        } else {
                            f[3]
                        },
                    },
                )
            } else {
                Some(
                    SnapshotView {
                        id,
                        config,
                        kind: Seq::empty(),
                        cleanup: Seq::empty(),
                        user: Seq::empty(),
                        date: f[1],
                        description: if f[2].len() == 0 {
                            no_description()
                        } else {
                            f[2]
                        },
                    },
                )
            },
        }
    }
}

/// The trimmed fields of a row of the tool's default wide table, split at every bar.
pub open spec fn table_fields(lt: Seq<char>) -> Seq<Seq<char>> {
    trim_all(split_from(replace_char(lt, '│', '|'), '|', 0, usize::MAX as int))
}

/// The record of one line of the default wide table
/// `id | type | pre | date | user | cleanup | description | ...`, if it holds one.
/// Rows of four to six fields give id, type, date and their last field as description.
pub open spec fn table_row(line: Seq<char>, config: Seq<char>) -> Option<SnapshotView> {
    let lt = trim(line);
    let p = table_fields(lt);
    if is_skipped_row(lt) || p.len() < 4 {
        None
    } else {
        match parse_u64_spec(p[0]) {
            None => None,
            Some(id) => if p.len() >= 7 {
                Some(
                    SnapshotView {
                        id,
                        config,
                        kind: p[1],
                        cleanup: p[5],
                        user: Seq::empty(),
                        date: p[3],
                        description: if p[6].len() == 0 {
                            placeholder(p[5], p[1])
                        } else {
                            p[6]
                        },
                    },
                )
            } else {
                Some(
                    SnapshotView {
                        id,
                        config,
                        kind: p[1],
                        cleanup: Seq::empty(),
                        user: Seq::empty(),
                        date: p[3],
                        description: if p.last().len() == 0 {
                            no_description()
                        } else {
                            p.last()
                        },
                    },
                )
            },
        }
    }
}

/// The records that the given lines of the column layout hold, in order.
pub open spec fn column_rows(lines: Seq<Seq<char>>, config: Seq<char>) -> Seq<SnapshotView> {
    lines.filter_map(|l: Seq<char>| column_row(l, config))
}

/// The records that the given lines of the default wide table hold, in order.
pub open spec fn table_rows(lines: Seq<Seq<char>>, config: Seq<char>) -> Seq<SnapshotView> {
    lines.filter_map(|l: Seq<char>| table_row(l, config))
}

/// The records of a listing in the column layout, in the order of their lines.
pub open spec fn column_listing(text: Seq<char>, config: Seq<char>) -> Seq<SnapshotView> {
    column_rows(lines_of(text), config)
}

/// The records of a listing in the default wide table, in the order of their lines.
pub open spec fn table_listing(text: Seq<char>, config: Seq<char>) -> Seq<SnapshotView> {
    table_rows(lines_of(text), config)
}

fn is_skipped_row_exec(lt: &Vec<char>) -> (r: bool)
    ensures
        r == is_skipped_row(lt@),
{
    let n = lt.len();
    if n == 0 || lt[0] == '#' || (n >= 3 && lt[0] == '-' && lt[1] == '-' && lt[2] == '-') {
        return true;
    }
    let mut i: usize = 0;
    let mut all_rule = true;
    while i < n
        invariant
            n == lt@.len(),
            i <= n,
            forall|k: int| 0 <= k < i ==> lt@[k] != '┼',
            all_rule == (forall|k: int| 0 <= k < i ==> is_rule_char(#[trigger] lt@[k])),
        decreases n - i,
    {
        let c = lt[i];
        if c == '┼' {
            assert(lt@.contains('┼')) by {
                assert(lt@[i as int] == '┼');
            }
            return true;
        }
        if !(c == '─' || is_whitespace(c)) {
            all_rule = false;
        }
        i = i + 1;
    }
    all_rule
}

fn no_description_exec() -> (r: String)
    ensures
        r@ == no_description(),
{
    String::from_str("(no description)")
}

fn is_informative_exec(s: &Vec<char>) -> (r: bool)
    ensures
        r == is_informative(s@),
{
    if s.len() == 0 {
        false
    } else if s.len() == 1 && s[0] == '-' {
        assert(s@ =~= seq!['-']);
        false
    } else {
        assert(s@.len() != 1 || s@[0] != '-');
        true
    }
}

fn bracketed_exec(s: &Vec<char>) -> (r: String)
    ensures
        r@ == bracketed(s@),
{
    let mut v: Vec<char> = Vec::new();
    v.push('[');
    let mut i: usize = 0;
    while i < s.len()
        invariant
            i <= s@.len(),
            v@ == seq!['['] + s@.subrange(0, i as int),
        decreases s@.len() - i,
    {
        v.push(s[i]);
        i = i + 1;
        assert(v@ =~= seq!['['] + s@.subrange(0, i as int));
    }
    v.push(']');
    assert(s@.subrange(0, s@.len() as int) =~= s@);
    assert(v@ =~= bracketed(s@));
    string_of(&v)
}

fn placeholder_exec(cleanup: &Vec<char>, kind: &Vec<char>) -> (r: String)
    ensures
        r@ == placeholder(cleanup@, kind@),
{
    if is_informative_exec(cleanup) {
        bracketed_exec(cleanup)
    } else if is_informative_exec(kind) {
        bracketed_exec(kind)
    } else {
        no_description_exec()
    }
}

fn description_or(d: &Vec<char>, cleanup: &Vec<char>, kind: &Vec<char>) -> (r: String)
    ensures
        r@ == (if d@.len() == 0 {
            placeholder(cleanup@, kind@)
        } else {
            d@
        }),
{
    if d.len() == 0 {
        placeholder_exec(cleanup, kind)
    } else {
        string_of(d)
    }
}

fn fields_of(lt: &Vec<char>, n: usize) -> (r: Vec<Vec<char>>)
    ensures
        r@.len() == trim_all(split_from(replace_char(lt@, '│', '|'), '|', 0, n as int)).len(),
        forall|k: int|
            0 <= k < r@.len() ==> #[trigger] r@[k]@ == trim_all(
                split_from(replace_char(lt@, '│', '|'), '|', 0, n as int),
            )[k],
{
    let normalized = replace_char_exec(lt, '│', '|');
    trim_each(split_n(&normalized, '|', n))
}

/// The record that one line of the column layout holds.
pub fn parse_column_row(line: &Vec<char>, config: &str) -> (r: Option<Snapshot>)
    ensures
        r.is_some() == column_row(line@, config@).is_some(),
        r.is_some() ==> r.unwrap()@ == column_row(line@, config@).unwrap(),
{
    let lt = trim_chars(line);
    let f = fields_of(&lt, 6);
    if is_skipped_row_exec(&lt) || f.len() < 3 {
        return None;
    }
    let id = match parse_u64(&f[0]) {
        None => return None,
        Some(id) => id,
    };
    if f.len() == 6 {
        Some(
            Snapshot {
                id,
                config: String::from_str(config),
                kind: string_of(&f[5]),
                cleanup: string_of(&f[4]),
                user: string_of(&f[2]),
                date: string_of(&f[1]),
                description: description_or(&f[3], &f[4], &f[5]),
            },
        )
    } else {
        let empty: Vec<char> = Vec::new();
        Some(
            Snapshot {
                id,
                config: String::from_str(config),
                kind: String::new(),
                cleanup: String::new(),
                user: String::new(),
                date: string_of(&f[1]),
                description: description_or(&f[2], &empty, &empty),
            },
        )
    }
}

/// The record that one line of the default wide table holds.
pub fn parse_table_row(line: &Vec<char>, config: &str) -> (r: Option<Snapshot>)
    ensures
        r.is_some() == table_row(line@, config@).is_some(),
        r.is_some() ==> r.unwrap()@ == table_row(line@, config@).unwrap(),
{
    let lt = trim_chars(line);
    let p = fields_of(&lt, usize::MAX);
    if is_skipped_row_exec(&lt) || p.len() < 4 {
        return None;
    }
    let id = match parse_u64(&p[0]) {
        None => return None,
        Some(id) => id,
    };
    if p.len() >= 7 {
        Some(
            Snapshot {
                id,
                config: String::from_str(config),
                kind: string_of(&p[1]),
                cleanup: string_of(&p[5]),
                user: String::new(),
                date: string_of(&p[3]),
                description: description_or(&p[6], &p[5], &p[1]),
            },
        )
    } else {
        let empty: Vec<char> = Vec::new();
        Some(
            Snapshot {
                id,
                config: String::from_str(config),
                kind: string_of(&p[1]),
                cleanup: String::new(),
                user: String::new(),
                date: string_of(&p[3]),
                description: description_or(&p[p.len() - 1], &empty, &empty),
            },
        )
    }
}

/// Every record of a listing, in either layout, has a non-empty description:
/// an empty description column is replaced by a placeholder.
pub proof fn lemma_listing_descriptions_non_empty(text: Seq<char>, config: Seq<char>)
    ensures
        forall|k: int|
            0 <= k < column_listing(text, config).len() ==> #[trigger] column_listing(
                text,
                config,
            )[k].description.len() > 0,
        forall|k: int|
            0 <= k < table_listing(text, config).len() ==> #[trigger] table_listing(
                text,
                config,
            )[k].description.len() > 0,
{
    reveal_strlit("(no description)");
    lemma_rows_described(lines_of(text), config);
}

proof fn lemma_rows_described(lines: Seq<Seq<char>>, config: Seq<char>)
    ensures
        forall|k: int|
            0 <= k < column_rows(lines, config).len() ==> #[trigger] column_rows(
                lines,
                config,
            )[k].description.len() > 0,
        forall|k: int|
            0 <= k < table_rows(lines, config).len() ==> #[trigger] table_rows(
                lines,
                config,
            )[k].description.len() > 0,
    decreases lines.len(),
{
    if lines.len() > 0 {
        let rest = lines.drop_last();
        lemma_rows_described(rest, config);
        lemma_row_described(lines.last(), config);
        assert(column_rows(lines, config) == match column_row(lines.last(), config) {
            Some(v) => column_rows(rest, config) + seq![v],
            None => column_rows(rest, config),
        });
        assert(table_rows(lines, config) == match table_row(lines.last(), config) {
            Some(v) => table_rows(rest, config) + seq![v],
            None => table_rows(rest, config),
        });
    }
}

proof fn lemma_row_described(l: Seq<char>, config: Seq<char>)
    ensures
        column_row(l, config) is Some ==> column_row(l, config).unwrap().description.len() > 0,
        table_row(l, config) is Some ==> table_row(l, config).unwrap().description.len() > 0,
{
    reveal_strlit("(no description)");
    assert(no_description().len() > 0);
}

/// Parses a listing in the column layout `id | date | user | description | cleanup | type`.
/// Lines that hold no record are skipped.
pub fn parse_column_listing(text: &str, config: &str) -> (r: Vec<Snapshot>)
    ensures
        snapshots_view(r@) == column_listing(text@, config@),
        forall|k: int| 0 <= k < r@.len() ==> (#[trigger] r@[k]).description@.len() > 0,
{
    let lines = split_lines(&chars_of(text));
    let ghost ls = lines_of(text@);
    let mut r: Vec<Snapshot> = Vec::new();
    let mut i: usize = 0;
    while i < lines.len()
        invariant
            i <= lines@.len() == ls.len(),
            ls == lines_of(text@),
            forall|k: int| 0 <= k < lines@.len() ==> #[trigger] lines@[k]@ == ls[k],
            snapshots_view(r@) == column_rows(ls.subrange(0, i as int), config@),
        decreases lines@.len() - i,
    {
        let row = parse_column_row(&lines[i], config);
        assert(ls.subrange(0, i + 1).drop_last() =~= ls.subrange(0, i as int));
        match row {
            Some(s) => {
                r.push(s);
            },
            None => {},
        }
        i = i + 1;
        assert(snapshots_view(r@) =~= column_rows(ls.subrange(0, i as int), config@));
    }
    assert(ls.subrange(0, ls.len() as int) =~= ls);
    proof {
        lemma_listing_descriptions_non_empty(text@, config@);
        assert forall|k: int| 0 <= k < r@.len() implies (#[trigger] r@[k]).description@.len() > 0 by {
            assert(snapshots_view(r@)[k] == r@[k]@);
            assert(column_listing(text@, config@)[k].description.len() > 0);
        }
    }
    r
}

/// Parses a listing in the tool's default wide table. Lines that hold no record are skipped.
pub fn parse_table_listing(text: &str, config: &str) -> (r: Vec<Snapshot>)
    ensures
        snapshots_view(r@) == table_listing(text@, config@),
        forall|k: int| 0 <= k < r@.len() ==> (#[trigger] r@[k]).description@.len() > 0,
{
    let lines = split_lines(&chars_of(text));
    let ghost ls = lines_of(text@);
    let mut r: Vec<Snapshot> = Vec::new();
    let mut i: usize = 0;
    while i < lines.len()
        invariant
            i <= lines@.len() == ls.len(),
            ls == lines_of(text@),
            forall|k: int| 0 <= k < lines@.len() ==> #[trigger] lines@[k]@ == ls[k],
            snapshots_view(r@) == table_rows(ls.subrange(0, i as int), config@),
        decreases lines@.len() - i,
    {
        let row = parse_table_row(&lines[i], config);
        assert(ls.subrange(0, i + 1).drop_last() =~= ls.subrange(0, i as int));
        match row {
            Some(s) => {
                r.push(s);
            },
            None => {},
        }
        i = i + 1;
        assert(snapshots_view(r@) =~= table_rows(ls.subrange(0, i as int), config@));
    }
    assert(ls.subrange(0, ls.len() as int) =~= ls);
    proof {
        lemma_listing_descriptions_non_empty(text@, config@);
        assert forall|k: int| 0 <= k < r@.len() implies (#[trigger] r@[k]).description@.len() > 0 by {
            assert(snapshots_view(r@)[k] == r@[k]@);
            assert(table_listing(text@, config@)[k].description.len() > 0);
        }
    }
    r
}

/// The snapshot tool's entry points: each builds the command line of one request.
/// Running it is up to the caller; the `read_*` functions turn what came back into results.
pub struct Snapper;

/// `q` occurs in `s` at `i` ignoring ASCII case (`q` given in lower case).
pub open spec fn occurs_ci_at(s: Seq<char>, q: Seq<char>, i: int) -> bool {
    0 <= i && i + q.len() <= s.len() && forall|k: int|
        0 <= k < q.len() ==> ascii_eq_ci(#[trigger] s[i + k], q[k])
}

/// `s` contains `q` ignoring ASCII case.
pub open spec fn contains_ci(s: Seq<char>, q: Seq<char>) -> bool {
    exists|i: int| occurs_ci_at(s, q, i)
}

pub fn contains_ci_exec(s: &Vec<char>, q: &Vec<char>) -> (r: bool)
    ensures
        r == contains_ci(s@, q@),
{
    if q.len() > s.len() {
        return false;
    }
    let last = s.len() - q.len();
    let mut i: usize = 0;
    while i <= last
        invariant
            last == s@.len() - q@.len(),
            s@.len() <= usize::MAX,
            i <= last + 1,
            forall|m: int| 0 <= m < i ==> !occurs_ci_at(s@, q@, m),
        decreases last + 1 - i,
    {
        let mut k: usize = 0;
        let mut ok = true;
        while k < q.len()
            invariant
                i <= last,
                last == s@.len() - q@.len(),
                s@.len() <= usize::MAX,
                k <= q@.len(),
                ok ==> forall|j: int| 0 <= j < k ==> ascii_eq_ci(#[trigger] s@[i + j], q@[j]),
                !ok ==> !(forall|j: int| 0 <= j < q@.len() ==> ascii_eq_ci(#[trigger] s@[i + j], q@[j])),
            decreases q@.len() - k,
        {
            assert(i + k < s@.len());
            if ok && !crate::config_form::ascii_eq_ci_exec(s[i + k], q[k]) {
                ok = false;
                assert(!ascii_eq_ci(s@[i + k], q@[k as int]));
            }
            k = k + 1;
        }
        if ok {
            assert(occurs_ci_at(s@, q@, i as int));
            return true;
        }
        assert(!occurs_ci_at(s@, q@, i as int));
        if i == last {
            assert forall|m: int| !occurs_ci_at(s@, q@, m) by {
                if 0 <= m <= last {
                } else {
                }
            }
            return false;
        }
        i = i + 1;
    }
    false
}

/// The arguments after the program for `snapper` with `rest`, elevated when `use_sudo`.
pub open spec fn snapper_call(rest: Seq<Seq<char>>, use_sudo: bool) -> (Seq<char>, Seq<Seq<char>>) {
    elevated_args("snapper"@, rest, use_sudo)
}

pub open spec fn unknown_config(config: Seq<char>) -> Seq<char> {
    "Unknown config '"@ + config + "' (not found in /etc/snapper/configs)"@
}

/// The hint added to a failed request's error output that speaks of permissions.
pub open spec fn permission_hint(stderr: Seq<char>) -> Seq<char> {
    if contains_ci(stderr, "permission"@) || contains_ci(stderr, "dbus"@) {
        " (hint: try running with sudo)"@
    } else {
        Seq::empty()
    }
}

/// The hint added to a failed listing's error output.
pub open spec fn listing_hint(stderr: Seq<char>, use_sudo: bool) -> Seq<char> {
    if contains_ci(stderr, "unknown config"@) || contains_ci(stderr, "config not found"@) {
        " (hint: check your config name; see /etc/snapper/configs)"@
    } else if contains_ci(stderr, "a password is required"@) && use_sudo {
        " (hint: run 'sudo -v' to cache credentials)"@
    } else if contains_ci(stderr, "permission"@) || contains_ci(stderr, "dbus"@) {
        if use_sudo {
            " (hint: run 'make sudo-run')"@
        } else {
            " (hint: try running with sudo)"@
        }
    } else {
        Seq::empty()
    }
}

fn has_ci(s: &String, q: &str) -> (r: bool)
    ensures
        r == contains_ci(s@, q@),
{
    contains_ci_exec(&chars_of(s.as_str()), &chars_of(q))
}

fn permission_hint_exec(stderr: &String) -> (r: String)
    ensures
        r@ == permission_hint(stderr@),
{
    if has_ci(stderr, "permission") || has_ci(stderr, "dbus") {
        String::from_str(" (hint: try running with sudo)")
    } else {
        String::new()
    }
}

fn listing_hint_exec(stderr: &String, use_sudo: bool) -> (r: String)
    ensures
        r@ == listing_hint(stderr@, use_sudo),
{
    if has_ci(stderr, "unknown config") || has_ci(stderr, "config not found") {
        String::from_str(" (hint: check your config name; see /etc/snapper/configs)")
    } else if has_ci(stderr, "a password is required") && use_sudo {
        String::from_str(" (hint: run 'sudo -v' to cache credentials)")
    } else if has_ci(stderr, "permission") || has_ci(stderr, "dbus") {
        if use_sudo {
            String::from_str(" (hint: run 'make sudo-run')")
        } else {
            String::from_str(" (hint: try running with sudo)")
        }
    } else {
        String::new()
    }
}

fn push_arg(v: &mut Vec<String>, a: String)
    ensures
        final(v)@.map_values(|s: String| s@) == old(v)@.map_values(|s: String| s@).push(a@),
{
    v.push(a);
    assert(final(v)@.map_values(|s: String| s@) =~= old(v)@.map_values(|s: String| s@).push(a@));
}

fn config_args(config: &str, verb: &str) -> (r: Vec<String>)
    ensures
        r@.map_values(|s: String| s@) == seq!["-c"@, config@, verb@],
{
    let mut v: Vec<String> = Vec::new();
    push_arg(&mut v, String::from_str("-c"));
    push_arg(&mut v, String::from_str(config));
    push_arg(&mut v, String::from_str(verb));
    assert(v@.map_values(|s: String| s@) =~= seq!["-c"@, config@, verb@]);
    v
}

fn snapper_run(args: Vec<String>, use_sudo: bool) -> (r: Invocation)
    ensures
        (r.program@, r.arg_views()) == snapper_call(args@.map_values(|s: String| s@), use_sudo),
{
    run("snapper", args, use_sudo)
}

impl Snapper {
    /// `snapper -c <config> list --columns number,date,user,description,cleanup,type`.
    pub fn list_snapshots(config: &str, use_sudo: bool) -> (r: Invocation)
        ensures
            (r.program@, r.arg_views()) == snapper_call(
                seq!["-c"@, config@, "list"@, "--columns"@, "number,date,user,description,cleanup,type"@],
                use_sudo,
            ),
    {
        let mut v = config_args(config, "list");
        push_arg(&mut v, String::from_str("--columns"));
        push_arg(&mut v, String::from_str("number,date,user,description,cleanup,type"));
        snapper_run(v, use_sudo)
    }

    /// `snapper -c <config> list`, for tools without `--columns`.
    pub fn list_snapshots_plain(config: &str, use_sudo: bool) -> (r: Invocation)
        ensures
            (r.program@, r.arg_views()) == snapper_call(seq!["-c"@, config@, "list"@], use_sudo),
    {
        snapper_run(config_args(config, "list"), use_sudo)
    }

    /// The snapshots of `config` from the column listing, or else from the plain one.
    pub fn read_listing(
        config: &str,
        config_known: bool,
        use_sudo: bool,
        columns: RunOutcome,
        plain: Option<RunOutcome>,
    ) -> (r: Result<Vec<Snapshot>, String>)
        ensures
            !config_known ==> r is Err && r->Err_0@ == unknown_config(config@),
            config_known ==> match columns {
                RunOutcome::SpawnFailed(e) => r is Err && r->Err_0@ == "Failed to run snapper list for config "@
                    + config@ + ": "@ + e@,
                RunOutcome::Exited { success: true, stdout, .. } => r is Ok && snapshots_view(r->Ok_0@)
                    == column_listing(stdout@, config@),
                RunOutcome::Exited { success: false, .. } => match plain {
                    None => r is Err && r->Err_0@ == "snapper list failed"@,
                    Some(RunOutcome::SpawnFailed(e)) => r is Err && r->Err_0@ == "Failed to run snapper: "@ + e@,
                    Some(RunOutcome::Exited { success: true, stdout, .. }) => r is Ok && snapshots_view(
                        r->Ok_0@,
                    ) == table_listing(stdout@, config@),
                    Some(RunOutcome::Exited { success: false, stderr, .. }) => r is Err && r->Err_0@
                        == "snapper list failed: "@ + stderr@ + listing_hint(stderr@, use_sudo),
                },
            },
    {
        if !config_known {
            return Err(unknown_config_exec(config));
        }
        match columns {
            RunOutcome::SpawnFailed(e) => {
                let a = concat("Failed to run snapper list for config ", config);
                let b = concat(a.as_str(), ": ");
                Err(concat(b.as_str(), e.as_str()))
            },
            RunOutcome::Exited { success, stdout, stderr: _ } => {
                if success {
                    return Ok(parse_column_listing(stdout.as_str(), config));
                }
                match plain {
                    None => Err(String::from_str("snapper list failed")),
                    Some(RunOutcome::SpawnFailed(e)) => Err(concat("Failed to run snapper: ", e.as_str())),
                    Some(RunOutcome::Exited { success, stdout, stderr }) => {
                        if success {
                            Ok(parse_table_listing(stdout.as_str(), config))
                        } else {
                            let a = concat("snapper list failed: ", stderr.as_str());
                            Err(concat(a.as_str(), listing_hint_exec(&stderr, use_sudo).as_str()))
                        }
                    },
                }
            },
        }
    }

    /// `snapper -c <config> status <from>..<to>`.
    pub fn snapshot_status(config: &str, from: u64, to: u64, use_sudo: bool) -> (r: Invocation)
        ensures
            (r.program@, r.arg_views()) == snapper_call(
                seq!["-c"@, config@, "status"@, decimal(from as nat) + ".."@ + decimal(to as nat)],
                use_sudo,
            ),
    {
        let mut v = config_args(config, "status");
        push_arg(&mut v, range_arg(from, to));
        snapper_run(v, use_sudo)
    }

    /// `snapper -c <config> create -d <description>`.
    pub fn create(config: &str, description: &str, use_sudo: bool) -> (r: Invocation)
        ensures
            (r.program@, r.arg_views()) == snapper_call(
                seq!["-c"@, config@, "create"@, "-d"@, description@],
                use_sudo,
            ),
    {
        let mut v = config_args(config, "create");
        push_arg(&mut v, String::from_str("-d"));
        push_arg(&mut v, String::from_str(description));
        snapper_run(v, use_sudo)
    }

    /// `snapper -c <config> modify <id> -d <description>`.
    pub fn modify(config: &str, id: u64, description: &str, use_sudo: bool) -> (r: Invocation)
        ensures
            (r.program@, r.arg_views()) == snapper_call(
                seq!["-c"@, config@, "modify"@, decimal(id as nat), "-d"@, description@],
                use_sudo,
            ),
    {
        let mut v = config_args(config, "modify");
        push_arg(&mut v, decimal_string(id));
        push_arg(&mut v, String::from_str("-d"));
        push_arg(&mut v, String::from_str(description));
        snapper_run(v, use_sudo)
    }

    /// `snapper -c <config> delete <id>`.
    pub fn delete(config: &str, id: u64, use_sudo: bool) -> (r: Invocation)
        ensures
            (r.program@, r.arg_views()) == snapper_call(seq!["-c"@, config@, "delete"@, decimal(id as nat)], use_sudo),
    {
        Self::on_snapshot(config, "delete", id, use_sudo)
    }

    /// `snapper -c <config> diff <from>..<to>`.
    pub fn diff(config: &str, from: u64, to: u64, use_sudo: bool) -> (r: Invocation)
        ensures
            (r.program@, r.arg_views()) == snapper_call(
                seq!["-c"@, config@, "diff"@, decimal(from as nat) + ".."@ + decimal(to as nat)],
                use_sudo,
            ),
    {
        let mut v = config_args(config, "diff");
        push_arg(&mut v, range_arg(from, to));
        snapper_run(v, use_sudo)
    }

    /// `snapper -c <config> mount <id>`.
    pub fn mount(config: &str, id: u64, use_sudo: bool) -> (r: Invocation)
        ensures
            (r.program@, r.arg_views()) == snapper_call(seq!["-c"@, config@, "mount"@, decimal(id as nat)], use_sudo),
    {
        Self::on_snapshot(config, "mount", id, use_sudo)
    }

    /// `snapper -c <config> umount <id>`.
    pub fn umount(config: &str, id: u64, use_sudo: bool) -> (r: Invocation)
        ensures
            (r.program@, r.arg_views()) == snapper_call(seq!["-c"@, config@, "umount"@, decimal(id as nat)], use_sudo),
    {
        Self::on_snapshot(config, "umount", id, use_sudo)
    }

    /// `snapper -c <config> rollback <id>`.
    pub fn rollback(config: &str, id: u64, use_sudo: bool) -> (r: Invocation)
        ensures
            (r.program@, r.arg_views()) == snapper_call(seq!["-c"@, config@, "rollback"@, decimal(id as nat)], use_sudo),
    {
        Self::on_snapshot(config, "rollback", id, use_sudo)
    }

    fn on_snapshot(config: &str, verb: &str, id: u64, use_sudo: bool) -> (r: Invocation)
        ensures
            (r.program@, r.arg_views()) == snapper_call(seq!["-c"@, config@, verb@, decimal(id as nat)], use_sudo),
    {
        let mut v = config_args(config, verb);
        push_arg(&mut v, decimal_string(id));
        snapper_run(v, use_sudo)
    }

    /// `snapper -c <config> cleanup <algorithm>`.
    pub fn cleanup(config: &str, algorithm: &str, use_sudo: bool) -> (r: Invocation)
        ensures
            (r.program@, r.arg_views()) == snapper_call(seq!["-c"@, config@, "cleanup"@, algorithm@], use_sudo),
    {
        let mut v = config_args(config, "cleanup");
        push_arg(&mut v, String::from_str(algorithm));
        snapper_run(v, use_sudo)
    }

    /// `snapper -c <config> get-config`.
    pub fn get_config(config: &str, use_sudo: bool) -> (r: Invocation)
        ensures
            (r.program@, r.arg_views()) == snapper_call(seq!["-c"@, config@, "get-config"@], use_sudo),
    {
        snapper_run(config_args(config, "get-config"), use_sudo)
    }

    /// `snapper -c <config> set-config <key=value>...`.
    pub fn set_config(config: &str, kv_pairs: &Vec<String>, use_sudo: bool) -> (r: Invocation)
        ensures
            (r.program@, r.arg_views()) == snapper_call(
                seq!["-c"@, config@, "set-config"@] + kv_pairs@.map_values(|s: String| s@),
                use_sudo,
            ),
    {
        let mut v = config_args(config, "set-config");
        let mut i: usize = 0;
        while i < kv_pairs.len()
            invariant
                i <= kv_pairs@.len(),
                v@.map_values(|s: String| s@) == seq!["-c"@, config@, "set-config"@]
                    + kv_pairs@.subrange(0, i as int).map_values(|s: String| s@),
            decreases kv_pairs@.len() - i,
        {
            push_arg(&mut v, kv_pairs[i].clone());
            i = i + 1;
            assert(v@.map_values(|s: String| s@) =~= seq!["-c"@, config@, "set-config"@]
                + kv_pairs@.subrange(0, i as int).map_values(|s: String| s@));
        }
        assert(kv_pairs@.subrange(0, kv_pairs@.len() as int) =~= kv_pairs@);
        snapper_run(v, use_sudo)
    }

    /// `snapper -c <config> setup-quota`.
    pub fn setup_quota(config: &str, use_sudo: bool) -> (r: Invocation)
        ensures
            (r.program@, r.arg_views()) == snapper_call(seq!["-c"@, config@, "setup-quota"@], use_sudo),
    {
        snapper_run(config_args(config, "setup-quota"), use_sudo)
    }

    /// The text a request printed, or why it failed. `verb` names the request in messages;
    /// with `hinted`, a permission problem gets a hint.
    pub fn read_output(
        verb: &str,
        config: &str,
        config_known: bool,
        hinted: bool,
        outcome: RunOutcome,
    ) -> (r: Result<String, String>)
        ensures
            !config_known ==> r is Err && r->Err_0@ == unknown_config(config@),
            config_known ==> match outcome {
                RunOutcome::SpawnFailed(e) => r is Err && r->Err_0@ == "Failed to run snapper "@ + verb@
                    + " for "@ + config@ + ": "@ + e@,
                RunOutcome::Exited { success: true, stdout, .. } => r == Ok::<String, String>(stdout),
                RunOutcome::Exited { success: false, stderr, .. } => r is Err && r->Err_0@
                    == "snapper "@ + verb@ + " failed: "@ + stderr@ + (if hinted {
                    permission_hint(stderr@)
                } else {
                    Seq::empty()
                }),
            },
    {
        if !config_known {
            return Err(unknown_config_exec(config));
        }
        match outcome {
            RunOutcome::SpawnFailed(e) => {
                let a = concat("Failed to run snapper ", verb);
                let b = concat(a.as_str(), " for ");
                let c = concat(b.as_str(), config);
                let d = concat(c.as_str(), ": ");
                Err(concat(d.as_str(), e.as_str()))
            },
            RunOutcome::Exited { success, stdout, stderr } => {
                if success {
                    Ok(stdout)
                } else {
                    let a = concat("snapper ", verb);
                    let b = concat(a.as_str(), " failed: ");
                    let c = concat(b.as_str(), stderr.as_str());
                    if hinted {
                        Err(concat(c.as_str(), permission_hint_exec(&stderr).as_str()))
                    } else {
                        proof {
                            assert(c@ + Seq::<char>::empty() =~= c@);
                        }
                        Err(c)
                    }
                }
            },
        }
    }
}

fn unknown_config_exec(config: &str) -> (r: String)
    ensures
        r@ == unknown_config(config@),
{
    let a = concat("Unknown config '", config);
    concat(a.as_str(), "' (not found in /etc/snapper/configs)")
}

fn range_arg(from: u64, to: u64) -> (r: String)
    ensures
        r@ == decimal(from as nat) + ".."@ + decimal(to as nat),
{
    let a = concat(decimal_string(from).as_str(), "..");
    concat(a.as_str(), decimal_string(to).as_str())
}

/// Index of the first whitespace character of `s`, or its length.
pub open spec fn first_ws(s: Seq<char>, i: int) -> int
    decreases s.len() - i,
{
    if i < 0 || i >= s.len() {
        s.len() as int
    } else if is_ws(s[i]) {
        i
    } else {
        first_ws(s, i + 1)
    }
}

pub open spec fn trim_start_stars(s: Seq<char>) -> Seq<char>
    decreases s.len(),
{
    if s.len() > 0 && s[0] == '*' {
        trim_start_stars(s.drop_first())
    } else {
        s
    }
}

pub open spec fn trim_end_stars(s: Seq<char>) -> Seq<char>
    decreases s.len(),
{
    if s.len() > 0 && s.last() == '*' {
        trim_end_stars(s.drop_last())
    } else {
        s
    }
}

/// The configuration name one line of a configuration listing holds: the first column,
/// or the first word, without surrounding `*`. Headers and rulers hold none.
pub open spec fn config_list_name(line: Seq<char>) -> Option<Seq<char>> {
    let l = trim(line);
    if l.len() == 0 || starts_with_ci(l, "config"@) || contains_ci(l, "subvolume"@) || contains_ci(
        l,
        "type"@,
    ) || (l.len() >= 3 && l[0] == '-' && l[1] == '-' && l[2] == '-') || l[0] == '#' {
        None
    } else {
        let token = if l.contains('|') {
            trim(split_from(l, '|', 0, 2)[0])
        } else {
            l.subrange(0, first_ws(l, 0))
        };
        let name = trim_end_stars(trim_start_stars(token));
        if token.len() == 0 || eq_ci(token, "name"@) || eq_ci(token, "configs"@) || name.len() == 0 {
            None
        } else {
            Some(name)
        }
    }
}

/// The names a configuration listing holds, in the order of their lines.
pub open spec fn config_list_names(text: Seq<char>) -> Seq<Seq<char>> {
    lines_of(text).filter_map(|l: Seq<char>| config_list_name(l))
}

fn trim_stars(v: &Vec<char>) -> (r: Vec<char>)
    ensures
        r@ == trim_end_stars(trim_start_stars(v@)),
{
    let n = v.len();
    let mut lo: usize = 0;
    assert(v@.subrange(0, n as int) =~= v@);
    while lo < n && v[lo] == '*'
        invariant
            lo <= n == v@.len(),
            trim_start_stars(v@) == trim_start_stars(v@.subrange(lo as int, n as int)),
        decreases n - lo,
    {
        assert(v@.subrange(lo as int, n as int).drop_first() =~= v@.subrange(lo + 1, n as int));
        lo = lo + 1;
    }
    let ghost mid = v@.subrange(lo as int, n as int);
    let mut hi: usize = n;
    while hi > lo && v[hi - 1] == '*'
        invariant
            lo <= hi <= n == v@.len(),
            trim_end_stars(mid) == trim_end_stars(v@.subrange(lo as int, hi as int)),
        decreases hi,
    {
        assert(v@.subrange(lo as int, hi as int).drop_last() =~= v@.subrange(lo as int, hi - 1));
        hi = hi - 1;
    }
    slice_of(v, lo, hi)
}

fn has_ci_chars(s: &Vec<char>, q: &str) -> (r: bool)
    ensures
        r == contains_ci(s@, q@),
{
    contains_ci_exec(s, &chars_of(q))
}

fn eq_ci_exec(s: &Vec<char>, p: &str) -> (r: bool)
    ensures
        r == eq_ci(s@, p@),
{
    let pv = chars_of(p);
    s.len() == pv.len() && crate::config_form::starts_with_ci_exec(s, &pv)
}

fn first_word(l: &Vec<char>) -> (r: Vec<char>)
    ensures
        r@ == l@.subrange(0, first_ws(l@, 0)),
{
    let n = l.len();
    let mut i: usize = 0;
    while i < n && !is_whitespace(l[i])
        invariant
            i <= n == l@.len(),
            first_ws(l@, 0) == first_ws(l@, i as int),
        decreases n - i,
    {
        i = i + 1;
    }
    slice_of(l, 0, i)
}

fn config_list_name_exec(line: &Vec<char>) -> (r: Option<Vec<char>>)
    ensures
        r.is_some() == config_list_name(line@).is_some(),
        r.is_some() ==> r.unwrap()@ == config_list_name(line@).unwrap(),
{
    let l = trim_chars(line);
    if l.len() == 0 || crate::config_form::starts_with_ci_exec(&l, &chars_of("config"))
        || has_ci_chars(&l, "subvolume") || has_ci_chars(&l, "type") || (l.len() >= 3 && l[0] == '-'
        && l[1] == '-' && l[2] == '-') || l[0] == '#' {
        return None;
    }
    let mut bar = false;
    let mut i: usize = 0;
    while i < l.len()
        invariant
            i <= l@.len(),
            bar == (exists|k: int| 0 <= k < i && l@[k] == '|'),
        decreases l@.len() - i,
    {
        if l[i] == '|' {
            bar = true;
        }
        i = i + 1;
    }
    assert(bar == l@.contains('|'));
    let token = if bar {
        proof {
            let k = choose|k: int| 0 <= k < l@.len() && l@[k] == '|';
            crate::text::lemma_find_char_bounds(l@, '|', 0);
            let f = crate::text::find_char(l@, '|', 0);
            if f >= l@.len() {
                assert(l@[k] != '|');
            }
            assert(split_from(l@, '|', f + 1, 1) == seq![l@.subrange(f + 1, l@.len() as int)]);
            assert(split_from(l@, '|', 0, 2) == seq![l@.subrange(0, f)] + split_from(l@, '|', f + 1, 1));
        }
        let parts = split_n(&l, '|', 2);
        trim_chars(&parts[0])
    } else {
        first_word(&l)
    };
    let name = trim_stars(&token);
    if token.len() == 0 || eq_ci_exec(&token, "name") || eq_ci_exec(&token, "configs") || name.len() == 0 {
        return None;
    }
    Some(name)
}

impl Snapper {
    /// `snapper list-configs`.
    pub fn list_configs(use_sudo: bool) -> (r: Invocation)
        ensures
            (r.program@, r.arg_views()) == snapper_call(seq!["list-configs"@], use_sudo),
    {
        let mut v: Vec<String> = Vec::new();
        push_arg(&mut v, String::from_str("list-configs"));
        assert(v@.map_values(|s: String| s@) =~= seq!["list-configs"@]);
        snapper_run(v, use_sudo)
    }

    /// The configuration names a `list-configs` listing holds, in order.
    pub fn parse_config_list(text: &str) -> (r: Vec<String>)
        ensures
            r@.map_values(|s: String| s@) == config_list_names(text@),
    {
        let lines = split_lines(&chars_of(text));
        let ghost ls = lines_of(text@);
        let mut r: Vec<String> = Vec::new();
        let mut i: usize = 0;
        while i < lines.len()
            invariant
                i <= lines@.len() == ls.len(),
                ls == lines_of(text@),
                forall|k: int| 0 <= k < lines@.len() ==> #[trigger] lines@[k]@ == ls[k],
                r@.map_values(|s: String| s@) == ls.subrange(0, i as int).filter_map(
                    |l: Seq<char>| config_list_name(l),
                ),
            decreases lines@.len() - i,
        {
            let name = config_list_name_exec(&lines[i]);
            assert(ls.subrange(0, i + 1).drop_last() =~= ls.subrange(0, i as int));
            match name {
                Some(n) => {
                    push_arg(&mut r, string_of(&n));
                },
                None => {},
            }
            i = i + 1;
            assert(r@.map_values(|s: String| s@) =~= ls.subrange(0, i as int).filter_map(
                |l: Seq<char>| config_list_name(l),
            ));
        }
        assert(ls.subrange(0, ls.len() as int) =~= ls);
        r
    }
}

/// The configuration that must exist before the tool is run for `t`; creating, editing
/// and deleting a snapshot leave that check to the tool.
pub open spec fn task_config(t: Task) -> Option<Seq<char>> {
    match t {
        Task::ListSnapshots { config } => Some(config@),
        Task::Status { config, .. } => Some(config@),
        Task::Diff { config, .. } => Some(config@),
        Task::Mount { config, .. } => Some(config@),
        Task::Umount { config, .. } => Some(config@),
        Task::Rollback { config, .. } => Some(config@),
        Task::Cleanup { config, .. } => Some(config@),
        Task::GetConfig { config } => Some(config@),
        Task::SetConfig { config, .. } => Some(config@),
        Task::SetupQuota { config } => Some(config@),
        _ => None,
    }
}

/// The command line of the snapshot tool that does `t`, if the tool does it.
pub open spec fn task_call(t: Task, use_sudo: bool) -> Option<(Seq<char>, Seq<Seq<char>>)> {
    match t {
        Task::ListSnapshots { config } => Some(snapper_call(
            seq!["-c"@, config@, "list"@, "--columns"@, "number,date,user,description,cleanup,type"@],
            use_sudo,
        )),
        Task::Status { config, from, to } => Some(snapper_call(
            seq!["-c"@, config@, "status"@, decimal(from as nat) + ".."@ + decimal(to as nat)],
            use_sudo,
        )),
        Task::Diff { config, from, to } => Some(snapper_call(
            seq!["-c"@, config@, "diff"@, decimal(from as nat) + ".."@ + decimal(to as nat)],
            use_sudo,
        )),
        Task::Mount { config, id } => Some(snapper_call(seq!["-c"@, config@, "mount"@, decimal(id as nat)], use_sudo)),
        Task::Umount { config, id } => Some(snapper_call(seq!["-c"@, config@, "umount"@, decimal(id as nat)], use_sudo)),
        Task::Rollback { config, id } => Some(snapper_call(seq!["-c"@, config@, "rollback"@, decimal(id as nat)], use_sudo)),
        Task::Delete { config, id } => Some(snapper_call(seq!["-c"@, config@, "delete"@, decimal(id as nat)], use_sudo)),
        Task::Cleanup { config, algorithm } => Some(snapper_call(seq!["-c"@, config@, "cleanup"@, algorithm@], use_sudo)),
        Task::GetConfig { config } => Some(snapper_call(seq!["-c"@, config@, "get-config"@], use_sudo)),
        Task::SetConfig { config, pairs } => Some(snapper_call(
            seq!["-c"@, config@, "set-config"@] + pairs@.map_values(|s: String| s@),
            use_sudo,
        )),
        Task::SetupQuota { config } => Some(snapper_call(seq!["-c"@, config@, "setup-quota"@], use_sudo)),
        Task::Create { config, description } => Some(snapper_call(
            seq!["-c"@, config@, "create"@, "-d"@, description@],
            use_sudo,
        )),
        Task::Modify { config, id, description } => Some(snapper_call(
            seq!["-c"@, config@, "modify"@, decimal(id as nat), "-d"@, description@],
            use_sudo,
        )),
        Task::LimineSync { .. } => None,
    }
}

/// The verb that names request `t` in messages, and whether a failure of it gets a
/// permission hint.
pub open spec fn task_verb(t: Task) -> (Seq<char>, bool) {
    match t {
        Task::ListSnapshots { .. } => ("list"@, false),
        Task::Status { .. } => ("status"@, true),
        Task::Diff { .. } => ("diff"@, false),
        Task::Mount { .. } => ("mount"@, false),
        Task::Umount { .. } => ("umount"@, false),
        Task::Rollback { .. } => ("rollback"@, false),
        Task::Delete { .. } => ("delete"@, false),
        Task::Cleanup { .. } => ("cleanup"@, false),
        Task::GetConfig { .. } => ("get-config"@, false),
        Task::SetConfig { .. } => ("set-config"@, false),
        Task::SetupQuota { .. } => ("setup-quota"@, false),
        Task::Create { .. } => ("create"@, false),
        Task::Modify { .. } => ("modify"@, false),
        Task::LimineSync { .. } => ("limine-sync"@, false),
    }
}

/// Requests whose success prints nothing worth showing.
pub open spec fn task_is_quiet(t: Task) -> bool {
    t is Umount || t is Create || t is Modify || t is Delete
}

fn task_parts(task: &Task) -> (r: (&str, bool, &String))
    ensures
        r.0@ == task_verb(*task).0,
        r.1 == task_verb(*task).1,
        task_config(*task) is Some ==> r.2@ == task_config(*task).unwrap(),
        task matches Task::Create { config, .. } ==> r.2@ == config@,
        task matches Task::Modify { config, .. } ==> r.2@ == config@,
        task matches Task::Delete { config, .. } ==> r.2@ == config@,
{
    match task {
        Task::ListSnapshots { config } => ("list", false, config),
        Task::Status { config, .. } => ("status", true, config),
        Task::Diff { config, .. } => ("diff", false, config),
        Task::Mount { config, .. } => ("mount", false, config),
        Task::Umount { config, .. } => ("umount", false, config),
        Task::Rollback { config, .. } => ("rollback", false, config),
        Task::Delete { config, .. } => ("delete", false, config),
        Task::Cleanup { config, .. } => ("cleanup", false, config),
        Task::GetConfig { config } => ("get-config", false, config),
        Task::SetConfig { config, .. } => ("set-config", false, config),
        Task::SetupQuota { config } => ("setup-quota", false, config),
        Task::Create { config, .. } => ("create", false, config),
        Task::Modify { config, .. } => ("modify", false, config),
        Task::LimineSync { name, .. } => ("limine-sync", false, name),
    }
}

impl Snapper {
    /// The command line to run for `t`, or why the tool is not run: the configuration is
    /// not known (checked before running, for the requests that need it), or the tool does
    /// not do `t`.
    pub fn run_plan(task: &Task, config_known: bool, use_sudo: bool) -> (r: Result<Invocation, String>)
        ensures
            task_call(*task, use_sudo) is None ==> r is Err,
            task_config(*task) is Some && !config_known ==> r is Err && r->Err_0@ == unknown_config(
                task_config(*task).unwrap(),
            ),
            task_call(*task, use_sudo) is Some && (task_config(*task) is None || config_known) ==> r is Ok
                && (r->Ok_0.program@, r->Ok_0.arg_views()) == task_call(*task, use_sudo).unwrap(),
    {
        let checked = match task {
            Task::Create { .. } | Task::Modify { .. } | Task::Delete { .. } => false,
            Task::LimineSync { .. } => {
                return Err(String::from_str("the snapshot tool has no bootloader request"));
            },
            _ => true,
        };
        if checked && !config_known {
            let (_, _, config) = task_parts(task);
            return Err(unknown_config_exec(config.as_str()));
        }
        let inv = match task {
            Task::ListSnapshots { config } => Self::list_snapshots(config.as_str(), use_sudo),
            Task::Status { config, from, to } => Self::snapshot_status(config.as_str(), *from, *to, use_sudo),
            Task::Diff { config, from, to } => Self::diff(config.as_str(), *from, *to, use_sudo),
            Task::Mount { config, id } => Self::mount(config.as_str(), *id, use_sudo),
            Task::Umount { config, id } => Self::umount(config.as_str(), *id, use_sudo),
            Task::Rollback { config, id } => Self::rollback(config.as_str(), *id, use_sudo),
            Task::Delete { config, id } => Self::delete(config.as_str(), *id, use_sudo),
            Task::Cleanup { config, algorithm } => Self::cleanup(config.as_str(), algorithm.as_str(), use_sudo),
            Task::GetConfig { config } => Self::get_config(config.as_str(), use_sudo),
            Task::SetConfig { config, pairs } => Self::set_config(config.as_str(), pairs, use_sudo),
            Task::SetupQuota { config } => Self::setup_quota(config.as_str(), use_sudo),
            Task::Create { config, description } => Self::create(config.as_str(), description.as_str(), use_sudo),
            Task::Modify { config, id, description } => Self::modify(config.as_str(), *id, description.as_str(), use_sudo),
            Task::LimineSync { .. } => {
                return Err(String::from_str("the snapshot tool has no bootloader request"));
            },
        };
        Ok(inv)
    }

    /// Whether the plain listing must be tried: the column listing ran and failed.
    pub fn needs_plain_listing(columns: &RunOutcome) -> (r: bool)
        ensures
            r == (columns matches RunOutcome::Exited { success: false, .. }),
    {
        match columns {
            RunOutcome::Exited { success, .. } => !*success,
            RunOutcome::SpawnFailed(_) => false,
        }
    }

    /// What request `t` gave, read from its outcome: its output (nothing for requests that
    /// print nothing worth showing), or its failure message.
    pub fn read_task_output(task: &Task, outcome: RunOutcome) -> (r: Result<String, String>)
        requires
            !(task is LimineSync) && !(task is ListSnapshots),
        ensures
            outcome matches RunOutcome::SpawnFailed(e) ==> r is Err && r->Err_0@ == "Failed to run snapper "@
                + task_verb(*task).0 + " for "@ + task_call_config(*task) + ": "@ + e@,
            outcome matches RunOutcome::Exited { success: true, stdout, .. } ==> r is Ok && (task_is_quiet(
                *task,
            ) ==> r->Ok_0@.len() == 0) && (!task_is_quiet(*task) ==> r->Ok_0 == stdout),
            outcome matches RunOutcome::Exited { success: false, stderr, .. } ==> r is Err && r->Err_0@
                == "snapper "@ + task_verb(*task).0 + " failed: "@ + stderr@ + (if task_verb(*task).1 {
                permission_hint(stderr@)
            } else {
                Seq::empty()
            }),
    {
        let (verb, hinted, config) = task_parts(task);
        let quiet = match task {
            Task::Umount { .. } | Task::Create { .. } | Task::Modify { .. } | Task::Delete { .. } => true,
            _ => false,
        };
        match Self::read_output(verb, config.as_str(), true, hinted, outcome) {
            Ok(text) => if quiet {
                Ok(String::new())
            } else {
                Ok(text)
            },
            Err(e) => Err(e),
        }
    }
}

/// The configuration a request names.
pub open spec fn task_call_config(t: Task) -> Seq<char> {
    match t {
        Task::Create { config, .. } => config@,
        Task::Modify { config, .. } => config@,
        Task::Delete { config, .. } => config@,
        _ => match task_config(t) {
            Some(c) => c,
            None => Seq::empty(),
        },
    }
}

/// Code-point order on texts, the order in which `str` compares.
pub open spec fn text_lt(a: Seq<char>, b: Seq<char>) -> bool
    decreases a.len(),
{
    if a.len() == 0 {
        b.len() > 0
    } else if b.len() == 0 {
        false
    } else if a[0] != b[0] {
        a[0] < b[0]
    } else {
        text_lt(a.drop_first(), b.drop_first())
    }
}

proof fn lemma_text_lt_total(a: Seq<char>, b: Seq<char>)
    ensures
        a != b ==> text_lt(a, b) || text_lt(b, a),
        !(text_lt(a, b) && text_lt(b, a)),
        !text_lt(a, a),
    decreases a.len(),
{
    if a.len() > 0 && b.len() > 0 && a[0] == b[0] {
        lemma_text_lt_total(a.drop_first(), b.drop_first());
        if a != b {
            assert(a =~= seq![a[0]] + a.drop_first());
            assert(b =~= seq![b[0]] + b.drop_first());
        }
    }
    if a.len() > 0 {
        lemma_text_lt_total(a.drop_first(), a.drop_first());
    }
    if a.len() == 0 && b.len() == 0 {
        assert(a =~= b);
    }
}

fn text_less(a: &String, b: &String) -> (r: bool)
    ensures
        r == text_lt(a@, b@),
{
    let av = chars_of(a.as_str());
    let bv = chars_of(b.as_str());
    let mut i: usize = 0;
    assert(av@.skip(0) =~= av@ && bv@.skip(0) =~= bv@);
    while i < av.len() && i < bv.len() && av[i] == bv[i]
        invariant
            i <= av@.len() && i <= bv@.len(),
            text_lt(av@, bv@) == text_lt(av@.skip(i as int), bv@.skip(i as int)),
        decreases av@.len() - i,
    {
        assert(av@.skip(i as int).drop_first() =~= av@.skip(i + 1));
        assert(bv@.skip(i as int).drop_first() =~= bv@.skip(i + 1));
        i = i + 1;
    }
    if i == av.len() {
        i < bv.len()
    } else if i == bv.len() {
        false
    } else {
        av[i] < bv[i]
    }
}

/// Every one of `n` names is kept.
pub open spec fn all_kept(n: nat) -> Seq<bool> {
    Seq::new(n, |m: int| true)
}

/// The names strictly increase.
pub open spec fn strictly_increasing(v: Seq<String>) -> bool {
    forall|k: int| 0 <= k < v.len() - 1 ==> text_lt((#[trigger] v[k])@, v[k + 1]@)
}

/// `v` holds a name whose text is `x`.
pub open spec fn holds_name(v: Seq<String>, x: Seq<char>) -> bool {
    exists|k: int| 0 <= k < v.len() && (#[trigger] v[k])@ == x
}

/// A name of `from` that `keep` lets through has the text `x`.
pub open spec fn kept_name(from: Seq<String>, keep: Seq<bool>, x: Seq<char>) -> bool {
    exists|m: int| 0 <= m < from.len() && keep[m] && (#[trigger] from[m])@ == x
}

/// `v` holds exactly the names of `from` that satisfy `keep`, each once, in increasing order.
pub open spec fn sorted_set_of(v: Seq<String>, from: Seq<String>, keep: Seq<bool>) -> bool {
    &&& strictly_increasing(v)
    &&& forall|k: int| 0 <= k < v.len() ==> kept_name(from, keep, (#[trigger] v[k])@)
    &&& forall|m: int| 0 <= m < from.len() && keep[m] ==> holds_name(v, (#[trigger] from[m])@)
}

fn insert_sorted(r: &mut Vec<String>, x: String)
    requires
        strictly_increasing(old(r)@),
    ensures
        strictly_increasing(final(r)@),
        holds_name(final(r)@, x@),
        forall|k: int|
            0 <= k < final(r)@.len() ==> (#[trigger] final(r)@[k])@ == x@ || holds_name(
                old(r)@,
                final(r)@[k]@,
            ),
        forall|t: int| 0 <= t < old(r)@.len() ==> holds_name(final(r)@, (#[trigger] old(r)@[t])@),
{
    let mut j: usize = 0;
    while j < r.len() && text_less(&r[j], &x)
        invariant
            j <= r@.len(),
            forall|t: int| 0 <= t < j ==> text_lt((#[trigger] r@[t])@, x@),
        decreases r@.len() - j,
    {
        j = j + 1;
    }
    if j < r.len() && r[j] == x {
        assert(r@[j as int]@ == x@);
        assert forall|t: int| 0 <= t < r@.len() implies holds_name(r@, (#[trigger] r@[t])@) by {
            assert(r@[t]@ == r@[t]@);
        }
        assert forall|k: int| 0 <= k < r@.len() implies (#[trigger] r@[k])@ == x@ || holds_name(
            r@,
            r@[k]@,
        ) by {
            assert(r@[k]@ == r@[k]@);
        }
        return;
    }
    let ghost before = r@;
    proof {
        if j < before.len() {
            lemma_text_lt_total(before[j as int]@, x@);
        }
    }
    r.insert(j, x);
    assert(r@ == before.insert(j as int, x));
    assert(r@[j as int] == x);
    assert forall|k: int| 0 <= k < r@.len() - 1 implies text_lt((#[trigger] r@[k])@, r@[k + 1]@) by {
        if k + 1 < j {
            assert(r@[k] == before[k] && r@[k + 1] == before[k + 1]);
        } else if k + 1 == j {
            assert(r@[k] == before[k]);
        } else if k == j {
            assert(r@[k + 1] == before[j as int]);
        } else {
            assert(r@[k] == before[k - 1] && r@[k + 1] == before[k]);
        }
    }
    assert forall|k: int| 0 <= k < r@.len() implies (#[trigger] r@[k])@ == x@ || holds_name(
        before,
        r@[k]@,
    ) by {
        if k < j {
            assert(before[k] == r@[k]);
        } else if k > j {
            assert(before[k - 1] == r@[k]);
        }
    }
    assert forall|t: int| 0 <= t < before.len() implies holds_name(r@, (#[trigger] before[t])@) by {
        if t < j {
            assert(r@[t] == before[t]);
        } else {
            assert(r@[t + 1] == before[t]);
        }
    }
}

impl Snapper {
    /// The configurations to offer: the names found in the configuration directory, or,
    /// when it holds none, the names the tool listed that exist; each once, in increasing
    /// order.
    pub fn config_names(on_disk: &Vec<String>, listed: &Vec<(String, bool)>) -> (r: Vec<String>)
        ensures
            on_disk@.len() > 0 ==> sorted_set_of(r@, on_disk@, all_kept(on_disk@.len())),
            on_disk@.len() == 0 ==> sorted_set_of(
                r@,
                listed@.map_values(|p: (String, bool)| p.0),
                listed@.map_values(|p: (String, bool)| p.1),
            ),
    {
        let ghost from = if on_disk@.len() > 0 {
            on_disk@
        } else {
            listed@.map_values(|p: (String, bool)| p.0)
        };
        let ghost keep = if on_disk@.len() > 0 {
            all_kept(on_disk@.len())
        } else {
            listed@.map_values(|p: (String, bool)| p.1)
        };
        let use_disk = on_disk.len() > 0;
        let n = if use_disk {
            on_disk.len()
        } else {
            listed.len()
        };
        let mut r: Vec<String> = Vec::new();
        let mut i: usize = 0;
        while i < n
            invariant
                i <= n == from.len() == keep.len(),
                use_disk == (on_disk@.len() > 0),
                use_disk ==> from == on_disk@ && keep == all_kept(on_disk@.len()),
                !use_disk ==> from == listed@.map_values(|p: (String, bool)| p.0) && keep
                    == listed@.map_values(|p: (String, bool)| p.1),
                strictly_increasing(r@),
                forall|k: int| 0 <= k < r@.len() ==> kept_name(from, keep, (#[trigger] r@[k])@),
                forall|m: int| 0 <= m < i && keep[m] ==> holds_name(r@, (#[trigger] from[m])@),
            decreases n - i,
        {
            let (name, wanted) = if use_disk {
                (on_disk[i].clone(), true)
            } else {
                (listed[i].0.clone(), listed[i].1)
            };
            assert(name == from[i as int] && wanted == keep[i as int]);
            if wanted {
                let ghost old_r = r@;
                insert_sorted(&mut r, name);
                assert(kept_name(from, keep, from[i as int]@));
                assert forall|k: int| 0 <= k < r@.len() implies kept_name(from, keep, (#[trigger] r@[k])@) by {
                    if r@[k]@ != from[i as int]@ {
                        let t = choose|t: int| 0 <= t < old_r.len() && (#[trigger] old_r[t])@ == r@[k]@;
                        assert(kept_name(from, keep, old_r[t]@));
                    }
                }
                assert forall|m: int| 0 <= m < i + 1 && keep[m] implies holds_name(r@, (#[trigger] from[m])@) by {
                    if m < i {
                        assert(holds_name(old_r, from[m]@));
                        let t = choose|t: int| 0 <= t < old_r.len() && (#[trigger] old_r[t])@ == from[m]@;
                        assert(holds_name(r@, old_r[t]@));
                    }
                }
            }
            i = i + 1;
        }
        r
    }
}

} // verus!
