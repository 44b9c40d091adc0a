//! The application state machine: modes, selection, input editing, filtering, and the
//! single tracked background operation.
use vstd::prelude::*;
use vstd::string::*;
use crate::cache::{lookup, SnapshotCache};
use crate::config_form::{config_pairs, parse_config_fields};
pub use crate::config_form::ConfigField;
use crate::snapper::{
    contains_ci, contains_ci_exec, duplicate_all, snapshots_view, Config, Snapshot, SnapshotView,
};
use crate::state::State;
use crate::text::{
    chars_of, concat, contains, contains_chars, decimal, decimal_chars, decimal_string, lines_of, lower_of,
    lowercase, string_of, trim, trim_chars,
};

verus! {

/// Which of the two lists the navigation keys move in.
#[derive(Debug, Clone, Copy, PartialEq, Eq, Structural)]
pub enum Focus {
    Configs,
    Snapshots,
}

impl Default for Focus {
    fn default() -> (r: Focus)
        ensures
            r == Focus::Snapshots,
    {
        Focus::Snapshots
    }
}

/// The selected row of a list, if any.
#[derive(Debug, Clone, Copy, PartialEq, Eq, Structural)]
pub struct ListState {
    pub selected: Option<usize>,
}

impl Default for ListState {
    fn default() -> (r: ListState)
        ensures
            r.selected.is_none(),
    {
        ListState { selected: None }
    }
}

/// What the text being typed is for.
#[derive(Debug, Clone, Copy, PartialEq, Eq, Structural)]
pub enum InputKind {
    Create,
    Edit(u64),
    /// Expects an algorithm such as `number`, `timeline` or `empty-pre-post`.
    CleanupAlgorithm,
    DetailsSearch,
    ConfigFieldEdit(usize),
    Filter,
}

/// The interaction mode; exactly one is active.
#[derive(Debug, Clone)]
pub enum Mode {
    Normal,
    Input(InputKind),
    ConfirmDelete(u64),
    ConfirmRollback(u64),
    ConfirmCleanup(String),
    Help,
    Details,
    Loading,
    ConfigForm,
}

impl Default for Mode {
    fn default() -> (r: Mode)
        ensures
            r is Normal,
    {
        Mode::Normal
    }
}

/// The one background request whose result the state machine waits for.
#[derive(Debug, Clone)]
pub enum PendingOp {
    Status { from: u64, to: u64 },
    Diff { from: u64, to: u64 },
    Mount { id: u64 },
    Umount { id: u64 },
    Rollback { id: u64 },
    Cleanup { algorithm: String },
    SetupQuota,
    SetConfig,
    GetConfigForEdit,
    LimineSync { id: u64, name: String },
    Create,
    Modify { id: u64 },
    Delete { id: u64 },
}

/// The outside work a request asks for.
#[derive(Debug, Clone)]
pub enum Task {
    ListSnapshots { config: String },
    Status { config: String, from: u64, to: u64 },
    Diff { config: String, from: u64, to: u64 },
    Mount { config: String, id: u64 },
    Umount { config: String, id: u64 },
    Rollback { config: String, id: u64 },
    Cleanup { config: String, algorithm: String },
    GetConfig { config: String },
    SetConfig { config: String, pairs: Vec<String> },
    SetupQuota { config: String },
    LimineSync { id: u64, name: String },
    Create { config: String, description: String },
    Modify { config: String, id: u64, description: String },
    Delete { config: String, id: u64 },
}

/// A request with the ticket its result must carry to be applied.
#[derive(Debug, Clone)]
pub struct Job {
    pub ticket: u64,
    pub task: Task,
    pub use_sudo: bool,
}

/// What the state machine asks its runner to do.
#[derive(Debug, Clone)]
pub enum Effect {
    /// Run in the background; deliver the result on the next ticks.
    Spawn(Job),
    /// Run at once, before the next input; deliver the result right after.
    RunNow(Job),
    /// Store the preferences.
    Save(State),
    /// Read the configuration list again and hand it to `refresh_all`.
    RefreshConfigs,
}

/// What a poll of one completion slot found.
#[derive(Debug)]
pub enum Delivery<T> {
    /// Nothing yet.
    Empty,
    /// The worker ended without a result.
    Disconnected,
    /// A result, with the ticket of the request it answers.
    Ready(u64, Result<T, String>),
}

/// Inserting `c` at character position `cur` (clamped to the end).
pub open spec fn edit_insert(buf: Seq<char>, cur: nat, c: char) -> (Seq<char>, nat) {
    let p = if cur <= buf.len() {
        cur
    } else {
        buf.len()
    };
    (buf.take(p as int) + seq![c] + buf.skip(p as int), p + 1)
}

/// Removing the character before position `cur`.
pub open spec fn edit_backspace(buf: Seq<char>, cur: nat) -> (Seq<char>, nat) {
    if cur == 0 {
        (buf, cur)
    } else if cur - 1 < buf.len() {
        (buf.take(cur - 1) + buf.skip(cur as int), (cur - 1) as nat)
    } else {
        (buf, (cur - 1) as nat)
    }
}

/// Removing the character at position `cur`.
pub open spec fn edit_delete(buf: Seq<char>, cur: nat) -> Seq<char> {
    if cur < buf.len() {
        buf.take(cur as int) + buf.skip(cur + 1 as int)
    } else {
        buf
    }
}

/// Inserting a character and then erasing it with backspace gives back the buffer and the
/// cursor, wherever the cursor stood within the buffer.
pub proof fn lemma_insert_then_backspace(buf: Seq<char>, cur: nat, c: char)
    requires
        cur <= buf.len(),
    ensures
        edit_backspace(edit_insert(buf, cur, c).0, edit_insert(buf, cur, c).1) == (buf, cur),
{
    let (b2, c2) = edit_insert(buf, cur, c);
    assert(b2.take(c2 - 1) + b2.skip(c2 as int) =~= buf);
}

/// A snapshot matches a lower-case query when one of its text fields, lower-cased, or its
/// id contains it.
pub open spec fn snapshot_matches(s: SnapshotView, q: Seq<char>) -> bool {
    contains(lower_of(s.description), q) || contains(lower_of(s.date), q) || contains(
        lower_of(s.kind),
        q,
    ) || contains(lower_of(s.cleanup), q) || contains(lower_of(s.user), q) || contains(
        decimal(s.id as nat),
        q,
    )
}

/// The query a filter text stands for: trimmed and lower-cased.
pub open spec fn filter_query(text: Seq<char>) -> Seq<char> {
    lower_of(trim(text))
}

pub open spec fn keep_matching(xs: Seq<SnapshotView>, q: Seq<char>) -> Seq<SnapshotView> {
    xs.filter_map(
        |s: SnapshotView|
            if snapshot_matches(s, q) {
                Some(s)
            } else {
                None
            },
    )
}

/// The snapshots a filter text lets through, in their order; an empty query keeps all.
pub open spec fn filtered(xs: Seq<SnapshotView>, text: Seq<char>) -> Seq<SnapshotView> {
    if trim(text).len() == 0 {
        xs
    } else {
        keep_matching(xs, filter_query(text))
    }
}

proof fn lemma_keep_matching_idempotent(xs: Seq<SnapshotView>, q: Seq<char>)
    ensures
        keep_matching(keep_matching(xs, q), q) == keep_matching(xs, q),
        forall|k: int|
            0 <= k < keep_matching(xs, q).len() ==> snapshot_matches(
                #[trigger] keep_matching(xs, q)[k],
                q,
            ),
    decreases xs.len(),
{
    if xs.len() > 0 {
        let rest = xs.drop_last();
        lemma_keep_matching_idempotent(rest, q);
        if snapshot_matches(xs.last(), q) {
            let k = keep_matching(rest, q) + seq![xs.last()];
            assert(keep_matching(xs, q) == k);
            assert(k.drop_last() =~= keep_matching(rest, q));
            assert(keep_matching(k, q) == keep_matching(keep_matching(rest, q), q) + seq![xs.last()]);
        }
    }
}

/// Filtering a filtered list again with the same text changes nothing.
pub proof fn lemma_filter_idempotent(xs: Seq<SnapshotView>, text: Seq<char>)
    ensures
        filtered(filtered(xs, text), text) == filtered(xs, text),
{
    lemma_keep_matching_idempotent(xs, filter_query(text));
}

fn field_matches(field: &String, q: &Vec<char>) -> (r: bool)
    ensures
        r == contains(lower_of(field@), q@),
{
    let low = lowercase(field.as_str());
    contains_chars(&chars_of(low.as_str()), q)
}

fn matches_query(s: &Snapshot, q: &Vec<char>) -> (r: bool)
    ensures
        r == snapshot_matches(s@, q@),
{
    field_matches(&s.description, q) || field_matches(&s.date, q) || field_matches(&s.kind, q)
        || field_matches(&s.cleanup, q) || field_matches(&s.user, q) || contains_chars(
        &decimal_chars(s.id),
        q,
    )
}

/// The snapshots that `filter_text` lets through, in order.
pub fn filter_snapshots(snaps: &Vec<Snapshot>, filter_text: &str) -> (r: Vec<Snapshot>)
    ensures
        snapshots_view(r@) == filtered(snapshots_view(snaps@), filter_text@),
{
    let trimmed_chars = trim_chars(&chars_of(filter_text));
    if trimmed_chars.len() == 0 {
        return duplicate_all(snaps);
    }
    let trimmed = string_of(&trimmed_chars);
    let q = chars_of(lowercase(trimmed.as_str()).as_str());
    let ghost xs = snapshots_view(snaps@);
    let mut r: Vec<Snapshot> = Vec::new();
    let mut i: usize = 0;
    while i < snaps.len()
        invariant
            i <= snaps@.len(),
            xs == snapshots_view(snaps@),
            q@ == filter_query(filter_text@),
            snapshots_view(r@) == keep_matching(xs.subrange(0, i as int), q@),
        decreases snaps@.len() - i,
    {
        let keep = matches_query(&snaps[i], &q);
        assert(xs.subrange(0, i + 1).drop_last() =~= xs.subrange(0, i as int));
        assert(xs.subrange(0, i + 1).last() == snaps@[i as int]@);
        if keep {
            r.push(snaps[i].duplicate());
        }
        i = i + 1;
        assert(snapshots_view(r@) =~= keep_matching(xs.subrange(0, i as int), q@));
    }
    assert(xs.subrange(0, xs.len() as int) =~= xs);
    r
}

/// How long a cached listing stays fresh, in milliseconds.
pub const CACHE_TTL_MS: u64 = 3000;

/// The whole interaction state.
pub struct App {
    pub status: String,
    pub focus: Focus,
    pub configs: Vec<Config>,
    /// Snapshots of the selected configuration, unfiltered.
    pub snapshots: Vec<Snapshot>,
    /// The filtered view shown.
    pub filtered_snaps: Vec<Snapshot>,
    pub configs_state: ListState,
    pub snaps_state: ListState,
    pub mode: Mode,
    pub input: String,
    pub use_sudo: bool,
    /// Cursor position in characters within `input`.
    pub input_cursor: usize,
    pub details_text: String,
    pub details_scroll: u16,
    pub details_lines: u16,
    pub snaps_fullscreen: bool,
    pub filter_text: String,
    pub tick: u64,
    /// Ticket of the tracked operation result, if one is awaited.
    pub status_job: Option<u64>,
    /// Ticket of the tracked listing refresh, if one is awaited.
    pub snaps_job: Option<u64>,
    pub snaps_loading_for: Option<String>,
    pub snaps_cache: SnapshotCache,
    pub pending: Option<PendingOp>,
    pub loading_message: String,
    pub details_title: String,
    pub details_query: String,
    pub cfg_fields: Vec<ConfigField>,
    pub cfg_field_idx: Option<usize>,
    pub show_userdata: bool,
    /// The configuration names found in the configuration directory at the last refresh.
    pub known_configs: Vec<String>,
    /// Ticket the next request gets.
    pub next_ticket: u64,
    /// Current time in milliseconds, as of the last tick.
    pub now: u64,
    /// Requests for the runner, oldest first.
    pub effects: Vec<Effect>,
}

impl Default for App {
    fn default() -> (r: App)
        ensures
            r.configs@.len() == 0,
            r.snapshots@.len() == 0,
            r.filtered_snaps@.len() == 0,
            r.input@.len() == 0,
            r.mode is Normal,
            r.pending.is_none(),
            r.status_job.is_none(),
            r.snaps_job.is_none(),
            r.effects@.len() == 0,
            r.snaps_cache@ == Map::<Seq<char>, (Seq<SnapshotView>, u64)>::empty(),
            r.snaps_cache.ttl == CACHE_TTL_MS,
    {
        App {
            status: String::new(),
            focus: Focus::Snapshots,
            configs: Vec::new(),
            snapshots: Vec::new(),
            filtered_snaps: Vec::new(),
            configs_state: ListState { selected: None },
            snaps_state: ListState { selected: None },
            mode: Mode::Normal,
            input: String::new(),
            use_sudo: false,
            input_cursor: 0,
            details_text: String::new(),
            details_scroll: 0,
            details_lines: 0,
            snaps_fullscreen: false,
            filter_text: String::new(),
            tick: 0,
            status_job: None,
            snaps_job: None,
            snaps_loading_for: None,
            snaps_cache: SnapshotCache::new(CACHE_TTL_MS),
            pending: None,
            loading_message: String::new(),
            details_title: String::from_str("Snapshot status"),
            details_query: String::new(),
            cfg_fields: Vec::new(),
            cfg_field_idx: None,
            show_userdata: false,
            known_configs: Vec::new(),
            next_ticket: 0,
            now: 0,
            effects: Vec::new(),
        }
    }
}

/// The ticket after `t`.
pub open spec fn next_ticket_after(t: u64) -> u64 {
    if t == u64::MAX {
        0
    } else {
        (t + 1) as u64
    }
}

/// `i` kept within a list of `len` rows.
pub open spec fn clamped(i: usize, len: nat) -> usize {
    if i < len {
        i
    } else {
        (len - 1) as usize
    }
}

/// `b` is `a` after a request was started: a tag and a new ticket are tracked, one request
/// is added, and nothing changes but the loading view, the status line and the titles and
/// form contents the request prepares.
pub open spec fn started_frame(a: App, b: App) -> bool {
    &&& b.pending is Some
    &&& b.status_job == Some(a.next_ticket)
    &&& b.next_ticket == next_ticket_after(a.next_ticket)
    &&& b.effects@.len() == a.effects@.len() + 1
    &&& b.effects@.subrange(0, a.effects@.len() as int) == a.effects@
    &&& (App {
        pending: b.pending,
        status_job: b.status_job,
        mode: b.mode,
        loading_message: b.loading_message,
        status: b.status,
        next_ticket: b.next_ticket,
        effects: b.effects,
        details_title: b.details_title,
        details_text: b.details_text,
        details_lines: b.details_lines,
        details_scroll: b.details_scroll,
        cfg_fields: b.cfg_fields,
        cfg_field_idx: b.cfg_field_idx,
        ..a
    }) == b
}

/// A pending tag is kept exactly while a ticket is tracked.
pub open spec fn tag_paired(a: App) -> bool {
    a.pending is Some <==> a.status_job is Some
}

/// `b` differs from `a` at most in the input buffer, its cursor, the mode and the status.
pub open spec fn input_opened(a: App, b: App) -> bool {
    (App { input: b.input, input_cursor: b.input_cursor, mode: b.mode, status: b.status, ..a }) == b
}

/// `b` is `a` with only the status line changed.
pub open spec fn status_only(a: App, b: App) -> bool {
    (App { status: b.status, ..a }) == b
}

/// `b` has the mode, the pending operation and its ticket of `a`.
pub open spec fn keeps_request_state(a: App, b: App) -> bool {
    b.mode == a.mode && b.pending == a.pending && b.status_job == a.status_job
}

/// The selection that keeps a list's first row, or none when it is empty.
pub open spec fn first_or_none(len: nat) -> Option<usize> {
    if len == 0 {
        None
    } else {
        Some(0usize)
    }
}

impl App {
    /// Name of the selected configuration, if the selection is valid.
    pub open spec fn selected_name(&self) -> Option<Seq<char>> {
        match self.configs_state.selected {
            Some(i) => if i < self.configs@.len() {
                Some(self.configs@[i as int].name@)
            } else {
                None
            },
            None => None,
        }
    }

    /// The selected snapshot of the filtered view, if the selection is valid.
    pub open spec fn selected_snapshot(&self) -> Option<SnapshotView> {
        match self.snaps_state.selected {
            Some(i) => if i < self.filtered_snaps@.len() {
                Some(self.filtered_snaps@[i as int]@)
            } else {
                None
            },
            None => None,
        }
    }

    /// `e` stores the preferences of this state.
    pub open spec fn is_save_of(&self, e: Effect) -> bool {
        match e {
            Effect::Save(st) => st.use_sudo == self.use_sudo && st.snaps_fullscreen
                == self.snaps_fullscreen && (match self.selected_name() {
                Some(n) => st.last_config is Some && st.last_config.unwrap()@ == n,
                None => st.last_config is None,
            }) && (if trim(self.filter_text@).len() == 0 {
                st.filter is None
            } else {
                st.filter is Some && st.filter.unwrap()@ == self.filter_text@
            }),
            _ => false,
        }
    }

    pub fn selected_config_name(&self) -> (r: Option<String>)
        ensures
            r.is_some() == self.selected_name().is_some(),
            r.is_some() ==> r.unwrap()@ == self.selected_name().unwrap(),
    {
        match self.configs_state.selected {
            Some(i) => if i < self.configs.len() {
                Some(self.configs[i].name.clone())
            } else {
                None
            },
            None => None,
        }
    }

    /// The preferences to keep.
    pub fn state(&self) -> (r: State)
        ensures
            self.is_save_of(Effect::Save(r)),
    {
        let trimmed = trim_chars(&chars_of(self.filter_text.as_str()));
        State {
            use_sudo: self.use_sudo,
            snaps_fullscreen: self.snaps_fullscreen,
            last_config: self.selected_config_name(),
            filter: if trimmed.len() == 0 {
                None
            } else {
                Some(self.filter_text.clone())
            },
        }
    }

    /// Asks for the preferences to be stored.
    pub fn persist_state(&mut self)
        ensures
            final(self).effects@.len() == old(self).effects@.len() + 1,
            final(self).effects@.subrange(0, old(self).effects@.len() as int) == old(self).effects@,
            old(self).is_save_of(final(self).effects@.last()),
            (App { effects: final(self).effects, ..*old(self) }) == *final(self),
    {
        let st = self.state();
        self.effects.push(Effect::Save(st));
        assert(final(self).effects@.subrange(0, old(self).effects@.len() as int) =~= old(self).effects@);
    }

    /// Hands over the requests made so far, oldest first.
    pub fn take_effects(&mut self) -> (r: Vec<Effect>)
        ensures
            r@ == old(self).effects@,
            final(self).effects@.len() == 0,
            (App { effects: final(self).effects, ..*old(self) }) == *final(self),
    {
        let mut out: Vec<Effect> = Vec::new();
        std::mem::swap(&mut out, &mut self.effects);
        out
    }

    // --- input editing ---

    pub fn input_len_chars(&self) -> (r: usize)
        ensures
            r == self.input@.len(),
    {
        chars_of(self.input.as_str()).len()
    }

    pub fn input_move_left(&mut self)
        ensures
            final(self).input_cursor == (if old(self).input_cursor > 0 {
                (old(self).input_cursor - 1) as usize
            } else {
                0
            }),
            (App { input_cursor: final(self).input_cursor, ..*old(self) }) == *final(self),
    {
        if self.input_cursor > 0 {
            self.input_cursor = self.input_cursor - 1;
        }
    }

    pub fn input_move_right(&mut self)
        ensures
            final(self).input_cursor == (if old(self).input_cursor < old(self).input@.len() {
                (old(self).input_cursor + 1) as usize
            } else {
                old(self).input_cursor
            }),
            (App { input_cursor: final(self).input_cursor, ..*old(self) }) == *final(self),
    {
        let len = self.input_len_chars();
        if self.input_cursor < len {
            self.input_cursor = self.input_cursor + 1;
        }
    }

    pub fn input_move_home(&mut self)
        ensures
            final(self).input_cursor == 0,
            (App { input_cursor: final(self).input_cursor, ..*old(self) }) == *final(self),
    {
        self.input_cursor = 0;
    }

    pub fn input_move_end(&mut self)
        ensures
            final(self).input_cursor == old(self).input@.len(),
            (App { input_cursor: final(self).input_cursor, ..*old(self) }) == *final(self),
    {
        self.input_cursor = self.input_len_chars();
    }

    /// Inserts `c` at the cursor, which moves past it.
    pub fn input_insert_char(&mut self, c: char)
        requires
            old(self).input@.len() < usize::MAX,
        ensures
            (final(self).input@, final(self).input_cursor as nat) == edit_insert(
                old(self).input@,
                old(self).input_cursor as nat,
                c,
            ),
            (App { input: final(self).input, input_cursor: final(self).input_cursor, ..*old(self) })
                == *final(self),
    {
        let mut v = chars_of(self.input.as_str());
        let p = if self.input_cursor <= v.len() {
            self.input_cursor
        } else {
            v.len()
        };
        v.insert(p, c);
        self.input = string_of(&v);
        self.input_cursor = p + 1;
        assert(self.input@ =~= edit_insert(old(self).input@, old(self).input_cursor as nat, c).0);
    }

    /// Removes the character before the cursor, which moves back over it.
    pub fn input_backspace(&mut self)
        ensures
            (final(self).input@, final(self).input_cursor as nat) == edit_backspace(
                old(self).input@,
                old(self).input_cursor as nat,
            ),
            (App { input: final(self).input, input_cursor: final(self).input_cursor, ..*old(self) })
                == *final(self),
    {
        if self.input_cursor == 0 {
            return;
        }
        let pos = self.input_cursor - 1;
        let mut v = chars_of(self.input.as_str());
        if pos < v.len() {
            v.remove(pos);
            self.input = string_of(&v);
            assert(self.input@ =~= edit_backspace(old(self).input@, old(self).input_cursor as nat).0);
        }
        self.input_cursor = pos;
    }

    /// Removes the character at the cursor.
    pub fn input_delete(&mut self)
        ensures
            final(self).input@ == edit_delete(old(self).input@, old(self).input_cursor as nat),
            (App { input: final(self).input, ..*old(self) }) == *final(self),
    {
        let mut v = chars_of(self.input.as_str());
        if self.input_cursor >= v.len() {
            return;
        }
        v.remove(self.input_cursor);
        self.input = string_of(&v);
        assert(self.input@ =~= edit_delete(old(self).input@, old(self).input_cursor as nat));
    }

    /// Recomputes the filtered view from the raw list and the filter text.
    pub fn apply_filter(&mut self)
        ensures
            snapshots_view(final(self).filtered_snaps@) == filtered(
                snapshots_view(old(self).snapshots@),
                old(self).filter_text@,
            ),
            (App { filtered_snaps: final(self).filtered_snaps, ..*old(self) }) == *final(self),
    {
        self.filtered_snaps = filter_snapshots(&self.snapshots, self.filter_text.as_str());
    }
}

/// `e` asks for the snapshot listing of `name` in the background, under `ticket`.
pub open spec fn spawns_listing(e: Effect, ticket: u64, name: Seq<char>, use_sudo: bool) -> bool {
    match e {
        Effect::Spawn(job) => job.ticket == ticket && job.use_sudo == use_sudo && match job.task {
            Task::ListSnapshots { config } => config@ == name,
            _ => false,
        },
        _ => false,
    }
}

/// The status line shown while a listing of `name` is requested.
pub open spec fn loading_status(cached: bool, name: Seq<char>) -> Seq<char> {
    (if cached {
        "Refreshing snapshots for "@
    } else {
        "Loading snapshots for "@
    }) + name + "…"@
}

/// `b` is `a` after showing the selected configuration's snapshots: a cached list at once
/// (fresh or not), and a background listing request unless that list is still fresh.
pub open spec fn snapshots_loaded(a: App, b: App) -> bool {
    match a.selected_name() {
        None => b == a,
        Some(name) => {
            let hit = lookup(a.snaps_cache@, name, a.now);
            &&& hit is Some ==> snapshots_view(b.snapshots@) == hit.unwrap().0
                && snapshots_view(b.filtered_snaps@) == filtered(hit.unwrap().0, a.filter_text@)
            &&& hit is None ==> b.snapshots@.len() == 0 && b.filtered_snaps@.len() == 0
            &&& b.snaps_state.selected == first_or_none(b.filtered_snaps@.len())
            &&& is_fresh_hit(hit, a.snaps_cache.ttl) ==> b.snaps_job == a.snaps_job
                && b.snaps_loading_for == a.snaps_loading_for && b.effects == a.effects
                && b.next_ticket == a.next_ticket && b.status@ == "Cached snapshots for "@ + name
                + " ("@ + decimal((hit.unwrap().1 / 1000) as nat) + "s old)"@
            &&& !is_fresh_hit(hit, a.snaps_cache.ttl) ==> b.snaps_job == Some(a.next_ticket)
                && b.snaps_loading_for is Some && b.snaps_loading_for.unwrap()@ == name
                && b.next_ticket == next_ticket_after(a.next_ticket) && b.effects@.len()
                == a.effects@.len() + 1 && b.effects@.subrange(0, a.effects@.len() as int)
                == a.effects@ && spawns_listing(b.effects@.last(), a.next_ticket, name, a.use_sudo)
                && b.status@ == loading_status(hit is Some, name)
            &&& (App {
                snapshots: b.snapshots,
                filtered_snaps: b.filtered_snaps,
                snaps_state: b.snaps_state,
                status: b.status,
                snaps_job: b.snaps_job,
                snaps_loading_for: b.snaps_loading_for,
                next_ticket: b.next_ticket,
                effects: b.effects,
                ..a
            }) == b
        },
    }
}

/// A cache answer that spares a new listing request.
pub open spec fn is_fresh_hit(hit: Option<(Seq<SnapshotView>, u64)>, ttl: u64) -> bool {
    hit is Some && hit.unwrap().1 < ttl
}

/// Position `idx` moved back by `step`, stopping at zero.
pub open spec fn step_back(idx: usize, step: usize) -> usize {
    if idx >= step {
        (idx - step) as usize
    } else {
        0
    }
}

/// Position `idx` moved on by `step`, stopping at the last of `len` rows.
pub open spec fn step_on(idx: usize, step: usize, len: usize) -> usize {
    if idx + step < len {
        (idx + step) as usize
    } else {
        (len - 1) as usize
    }
}

impl App {
    /// Shows the snapshots of the selected configuration: a cached list at once, and a
    /// background refresh unless that list is still fresh.
    pub fn load_snapshots_for_selected(&mut self)
        ensures
            snapshots_loaded(*old(self), *final(self)),
    {
        let cfg_name = match self.selected_config_name() {
            Some(n) => n,
            None => return,
        };
        let hit = self.snaps_cache.get(cfg_name.as_str(), self.now);
        let ghost old_effects = self.effects@;
        match hit {
            Some((cached, age)) => {
                self.snapshots = cached;
                self.apply_filter();
                self.snaps_state.selected = if self.filtered_snaps.len() == 0 {
                    None
                } else {
                    Some(0)
                };
                if self.snaps_cache.is_fresh(age) {
                    let m = concat("Cached snapshots for ", cfg_name.as_str());
                    let m = concat(m.as_str(), " (");
                    let m = concat(m.as_str(), decimal_string(age / 1000).as_str());
                    self.status = concat(m.as_str(), "s old)");
                    return;
                }
            },
            None => {
                self.snapshots = Vec::new();
                self.filtered_snaps = Vec::new();
                self.snaps_state.selected = None;
            },
        }
        let ticket = self.next_ticket;
        self.next_ticket = if ticket == u64::MAX {
            0
        } else {
            ticket + 1
        };
        let job = Job {
            ticket,
            task: Task::ListSnapshots { config: cfg_name.clone() },
            use_sudo: self.use_sudo,
        };
        self.effects.push(Effect::Spawn(job));
        assert(self.effects@.subrange(0, old_effects.len() as int) =~= old_effects);
        self.snaps_job = Some(ticket);
        let prefix = if self.snaps_cache.contains_key(cfg_name.as_str()) {
            "Refreshing snapshots for "
        } else {
            "Loading snapshots for "
        };
        let m = concat(prefix, cfg_name.as_str());
        self.status = concat(m.as_str(), "…");
        self.snaps_loading_for = Some(cfg_name);
    }

    /// Starts a background request and tracks it as the one pending operation, replacing
    /// whatever was tracked before.
    pub fn start_job(&mut self, task: Task, op: PendingOp, message: String)
        ensures
            started_frame(*old(self), *final(self)),
            final(self).pending == Some(op),
            final(self).status_job == Some(old(self).next_ticket),
            final(self).mode is Loading,
            final(self).loading_message == message,
            final(self).status@.len() == 0,
            final(self).next_ticket == next_ticket_after(old(self).next_ticket),
            final(self).effects@ == old(self).effects@.push(
                Effect::Spawn(Job { ticket: old(self).next_ticket, task, use_sudo: old(self).use_sudo }),
            ),
            (App {
                pending: final(self).pending,
                status_job: final(self).status_job,
                mode: final(self).mode,
                loading_message: final(self).loading_message,
                status: final(self).status,
                next_ticket: final(self).next_ticket,
                effects: final(self).effects,
                ..*old(self)
            }) == *final(self),
    {
        let ticket = self.next_ticket;
        self.next_ticket = if ticket == u64::MAX {
            0
        } else {
            ticket + 1
        };
        self.effects.push(Effect::Spawn(Job { ticket, task, use_sudo: self.use_sudo }));
        assert(self.effects@.subrange(0, old(self).effects@.len() as int) =~= old(self).effects@);
        self.status_job = Some(ticket);
        self.pending = Some(op);
        self.loading_message = message;
        self.status = String::new();
        self.mode = Mode::Loading;
    }

    /// Moves the focused list's selection up one row.
    pub fn on_up(&mut self)
        ensures
            keeps_request_state(*old(self), *final(self)),
            old(self).focus == Focus::Snapshots && old(self).filtered_snaps@.len() == 0 ==> *final(self) == *old(self),
            old(self).focus == Focus::Snapshots && old(self).filtered_snaps@.len() > 0 ==> final(self).snaps_state.selected == Some(
                step_back(old(self).snaps_state.selected.unwrap_or(0), 1),
            ),
            old(self).focus == Focus::Snapshots ==> (App { snaps_state: final(self).snaps_state, ..*old(self) }) == *final(self),
            old(self).focus == Focus::Configs && old(self).configs@.len() > 0 ==> final(self).configs_state.selected == Some(
                step_back(old(self).configs_state.selected.unwrap_or(0), 1),
            ),
            old(self).focus == Focus::Configs && old(self).configs@.len() == 0 ==> *final(self) == *old(self),
    {
        if self.focus == Focus::Configs {
            self.select_prev_config();
            return;
        }
        let len = self.filtered_snaps.len();
        if len == 0 {
            return;
        }
        let idx = self.snaps_state.selected.unwrap_or(0);
        self.snaps_state.selected = Some(if idx >= 1 { idx - 1 } else { 0 });
    }

    /// Moves the focused list's selection down one row.
    pub fn on_down(&mut self)
        ensures
            keeps_request_state(*old(self), *final(self)),
            old(self).focus == Focus::Snapshots && old(self).filtered_snaps@.len() == 0 ==> *final(self) == *old(self),
            old(self).focus == Focus::Snapshots && old(self).filtered_snaps@.len() > 0 ==> final(self).snaps_state.selected == Some(
                step_on(
                    old(self).snaps_state.selected.unwrap_or(0),
                    1,
                    old(self).filtered_snaps@.len() as usize,
                ),
            ),
            old(self).focus == Focus::Snapshots ==> (App { snaps_state: final(self).snaps_state, ..*old(self) }) == *final(self),
            old(self).focus == Focus::Configs && old(self).configs@.len() > 0 ==> final(self).configs_state.selected == Some(
                step_on(old(self).configs_state.selected.unwrap_or(0), 1, old(self).configs@.len() as usize),
            ),
            old(self).focus == Focus::Configs && old(self).configs@.len() == 0 ==> *final(self) == *old(self),
    {
        if self.focus == Focus::Configs {
            self.select_next_config();
            return;
        }
        let len = self.filtered_snaps.len();
        if len == 0 {
            return;
        }
        let idx = self.snaps_state.selected.unwrap_or(0);
        self.snaps_state.selected = Some(if idx < len - 1 { idx + 1 } else { len - 1 });
    }

    /// Selects configuration `new`, shows its snapshots and keeps the choice.
    fn select_config(&mut self, new: usize)
        ensures
            keeps_settings(*old(self), *final(self)),
            final(self).configs_state.selected == Some(new),
            final(self).configs == old(self).configs,
            final(self).mode == old(self).mode,
            final(self).pending == old(self).pending,
            final(self).status_job == old(self).status_job,
            final(self).effects@.len() > old(self).effects@.len(),
            final(self).effects@.subrange(0, old(self).effects@.len() as int) == old(self).effects@,
            new < old(self).configs@.len() ==> final(self).selected_name() == Some(
                old(self).configs@[new as int].name@,
            ),
    {
        self.configs_state.selected = Some(new);
        self.load_snapshots_for_selected();
        self.persist_state();
        assert(self.effects@.subrange(0, old(self).effects@.len() as int) =~= old(self).effects@);
    }

    /// Selects the previous configuration.
    pub fn select_prev_config(&mut self)
        ensures
            keeps_request_state(*old(self), *final(self)),
            old(self).configs@.len() == 0 ==> *final(self) == *old(self),
            old(self).configs@.len() > 0 ==> final(self).configs_state.selected == Some(
                step_back(old(self).configs_state.selected.unwrap_or(0), 1),
            ),
    {
        let len = self.configs.len();
        if len == 0 {
            return;
        }
        let idx = self.configs_state.selected.unwrap_or(0);
        self.select_config(if idx >= 1 { idx - 1 } else { 0 });
    }

    /// Selects the next configuration.
    pub fn select_next_config(&mut self)
        ensures
            keeps_request_state(*old(self), *final(self)),
            old(self).configs@.len() == 0 ==> *final(self) == *old(self),
            old(self).configs@.len() > 0 ==> final(self).configs_state.selected == Some(
                step_on(old(self).configs_state.selected.unwrap_or(0), 1, old(self).configs@.len() as usize),
            ),
    {
        let len = self.configs.len();
        if len == 0 {
            return;
        }
        let idx = self.configs_state.selected.unwrap_or(0);
        self.select_config(if idx < len - 1 { idx + 1 } else { len - 1 });
    }

    /// Moves the focused list's selection up ten rows.
    pub fn on_page_up(&mut self)
        ensures
            keeps_request_state(*old(self), *final(self)),
            old(self).focus == Focus::Configs && old(self).configs@.len() > 0 ==> final(self).configs_state.selected == Some(step_back(old(self).configs_state.selected.unwrap_or(0), 10)),
            old(self).focus == Focus::Snapshots && old(self).filtered_snaps@.len() > 0 ==> final(self).snaps_state.selected == Some(step_back(old(self).snaps_state.selected.unwrap_or(0), 10)),
            old(self).focus == Focus::Configs && old(self).configs@.len() == 0 ==> *final(self)
                == *old(self),
            old(self).focus == Focus::Snapshots ==> (App { snaps_state: final(self).snaps_state, ..*old(self) })
                == *final(self),
    {
        match self.focus {
            Focus::Configs => {
                let len = self.configs.len();
                if len == 0 {
                    return;
                }
                let idx = self.configs_state.selected.unwrap_or(0);
                self.select_config(if idx >= 10 { idx - 10 } else { 0 });
            },
            Focus::Snapshots => {
                let len = self.filtered_snaps.len();
                if len == 0 {
                    return;
                }
                let idx = self.snaps_state.selected.unwrap_or(0);
                self.snaps_state.selected = Some(if idx >= 10 { idx - 10 } else { 0 });
            },
        }
    }

    /// Moves the focused list's selection down ten rows.
    pub fn on_page_down(&mut self)
        ensures
            keeps_request_state(*old(self), *final(self)),
            old(self).focus == Focus::Configs && old(self).configs@.len() > 0 ==> final(self).configs_state.selected == Some(
                step_on(old(self).configs_state.selected.unwrap_or(0), 10, old(self).configs@.len() as usize),
            ),
            old(self).focus == Focus::Snapshots && old(self).filtered_snaps@.len() > 0 ==> final(self).snaps_state.selected == Some(
                step_on(old(self).snaps_state.selected.unwrap_or(0), 10, old(self).filtered_snaps@.len() as usize),
            ),
            old(self).focus == Focus::Configs && old(self).configs@.len() == 0 ==> *final(self)
                == *old(self),
            old(self).focus == Focus::Snapshots ==> (App { snaps_state: final(self).snaps_state, ..*old(self) })
                == *final(self),
    {
        match self.focus {
            Focus::Configs => {
                let len = self.configs.len();
                if len == 0 {
                    return;
                }
                let idx = self.configs_state.selected.unwrap_or(0);
                self.select_config(if len >= 10 && idx < len - 10 { idx + 10 } else { len - 1 });
            },
            Focus::Snapshots => {
                let len = self.filtered_snaps.len();
                if len == 0 {
                    return;
                }
                let idx = self.snaps_state.selected.unwrap_or(0);
                self.snaps_state.selected = Some(
                    if len >= 10 && idx < len - 10 {
                        idx + 10
                    } else {
                        len - 1
                    },
                );
            },
        }
    }

    /// Selects the first row of the focused list.
    pub fn on_home(&mut self)
        ensures
            keeps_request_state(*old(self), *final(self)),
            old(self).focus == Focus::Configs && old(self).configs@.len() > 0 ==> final(self).configs_state.selected == Some(0usize),
            old(self).focus == Focus::Snapshots && old(self).filtered_snaps@.len() > 0 ==> final(self).snaps_state.selected == Some(0usize),
    {
        match self.focus {
            Focus::Configs => {
                if self.configs.len() == 0 {
                    return;
                }
                self.configs_state.selected = Some(0);
                self.load_snapshots_for_selected();
            },
            Focus::Snapshots => {
                if self.filtered_snaps.len() == 0 {
                    return;
                }
                self.snaps_state.selected = Some(0);
            },
        }
    }

    /// Selects the last row of the focused list.
    pub fn on_end(&mut self)
        ensures
            keeps_request_state(*old(self), *final(self)),
            old(self).focus == Focus::Configs && old(self).configs@.len() > 0 ==> final(self).configs_state.selected == Some((old(self).configs@.len() - 1) as usize),
            old(self).focus == Focus::Snapshots && old(self).filtered_snaps@.len() > 0 ==> final(self).snaps_state.selected == Some((old(self).filtered_snaps@.len() - 1) as usize),
    {
        match self.focus {
            Focus::Configs => {
                let len = self.configs.len();
                if len == 0 {
                    return;
                }
                self.configs_state.selected = Some(len - 1);
                self.load_snapshots_for_selected();
            },
            Focus::Snapshots => {
                let len = self.filtered_snaps.len();
                if len == 0 {
                    return;
                }
                self.snaps_state.selected = Some(len - 1);
            },
        }
    }
}

/// The request that the last effect spawns, if it spawns one.
pub open spec fn spawned_task(effects: Seq<Effect>) -> Option<Task> {
    if effects.len() > 0 {
        match effects.last() {
            Effect::Spawn(job) => Some(job.task),
            Effect::RunNow(job) => Some(job.task),
            _ => None,
        }
    } else {
        None
    }
}

/// The task that a request for snapshot `id` of `config` asks for, by the tool's verb.
pub open spec fn targets(t: Task, config: Seq<char>, id: u64) -> bool {
    match t {
        Task::Mount { config: c, id: i } => c@ == config && i == id,
        Task::Umount { config: c, id: i } => c@ == config && i == id,
        Task::Rollback { config: c, id: i } => c@ == config && i == id,
        Task::Delete { config: c, id: i } => c@ == config && i == id,
        _ => false,
    }
}

impl App {
    fn set_status(&mut self, msg: &str)
        ensures
            final(self).status@ == msg@,
            (App { status: final(self).status, ..*old(self) }) == *final(self),
    {
        self.status = String::from_str(msg);
    }

    /// The selected configuration and snapshot: position in the view and id. Without a
    /// selection the status line says what to select.
    fn selected_target(&mut self, no_snapshot: &str) -> (r: Option<(String, usize, u64)>)
        ensures
            r is Some <==> (old(self).selected_name() is Some && old(self).selected_snapshot() is Some),
            r is Some ==> r.unwrap().0@ == old(self).selected_name().unwrap() && Some(r.unwrap().1)
                == old(self).snaps_state.selected && r.unwrap().1 < old(self).filtered_snaps@.len()
                && r.unwrap().2 == old(self).selected_snapshot().unwrap().id,
            r is Some ==> *final(self) == *old(self),
            old(self).selected_name() is None ==> final(self).status@ == "Select a config first"@,
            old(self).selected_name() is Some && old(self).snaps_state.selected is None ==> final(self).status@ == no_snapshot@,
            r is None ==> (App { status: final(self).status, ..*old(self) }) == *final(self),
    {
        let cfg = match self.selected_config_name() {
            Some(c) => c,
            None => {
                self.set_status("Select a config first");
                return None;
            },
        };
        let sidx = match self.snaps_state.selected {
            Some(i) => i,
            None => {
                self.set_status(no_snapshot);
                return None;
            },
        };
        if sidx >= self.filtered_snaps.len() {
            return None;
        }
        let id = self.filtered_snaps[sidx].id;
        Some((cfg, sidx, id))
    }

    /// The range compared for the snapshot at `sidx`: from the row before it, or from zero.
    fn compare_range(&self, sidx: usize) -> (r: (u64, u64))
        requires
            sidx < self.filtered_snaps@.len(),
        ensures
            r == self.range_at(sidx),
    {
        let to = self.filtered_snaps[sidx].id;
        if sidx > 0 {
            (self.filtered_snaps[sidx - 1].id, to)
        } else {
            (0, to)
        }
    }

    pub open spec fn range_at(&self, sidx: usize) -> (u64, u64) {
        let to = self.filtered_snaps@[sidx as int].id;
        if sidx > 0 {
            (self.filtered_snaps@[sidx - 1].id, to)
        } else {
            (0, to)
        }
    }

    /// Asks for the status between the previous and the selected snapshot.
    pub fn on_enter(&mut self)
        ensures
            old(self).selected_name() is Some && old(self).selected_snapshot() is Some ==> started_frame(*old(self), *final(self)),
            !(old(self).selected_name() is Some && old(self).selected_snapshot() is Some) ==> status_only(*old(self), *final(self)),
            old(self).selected_name() is Some && old(self).selected_snapshot() is Some ==> final(self).details_title@
                == "Status "@ + decimal(old(self).range_at(old(self).snaps_state.selected.unwrap()).0 as nat)
                + ".."@ + decimal(old(self).range_at(old(self).snaps_state.selected.unwrap()).1 as nat),
            old(self).selected_name() is Some && old(self).selected_snapshot() is Some ==> final(self).status@.len() == 0
                && final(self).next_ticket == next_ticket_after(old(self).next_ticket)
                && final(self).effects@.len() == old(self).effects@.len() + 1,
            old(self).selected_name() is Some && old(self).selected_snapshot() is Some ==> {
                let (from, to) = old(self).range_at(old(self).snaps_state.selected.unwrap());
                &&& final(self).pending == Some(PendingOp::Status { from, to })
                &&& final(self).mode is Loading
                &&& final(self).status_job == Some(old(self).next_ticket)
                &&& final(self).details_text@.len() == 0 && final(self).details_scroll == 0
                &&& spawned_task(final(self).effects@) matches Some(Task::Status { config, from: f, to: t })
                    && config@ == old(self).selected_name().unwrap() && f == from && t == to
            },
            !(old(self).selected_name() is Some && old(self).selected_snapshot() is Some) ==> (App {
                status: final(self).status,
                ..*old(self)
            }) == *final(self),
    {
        let (cfg, sidx, _id) = match self.selected_target("Select a snapshot") {
            Some(t) => t,
            None => return,
        };
        let (from, to) = self.compare_range(sidx);
        let range = self.range_text(from, to);
        self.start_job(
            Task::Status { config: cfg, from, to },
            PendingOp::Status { from, to },
            concat("Fetching status ", range.as_str()),
        );
        self.details_title = concat("Status ", range.as_str());
        self.details_text = String::new();
        self.details_lines = 0;
        self.details_scroll = 0;
    }

    /// `from..to`.
    fn range_text(&self, from: u64, to: u64) -> (r: String)
        ensures
            r@ == decimal(from as nat) + ".."@ + decimal(to as nat),
    {
        let a = concat(decimal_string(from).as_str(), "..");
        concat(a.as_str(), decimal_string(to).as_str())
    }

    /// Asks for the diff between the previous and the selected snapshot.
    pub fn on_diff(&mut self)
        ensures
            old(self).selected_name() is Some && old(self).selected_snapshot() is Some ==> started_frame(*old(self), *final(self)),
            !(old(self).selected_name() is Some && old(self).selected_snapshot() is Some) ==> status_only(*old(self), *final(self)),
            old(self).selected_name() is Some && old(self).selected_snapshot() is Some ==> final(self).details_title@
                == "Diff "@ + decimal(old(self).range_at(old(self).snaps_state.selected.unwrap()).0 as nat)
                + ".."@ + decimal(old(self).range_at(old(self).snaps_state.selected.unwrap()).1 as nat),
            old(self).selected_name() is Some && old(self).selected_snapshot() is Some ==> final(self).status@.len() == 0
                && final(self).next_ticket == next_ticket_after(old(self).next_ticket)
                && final(self).effects@.len() == old(self).effects@.len() + 1,
            old(self).selected_name() is Some && old(self).selected_snapshot() is Some ==> {
                let (from, to) = old(self).range_at(old(self).snaps_state.selected.unwrap());
                &&& final(self).pending == Some(PendingOp::Diff { from, to })
                &&& final(self).mode is Loading
                &&& final(self).status_job == Some(old(self).next_ticket)
                &&& spawned_task(final(self).effects@) matches Some(Task::Diff { config, from: f, to: t })
                    && config@ == old(self).selected_name().unwrap() && f == from && t == to
            },
            !(old(self).selected_name() is Some && old(self).selected_snapshot() is Some) ==> (App {
                status: final(self).status,
                ..*old(self)
            }) == *final(self),
    {
        let (cfg, sidx, _id) = match self.selected_target("Select a snapshot") {
            Some(t) => t,
            None => return,
        };
        let (from, to) = self.compare_range(sidx);
        let range = self.range_text(from, to);
        self.start_job(
            Task::Diff { config: cfg, from, to },
            PendingOp::Diff { from, to },
            concat("Fetching diff ", range.as_str()),
        );
        self.details_title = concat("Diff ", range.as_str());
    }

    /// Mounts the selected snapshot.
    pub fn on_mount(&mut self)
        ensures
            old(self).selected_name() is Some && old(self).selected_snapshot() is Some ==> started_frame(*old(self), *final(self)),
            !(old(self).selected_name() is Some && old(self).selected_snapshot() is Some) ==> status_only(*old(self), *final(self)),
            old(self).selected_name() is Some && old(self).selected_snapshot() is Some ==> final(self).status@.len() == 0
                && final(self).next_ticket == next_ticket_after(old(self).next_ticket)
                && final(self).effects@.len() == old(self).effects@.len() + 1,
            old(self).selected_name() is Some && old(self).selected_snapshot() is Some ==> {
                let id = old(self).selected_snapshot().unwrap().id;
                &&& final(self).pending == Some(PendingOp::Mount { id })
                &&& final(self).mode is Loading
                &&& final(self).status_job == Some(old(self).next_ticket)
                &&& spawned_task(final(self).effects@) matches Some(Task::Mount { .. })
                &&& targets(spawned_task(final(self).effects@).unwrap(), old(self).selected_name().unwrap(), id)
            },
            !(old(self).selected_name() is Some && old(self).selected_snapshot() is Some) ==> (App {
                status: final(self).status,
                ..*old(self)
            }) == *final(self),
    {
        let (cfg, _sidx, id) = match self.selected_target("Select a snapshot") {
            Some(t) => t,
            None => return,
        };
        self.start_job(
            Task::Mount { config: cfg, id },
            PendingOp::Mount { id },
            concat("Mounting #", decimal_string(id).as_str()),
        );
    }

    /// Unmounts the selected snapshot.
    pub fn on_umount(&mut self)
        ensures
            old(self).selected_name() is Some && old(self).selected_snapshot() is Some ==> started_frame(*old(self), *final(self)),
            !(old(self).selected_name() is Some && old(self).selected_snapshot() is Some) ==> status_only(*old(self), *final(self)),
            old(self).selected_name() is Some && old(self).selected_snapshot() is Some ==> final(self).status@.len() == 0
                && final(self).next_ticket == next_ticket_after(old(self).next_ticket)
                && final(self).effects@.len() == old(self).effects@.len() + 1,
            old(self).selected_name() is Some && old(self).selected_snapshot() is Some ==> {
                let id = old(self).selected_snapshot().unwrap().id;
                &&& final(self).pending == Some(PendingOp::Umount { id })
                &&& final(self).mode is Loading
                &&& final(self).status_job == Some(old(self).next_ticket)
                &&& spawned_task(final(self).effects@) matches Some(Task::Umount { .. })
                &&& targets(spawned_task(final(self).effects@).unwrap(), old(self).selected_name().unwrap(), id)
            },
            !(old(self).selected_name() is Some && old(self).selected_snapshot() is Some) ==> (App {
                status: final(self).status,
                ..*old(self)
            }) == *final(self),
    {
        let (cfg, _sidx, id) = match self.selected_target("Select a snapshot") {
            Some(t) => t,
            None => return,
        };
        self.start_job(
            Task::Umount { config: cfg, id },
            PendingOp::Umount { id },
            concat("Unmounting #", decimal_string(id).as_str()),
        );
    }

    /// Asks for confirmation before deleting the selected snapshot.
    pub fn start_delete_confirm(&mut self)
        ensures
            (App { mode: final(self).mode, status: final(self).status, ..*old(self) }) == *final(self),
            old(self).selected_snapshot() is Some ==> final(self).mode == Mode::ConfirmDelete(
                old(self).selected_snapshot().unwrap().id,
            ),
            old(self).snaps_state.selected is None ==> final(self).status@
                == "Select a snapshot to delete"@ && final(self).mode == old(self).mode,
    {
        let sidx = match self.snaps_state.selected {
            Some(i) => i,
            None => {
                self.set_status("Select a snapshot to delete");
                return;
            },
        };
        if sidx < self.filtered_snaps.len() {
            self.mode = Mode::ConfirmDelete(self.filtered_snaps[sidx].id);
        }
    }

    /// Asks for confirmation before rolling back to the selected snapshot.
    pub fn start_rollback_confirm(&mut self)
        ensures
            (App { mode: final(self).mode, status: final(self).status, ..*old(self) }) == *final(self),
            old(self).selected_snapshot() is Some ==> final(self).mode == Mode::ConfirmRollback(
                old(self).selected_snapshot().unwrap().id,
            ),
            old(self).snaps_state.selected is None ==> final(self).status@
                == "Select a snapshot to rollback"@ && final(self).mode == old(self).mode,
    {
        let sidx = match self.snaps_state.selected {
            Some(i) => i,
            None => {
                self.set_status("Select a snapshot to rollback");
                return;
            },
        };
        if sidx < self.filtered_snaps.len() {
            self.mode = Mode::ConfirmRollback(self.filtered_snaps[sidx].id);
        }
    }

    /// Starts a request on the selected configuration, or says that one must be selected.
    fn start_on_config(&mut self, make: ConfigRequest, message_prefix: &str, with_config: bool)
        ensures
            old(self).selected_name() is Some ==> started_frame(*old(self), *final(self)),
            old(self).selected_name() is None ==> status_only(*old(self), *final(self)),
            old(self).selected_name() is Some ==> final(self).loading_message@ == message_prefix@
                + (if with_config {
                old(self).selected_name().unwrap()
            } else {
                Seq::empty()
            }),
            old(self).selected_name() is None ==> final(self).status@ == "Select a config first"@
                && (App { status: final(self).status, ..*old(self) }) == *final(self),
            old(self).selected_name() is Some ==> (App {
                pending: final(self).pending,
                status_job: final(self).status_job,
                mode: final(self).mode,
                loading_message: final(self).loading_message,
                status: final(self).status,
                next_ticket: final(self).next_ticket,
                effects: final(self).effects,
                ..*old(self)
            }) == *final(self),
            old(self).selected_name() is Some ==> final(self).pending is Some && make.tracks(
                final(self).pending.unwrap(),
            ) && final(self).mode is Loading && final(self).status_job == Some(old(self).next_ticket)
                && spawned_task(final(self).effects@) is Some && make.asks(
                spawned_task(final(self).effects@).unwrap(),
                old(self).selected_name().unwrap(),
            ),
    {
        let cfg = match self.selected_config_name() {
            Some(c) => c,
            None => {
                self.set_status("Select a config first");
                return;
            },
        };
        let message = if with_config {
            concat(message_prefix, cfg.as_str())
        } else {
            String::from_str(message_prefix)
        };
        let op = make.pending_op();
        let task = make.task(cfg);
        self.start_job(task, op, message);
    }

    /// Confirmed: rolls the selected configuration back to snapshot `id`.
    pub fn on_rollback_confirmed(&mut self, id: u64)
        ensures
            old(self).selected_name() is Some ==> started_frame(*old(self), *final(self)),
            !(old(self).selected_name() is Some) ==> status_only(*old(self), *final(self)),
            old(self).selected_name() is None ==> final(self).status@ == "Select a config first"@,
            old(self).selected_name() is Some ==> (final(self).pending == Some(PendingOp::Rollback { id })
                && final(self).mode is Loading && final(self).status_job == Some(old(self).next_ticket)
                && targets(spawned_task(final(self).effects@).unwrap(), old(self).selected_name().unwrap(), id)
                && (spawned_task(final(self).effects@) matches Some(Task::Rollback { .. }))),
    {
        let prefix = concat("Rolling back to #", decimal_string(id).as_str());
        self.start_on_config(ConfigRequest::Rollback(id), prefix.as_str(), false);
    }

    /// Confirmed: deletes snapshot `id` of the selected configuration, at once.
    pub fn on_delete_confirmed(&mut self, id: u64)
        ensures
            old(self).selected_name() is Some ==> started_frame(*old(self), *final(self)),
            !(old(self).selected_name() is Some) ==> status_only(*old(self), *final(self)),
            old(self).selected_name() is None ==> final(self).status@ == "Select a config first"@,
            old(self).selected_name() is Some ==> (final(self).pending == Some(PendingOp::Delete { id })
                && final(self).status_job == Some(old(self).next_ticket)
                && targets(spawned_task(final(self).effects@).unwrap(), old(self).selected_name().unwrap(), id)
                && (spawned_task(final(self).effects@) matches Some(Task::Delete { .. }))
                && final(self).effects@.last() is RunNow),
    {
        let cfg = match self.selected_config_name() {
            Some(c) => c,
            None => {
                self.set_status("Select a config first");
                return;
            },
        };
        self.run_now(Task::Delete { config: cfg, id }, PendingOp::Delete { id });
    }

    /// Runs a short request before the next input, tracked as the pending operation.
    pub fn run_now(&mut self, task: Task, op: PendingOp)
        ensures
            started_frame(*old(self), *final(self)),
            final(self).pending == Some(op),
            final(self).status_job == Some(old(self).next_ticket),
            final(self).next_ticket == next_ticket_after(old(self).next_ticket),
            final(self).effects@ == old(self).effects@.push(
                Effect::RunNow(Job { ticket: old(self).next_ticket, task, use_sudo: old(self).use_sudo }),
            ),
            (App {
                pending: final(self).pending,
                status_job: final(self).status_job,
                next_ticket: final(self).next_ticket,
                effects: final(self).effects,
                ..*old(self)
            }) == *final(self),
    {
        let ticket = self.next_ticket;
        self.next_ticket = if ticket == u64::MAX {
            0
        } else {
            ticket + 1
        };
        self.effects.push(Effect::RunNow(Job { ticket, task, use_sudo: self.use_sudo }));
        assert(self.effects@.subrange(0, old(self).effects@.len() as int) =~= old(self).effects@);
        self.status_job = Some(ticket);
        self.pending = Some(op);
    }
}

/// A request that names only the selected configuration (and maybe a snapshot id).
pub enum ConfigRequest {
    Rollback(u64),
    Cleanup(String),
    GetConfigForEdit,
    ViewConfig,
    SetupQuota,
}

impl ConfigRequest {
    /// `op` is the pending operation this request is tracked as.
    pub open spec fn tracks(&self, op: PendingOp) -> bool {
        match self {
            ConfigRequest::Rollback(id) => op == PendingOp::Rollback { id: *id },
            ConfigRequest::Cleanup(a) => (op matches PendingOp::Cleanup { algorithm } && algorithm@ == a@),
            ConfigRequest::GetConfigForEdit => op is GetConfigForEdit,
            ConfigRequest::ViewConfig => (op matches PendingOp::Cleanup { algorithm } && algorithm@
                == "get-config"@),
            ConfigRequest::SetupQuota => op is SetupQuota,
        }
    }

    pub open spec fn asks(&self, t: Task, config: Seq<char>) -> bool {
        match self {
            ConfigRequest::Rollback(id) => targets(t, config, *id) && t is Rollback,
            ConfigRequest::Cleanup(a) => (t matches Task::Cleanup { config: c, algorithm } && c@ == config
                && algorithm@ == a@),
            ConfigRequest::GetConfigForEdit => (t matches Task::GetConfig { config: c } && c@ == config),
            ConfigRequest::ViewConfig => (t matches Task::GetConfig { config: c } && c@ == config),
            ConfigRequest::SetupQuota => (t matches Task::SetupQuota { config: c } && c@ == config),
        }
    }

    fn pending_op(&self) -> (r: PendingOp)
        ensures
            self.tracks(r),
    {
        match self {
            ConfigRequest::Rollback(id) => PendingOp::Rollback { id: *id },
            ConfigRequest::Cleanup(a) => PendingOp::Cleanup { algorithm: a.clone() },
            ConfigRequest::GetConfigForEdit => PendingOp::GetConfigForEdit,
            ConfigRequest::ViewConfig => PendingOp::Cleanup { algorithm: String::from_str("get-config") },
            ConfigRequest::SetupQuota => PendingOp::SetupQuota,
        }
    }

    fn task(&self, config: String) -> (r: Task)
        ensures
            self.asks(r, config@),
    {
        match self {
            ConfigRequest::Rollback(id) => Task::Rollback { config, id: *id },
            ConfigRequest::Cleanup(a) => Task::Cleanup { config, algorithm: a.clone() },
            ConfigRequest::GetConfigForEdit => Task::GetConfig { config },
            ConfigRequest::ViewConfig => Task::GetConfig { config },
            ConfigRequest::SetupQuota => Task::SetupQuota { config },
        }
    }
}

/// The `key=value` assignments of the fields that were changed, in order.
pub open spec fn changed_pairs(fields: Seq<ConfigField>) -> Seq<Seq<char>> {
    fields.filter_map(
        |f: ConfigField|
            if f.modified {
                Some(f.key@ + "="@ + f.value@)
            } else {
                None
            },
    )
}

/// Index of the first line at or after `i` whose lower-cased text contains `q`.
pub open spec fn first_hit(lines: Seq<Seq<char>>, q: Seq<char>, i: int) -> Option<int>
    decreases lines.len() - i,
{
    if i < 0 || i >= lines.len() {
        None
    } else if contains(lower_of(lines[i]), q) {
        Some(i)
    } else {
        first_hit(lines, q, i + 1)
    }
}

/// Index of the last line before `end` whose lower-cased text contains `q`.
pub open spec fn last_hit(lines: Seq<Seq<char>>, q: Seq<char>, end: int) -> Option<int>
    decreases end,
{
    if end <= 0 || end > lines.len() {
        None
    } else if contains(lower_of(lines[end - 1]), q) {
        Some(end - 1)
    } else {
        last_hit(lines, q, end - 1)
    }
}

/// A line index as the 16-bit scroll offset holds it.
pub open spec fn as_scroll(i: int) -> u16 {
    (i % 65536) as u16
}

/// Where a forward search for `q` in `text` from scroll position `scroll` lands.
pub open spec fn forward_target(text: Seq<char>, q: Seq<char>, scroll: u16, wrap: bool) -> Option<int> {
    let lines = lines_of(text);
    let start = if scroll + 1 < lines.len() {
        scroll + 1
    } else {
        lines.len() as int
    };
    match first_hit(lines, q, start) {
        Some(i) => Some(i),
        None => if wrap {
            first_hit(lines, q, 0)
        } else {
            None
        },
    }
}

/// Where a backward search for `q` in `text` from scroll position `scroll` lands.
pub open spec fn backward_target(text: Seq<char>, q: Seq<char>, scroll: u16, wrap: bool) -> Option<
    int,
> {
    let lines = lines_of(text);
    let end = if scroll < lines.len() {
        scroll as int
    } else {
        lines.len() as int
    };
    match last_hit(lines, q, end) {
        Some(i) => Some(i),
        None => if wrap {
            last_hit(lines, q, lines.len() as int)
        } else {
            None
        },
    }
}

fn line_hit(line: &Vec<char>, q: &Vec<char>) -> (r: bool)
    ensures
        r == contains(lower_of(line@), q@),
{
    let s = string_of(line);
    let low = lowercase(s.as_str());
    contains_chars(&chars_of(low.as_str()), q)
}

fn find_first_hit(lines: &Vec<Vec<char>>, q: &Vec<char>, start: usize) -> (r: Option<usize>)
    ensures
        r.is_some() == first_hit(lines@.map_values(|l: Vec<char>| l@), q@, start as int).is_some(),
        r.is_some() ==> r.unwrap() as int == first_hit(lines@.map_values(|l: Vec<char>| l@), q@, start as int).unwrap(),
{
    let ghost ls = lines@.map_values(|l: Vec<char>| l@);
    let mut i = start;
    while i < lines.len()
        invariant
            start <= i,
            ls == lines@.map_values(|l: Vec<char>| l@),
            first_hit(ls, q@, start as int) == first_hit(ls, q@, i as int),
        decreases lines@.len() - i,
    {
        if line_hit(&lines[i], q) {
            return Some(i);
        }
        i = i + 1;
    }
    None
}

fn find_last_hit(lines: &Vec<Vec<char>>, q: &Vec<char>, end: usize) -> (r: Option<usize>)
    requires
        end <= lines@.len(),
    ensures
        r.is_some() == last_hit(lines@.map_values(|l: Vec<char>| l@), q@, end as int).is_some(),
        r.is_some() ==> r.unwrap() as int == last_hit(lines@.map_values(|l: Vec<char>| l@), q@, end as int).unwrap(),
{
    let ghost ls = lines@.map_values(|l: Vec<char>| l@);
    let mut e = end;
    while e > 0
        invariant
            e <= end <= lines@.len(),
            ls == lines@.map_values(|l: Vec<char>| l@),
            last_hit(ls, q@, end as int) == last_hit(ls, q@, e as int),
        decreases e,
    {
        if line_hit(&lines[e - 1], q) {
            return Some(e - 1);
        }
        e = e - 1;
    }
    None
}

impl App {
    /// Opens the input for a new snapshot's description.
    pub fn start_create(&mut self)
        ensures
            input_opened(*old(self), *final(self)),
            old(self).selected_name() is None ==> final(self).status@ == "Select a config first"@
                && final(self).mode == old(self).mode,
            old(self).selected_name() is Some ==> final(self).mode == Mode::Input(InputKind::Create)
                && final(self).input@.len() == 0 && final(self).input_cursor == 0,
    {
        if self.selected_config_name().is_none() {
            self.set_status("Select a config first");
            return;
        }
        self.input = String::new();
        self.input_cursor = 0;
        self.mode = Mode::Input(InputKind::Create);
    }

    /// Creates a snapshot of the selected configuration with description `desc`, or a
    /// default one when `desc` is empty.
    pub fn finish_create(&mut self, desc: &str)
        ensures
            old(self).selected_name() is Some ==> started_frame(*old(self), *final(self)),
            !(old(self).selected_name() is Some) ==> status_only(*old(self), *final(self)),
            old(self).selected_name() is None ==> final(self).status@ == "Select a config first"@,
            old(self).selected_name() is Some ==> (final(self).pending == Some(PendingOp::Create)
                && final(self).status_job == Some(old(self).next_ticket) && (spawned_task(
                final(self).effects@,
            ) matches Some(Task::Create { config, description }) && config@ == old(
                self).selected_name().unwrap() && description@ == (if desc@.len() == 0 {
                "Created via snapper-tui"@
            } else {
                desc@
            }))),
    {
        let cfg = match self.selected_config_name() {
            Some(c) => c,
            None => {
                self.set_status("Select a config first");
                return;
            },
        };
        let description = if chars_of(desc).len() == 0 {
            String::from_str("Created via snapper-tui")
        } else {
            String::from_str(desc)
        };
        self.run_now(Task::Create { config: cfg, description }, PendingOp::Create);
    }

    /// Opens the input on the selected snapshot's description.
    pub fn start_edit(&mut self)
        ensures
            input_opened(*old(self), *final(self)),
            old(self).selected_name() is Some && old(self).selected_snapshot() is Some ==> final(
                self).mode == Mode::Input(InputKind::Edit(old(self).selected_snapshot().unwrap().id))
                && final(self).input@ == old(self).selected_snapshot().unwrap().description
                && final(self).input_cursor == final(self).input@.len(),
            old(self).selected_name() is None ==> final(self).status@ == "Select a config first"@,
    {
        let (_cfg, sidx, id) = match self.selected_target("Select a snapshot to edit") {
            Some(t) => t,
            None => return,
        };
        self.input = self.filtered_snaps[sidx].description.clone();
        self.input_cursor = self.input_len_chars();
        self.mode = Mode::Input(InputKind::Edit(id));
    }

    /// Sets the description of snapshot `id` of the selected configuration.
    pub fn finish_edit(&mut self, id: u64, desc: &str)
        ensures
            old(self).selected_name() is Some ==> started_frame(*old(self), *final(self)),
            !(old(self).selected_name() is Some) ==> status_only(*old(self), *final(self)),
            old(self).selected_name() is None ==> final(self).status@ == "Select a config first"@,
            old(self).selected_name() is Some ==> (final(self).pending == Some(PendingOp::Modify { id })
                && final(self).status_job == Some(old(self).next_ticket) && (spawned_task(
                final(self).effects@,
            ) matches Some(Task::Modify { config, id: i, description }) && config@ == old(
                self).selected_name().unwrap() && i == id && description@ == desc@)),
    {
        let cfg = match self.selected_config_name() {
            Some(c) => c,
            None => {
                self.set_status("Select a config first");
                return;
            },
        };
        self.run_now(
            Task::Modify { config: cfg, id, description: String::from_str(desc) },
            PendingOp::Modify { id },
        );
    }

    /// Opens the input for a cleanup algorithm.
    pub fn start_cleanup_input(&mut self)
        ensures
            input_opened(*old(self), *final(self)),
            old(self).selected_name() is None ==> final(self).status@ == "Select a config first"@
                && final(self).mode == old(self).mode,
            old(self).selected_name() is Some ==> final(self).mode == Mode::Input(
                InputKind::CleanupAlgorithm,
            ) && final(self).input@.len() == 0 && final(self).input_cursor == 0,
    {
        if self.selected_config_name().is_none() {
            self.set_status("Select a config first");
            return;
        }
        self.input = String::new();
        self.input_cursor = 0;
        self.mode = Mode::Input(InputKind::CleanupAlgorithm);
    }

    /// Asks to confirm a cleanup with the typed algorithm; an empty one is refused.
    pub fn finish_cleanup(&mut self, alg: &str)
        ensures
            (App { mode: final(self).mode, status: final(self).status, ..*old(self) }) == *final(self),
            trim(alg@).len() == 0 ==> final(self).mode is Normal && final(self).status@
                == "Enter cleanup algorithm (e.g., number, timeline, empty-pre-post)"@,
            trim(alg@).len() > 0 ==> (final(self).mode matches Mode::ConfirmCleanup(a) && a@ == trim(
                alg@,
            )),
    {
        let a = trim_chars(&chars_of(alg));
        if a.len() == 0 {
            self.set_status("Enter cleanup algorithm (e.g., number, timeline, empty-pre-post)");
            self.mode = Mode::Normal;
            return;
        }
        self.mode = Mode::ConfirmCleanup(string_of(&a));
    }

    /// Confirmed: runs cleanup algorithm `alg` on the selected configuration.
    pub fn on_cleanup_confirmed(&mut self, alg: &str)
        ensures
            old(self).selected_name() is Some ==> started_frame(*old(self), *final(self)),
            !(old(self).selected_name() is Some) ==> status_only(*old(self), *final(self)),
            old(self).selected_name() is None ==> final(self).status@ == "Select a config first"@,
            old(self).selected_name() is Some ==> (final(self).mode is Loading && (final(self).pending
                matches Some(PendingOp::Cleanup { algorithm }) && algorithm@ == alg@) && (spawned_task(
                final(self).effects@,
            ) matches Some(Task::Cleanup { config, algorithm }) && config@ == old(
                self).selected_name().unwrap() && algorithm@ == alg@)),
    {
        let prefix = concat("Cleaning up: ", alg);
        self.start_on_config(ConfigRequest::Cleanup(String::from_str(alg)), prefix.as_str(), false);
        if self.pending.is_some() && self.selected_config_name().is_some() {
            self.details_title = concat("Cleanup: ", alg);
        }
    }

    /// Loads the selected configuration's settings into the form editor.
    pub fn start_config_edit(&mut self)
        ensures
            old(self).selected_name() is Some ==> started_frame(*old(self), *final(self)),
            !(old(self).selected_name() is Some) ==> status_only(*old(self), *final(self)),
            old(self).selected_name() is None ==> final(self).status@ == "Select a config first"@,
            old(self).selected_name() is Some ==> (final(self).mode is Loading && final(self).pending
                == Some(PendingOp::GetConfigForEdit) && final(self).cfg_fields@.len() == 0
                && final(self).cfg_field_idx is None && (spawned_task(final(self).effects@) matches Some(
                Task::GetConfig { config },
            ) && config@ == old(self).selected_name().unwrap())),
    {
        if self.selected_config_name().is_none() {
            self.set_status("Select a config first");
            return;
        }
        self.cfg_fields = Vec::new();
        self.cfg_field_idx = None;
        self.start_on_config(ConfigRequest::GetConfigForEdit, "Loading config for edit…", false);
    }

    /// Shows the selected configuration's settings as text.
    pub fn view_config(&mut self)
        ensures
            old(self).selected_name() is Some ==> started_frame(*old(self), *final(self)),
            !(old(self).selected_name() is Some) ==> status_only(*old(self), *final(self)),
            old(self).selected_name() is None ==> final(self).status@ == "Select a config first"@,
            old(self).selected_name() is Some ==> (final(self).mode is Loading && (spawned_task(
                final(self).effects@,
            ) matches Some(Task::GetConfig { config }) && config@ == old(self).selected_name().unwrap())),
    {
        self.start_on_config(ConfigRequest::ViewConfig, "Loading config: ", true);
        match self.selected_config_name() {
            Some(cfg) => {
                if self.pending.is_some() {
                    self.details_title = concat("Config: ", cfg.as_str());
                }
            },
            None => {},
        }
    }

    /// Sets up quota support for the selected configuration.
    pub fn setup_quota(&mut self)
        ensures
            old(self).selected_name() is Some ==> started_frame(*old(self), *final(self)),
            !(old(self).selected_name() is Some) ==> status_only(*old(self), *final(self)),
            old(self).selected_name() is None ==> final(self).status@ == "Select a config first"@,
            old(self).selected_name() is Some ==> (final(self).mode is Loading && final(self).pending
                == Some(PendingOp::SetupQuota) && (spawned_task(final(self).effects@) matches Some(
                Task::SetupQuota { config },
            ) && config@ == old(self).selected_name().unwrap())),
    {
        self.start_on_config(ConfigRequest::SetupQuota, "Setting up quota for ", true);
    }

    /// Adds the selected snapshot to the boot menu, under `<config>-<id>`.
    pub fn sync_limine_for_selected(&mut self)
        ensures
            old(self).selected_name() is Some && old(self).selected_snapshot() is Some ==> started_frame(*old(self), *final(self)),
            !(old(self).selected_name() is Some && old(self).selected_snapshot() is Some) ==> status_only(*old(self), *final(self)),
            old(self).selected_name() is Some && old(self).selected_snapshot() is Some ==> {
                let id = old(self).selected_snapshot().unwrap().id;
                let name = old(self).selected_name().unwrap() + "-"@ + decimal(id as nat);
                &&& final(self).mode is Loading
                &&& (final(self).pending matches Some(PendingOp::LimineSync { id: i, name: n }) && i == id
                    && n@ == name)
                &&& (spawned_task(final(self).effects@) matches Some(Task::LimineSync { id: i, name: n })
                    && i == id && n@ == name)
            },
            old(self).selected_name() is None ==> final(self).status@ == "Select a config first"@,
    {
        let (cfg, _sidx, id) = match self.selected_target("Select a snapshot") {
            Some(t) => t,
            None => return,
        };
        let dashed = concat(cfg.as_str(), "-");
        let name = concat(dashed.as_str(), decimal_string(id).as_str());
        let m = concat("Syncing snapshot #", decimal_string(id).as_str());
        let message = concat(m.as_str(), " to Limine…");
        self.start_job(
            Task::LimineSync { id, name: name.clone() },
            PendingOp::LimineSync { id, name: name.clone() },
            message,
        );
        self.details_title = concat("Limine sync for ", name.as_str());
    }

    /// Stores an edited value in field `idx` and returns to the form.
    pub fn finish_config_field_edit(&mut self, idx: usize, val: &str)
        ensures
            final(self).pending == old(self).pending && final(self).status_job == old(self).status_job,
            final(self).mode is ConfigForm,
            final(self).cfg_fields@.len() == old(self).cfg_fields@.len(),
            idx < old(self).cfg_fields@.len() ==> final(self).cfg_fields@[idx as int].value@ == val@
                && final(self).cfg_fields@[idx as int].key == old(self).cfg_fields@[idx as int].key
                && final(self).cfg_fields@[idx as int].original == old(self).cfg_fields@[idx as int].original
                && final(self).cfg_fields@[idx as int].modified == (val@ != old(
                self).cfg_fields@[idx as int].original@),
            forall|k: int|
                0 <= k < old(self).cfg_fields@.len() && k != idx ==> final(self).cfg_fields@[k] == old(
                    self).cfg_fields@[k],
    {
        if idx < self.cfg_fields.len() {
            let new_val = String::from_str(val);
            let modified = !(new_val == self.cfg_fields[idx].original);
            let f = ConfigField {
                key: self.cfg_fields[idx].key.clone(),
                value: new_val,
                original: self.cfg_fields[idx].original.clone(),
                modified,
            };
            self.cfg_fields.set(idx, f);
        }
        self.mode = Mode::ConfigForm;
    }

    /// Sends the changed fields of the form to the selected configuration.
    pub fn apply_config_form_changes(&mut self)
        ensures
            old(self).selected_name() is Some && changed_pairs(old(self).cfg_fields@).len() > 0 ==> started_frame(*old(self), *final(self)),
            (old(self).selected_name() is None || changed_pairs(old(self).cfg_fields@).len() == 0) ==> (App {
                mode: final(self).mode,
                status: final(self).status,
                ..*old(self)
            }) == *final(self),
            old(self).selected_name() is None ==> final(self).status@ == "Select a config first"@
                && final(self).mode is Normal,
            old(self).selected_name() is Some && changed_pairs(old(self).cfg_fields@).len() == 0
                ==> final(self).status@ == "No changes to apply"@ && final(self).mode is Normal,
            old(self).selected_name() is Some && changed_pairs(old(self).cfg_fields@).len() > 0 ==> (
            final(self).mode is Loading && final(self).pending == Some(PendingOp::SetConfig) && (
            spawned_task(final(self).effects@) matches Some(Task::SetConfig { config, pairs })
                && config@ == old(self).selected_name().unwrap() && pairs@.map_values(
                |p: String| p@,
            ) == changed_pairs(old(self).cfg_fields@))),
    {
        let cfg = match self.selected_config_name() {
            Some(c) => c,
            None => {
                self.set_status("Select a config first");
                self.mode = Mode::Normal;
                return;
            },
        };
        let ghost fs = self.cfg_fields@;
        let mut pairs: Vec<String> = Vec::new();
        let mut i: usize = 0;
        while i < self.cfg_fields.len()
            invariant
                i <= fs.len(),
                fs == self.cfg_fields@,
                pairs@.map_values(|p: String| p@) == changed_pairs(fs.subrange(0, i as int)),
            decreases fs.len() - i,
        {
            let f = &self.cfg_fields[i];
            assert(fs.subrange(0, i + 1).drop_last() =~= fs.subrange(0, i as int));
            if f.modified {
                let kv = concat(f.key.as_str(), "=");
                pairs.push(concat(kv.as_str(), f.value.as_str()));
            }
            i = i + 1;
            assert(pairs@.map_values(|p: String| p@) =~= changed_pairs(fs.subrange(0, i as int)));
        }
        assert(fs.subrange(0, fs.len() as int) =~= fs);
        if pairs.len() == 0 {
            self.set_status("No changes to apply");
            self.mode = Mode::Normal;
            return;
        }
        self.start_job(
            Task::SetConfig { config: cfg, pairs },
            PendingOp::SetConfig,
            String::from_str("Applying config changes…"),
        );
    }

    /// Opens the input on the current filter text.
    pub fn start_filter_input(&mut self)
        ensures
            input_opened(*old(self), *final(self)),
            final(self).input@ == old(self).filter_text@,
            final(self).input_cursor == old(self).filter_text@.len(),
            final(self).mode == Mode::Input(InputKind::Filter),
    {
        self.input = self.filter_text.clone();
        self.input_cursor = self.input_len_chars();
        self.mode = Mode::Input(InputKind::Filter);
    }

    /// Applies a new filter text, selects the first row shown, and keeps the text.
    pub fn finish_filter(&mut self, text: &str)
        ensures
            final(self).pending == old(self).pending && final(self).status_job == old(self).status_job,
            final(self).filter_text@ == text@,
            snapshots_view(final(self).filtered_snaps@) == filtered(
                snapshots_view(old(self).snapshots@),
                text@,
            ),
            final(self).snaps_state.selected == first_or_none(final(self).filtered_snaps@.len()),
            final(self).mode is Normal,
    {
        self.filter_text = String::from_str(text);
        self.apply_filter();
        self.snaps_state.selected = if self.filtered_snaps.len() == 0 {
            None
        } else {
            Some(0)
        };
        self.persist_state();
        self.mode = Mode::Normal;
    }

    /// Opens the input for a search in the details text.
    pub fn start_details_search(&mut self)
        ensures
            input_opened(*old(self), *final(self)),
            (App { input: final(self).input, input_cursor: final(self).input_cursor, mode: final(self).mode, ..*old(self) }) == *final(self),
            final(self).input@.len() == 0,
            final(self).input_cursor == 0,
            final(self).mode == Mode::Input(InputKind::DetailsSearch),
    {
        self.input = String::new();
        self.input_cursor = 0;
        self.mode = Mode::Input(InputKind::DetailsSearch);
    }

    /// Searches the details text for `q` from the current line on, wrapping around.
    pub fn finish_details_search(&mut self, q: &str)
        ensures
            final(self).pending == old(self).pending && final(self).status_job == old(self).status_job,
            final(self).mode is Details,
            trim(q@).len() == 0 ==> final(self).details_scroll == old(self).details_scroll
                && final(self).details_query == old(self).details_query,
            trim(q@).len() > 0 ==> final(self).details_query@ == trim(q@) && match forward_target(
                old(self).details_text@,
                lower_of(trim(q@)),
                old(self).details_scroll,
                true,
            ) {
                Some(i) => final(self).details_scroll == as_scroll(i),
                None => final(self).details_scroll == old(self).details_scroll,
            },
    {
        let t = trim_chars(&chars_of(q));
        if t.len() == 0 {
            self.mode = Mode::Details;
            return;
        }
        self.details_query = string_of(&t);
        self.mode = Mode::Details;
        self.jump_to_match_forward(true);
    }

    fn details_lines_and_query(&self) -> (r: (Vec<Vec<char>>, Vec<char>))
        ensures
            r.0@.map_values(|l: Vec<char>| l@) == lines_of(self.details_text@),
            r.1@ == lower_of(self.details_query@),
    {
        let lines = crate::text::split_lines(&chars_of(self.details_text.as_str()));
        assert(lines@.map_values(|l: Vec<char>| l@) =~= lines_of(self.details_text@));
        let q = chars_of(lowercase(self.details_query.as_str()).as_str());
        (lines, q)
    }

    /// Scrolls to the next line below the current one that contains the query, ignoring
    /// case; with `wrap`, searches again from the top.
    pub fn jump_to_match_forward(&mut self, wrap: bool)
        ensures
            old(self).details_query@.len() == 0 ==> *final(self) == *old(self),
            old(self).details_query@.len() > 0 ==> match forward_target(
                old(self).details_text@,
                lower_of(old(self).details_query@),
                old(self).details_scroll,
                wrap,
            ) {
                Some(i) => final(self).details_scroll == as_scroll(i),
                None => final(self).details_scroll == old(self).details_scroll,
            },
            (App { details_scroll: final(self).details_scroll, ..*old(self) }) == *final(self),
    {
        if chars_of(self.details_query.as_str()).len() == 0 {
            return;
        }
        let (lines, q) = self.details_lines_and_query();
        let n = lines.len();
        let start: usize = if (self.details_scroll as usize) + 1 < n {
            (self.details_scroll as usize) + 1
        } else {
            n
        };
        let found = match find_first_hit(&lines, &q, start) {
            Some(i) => Some(i),
            None => if wrap {
                find_first_hit(&lines, &q, 0)
            } else {
                None
            },
        };
        match found {
            Some(i) => {
                self.details_scroll = (i % 65536) as u16;
            },
            None => {},
        }
    }

    /// Scrolls to the nearest line above the current one that contains the query,
    /// ignoring case; with `wrap`, searches again from the bottom.
    pub fn jump_to_match_backward(&mut self, wrap: bool)
        ensures
            old(self).details_query@.len() == 0 ==> *final(self) == *old(self),
            old(self).details_query@.len() > 0 ==> match backward_target(
                old(self).details_text@,
                lower_of(old(self).details_query@),
                old(self).details_scroll,
                wrap,
            ) {
                Some(i) => final(self).details_scroll == as_scroll(i),
                None => final(self).details_scroll == old(self).details_scroll,
            },
            (App { details_scroll: final(self).details_scroll, ..*old(self) }) == *final(self),
    {
        if chars_of(self.details_query.as_str()).len() == 0 {
            return;
        }
        let (lines, q) = self.details_lines_and_query();
        let n = lines.len();
        let end: usize = if (self.details_scroll as usize) < n {
            self.details_scroll as usize
        } else {
            n
        };
        let found = match find_last_hit(&lines, &q, end) {
            Some(i) => Some(i),
            None => if wrap {
                find_last_hit(&lines, &q, n)
            } else {
                None
            },
        };
        match found {
            Some(i) => {
                self.details_scroll = (i % 65536) as u16;
            },
            None => {},
        }
    }

    /// The next match, wrapping around.
    pub fn find_next(&mut self)
        ensures
            old(self).details_query@.len() == 0 ==> *final(self) == *old(self),
            (App { details_scroll: final(self).details_scroll, ..*old(self) }) == *final(self),
            old(self).details_query@.len() > 0 ==> match forward_target(
                old(self).details_text@,
                lower_of(old(self).details_query@),
                old(self).details_scroll,
                true,
            ) {
                Some(i) => final(self).details_scroll == as_scroll(i),
                None => final(self).details_scroll == old(self).details_scroll,
            },
    {
        self.jump_to_match_forward(true);
    }

    /// The previous match, wrapping around.
    pub fn find_prev(&mut self)
        ensures
            old(self).details_query@.len() == 0 ==> *final(self) == *old(self),
            (App { details_scroll: final(self).details_scroll, ..*old(self) }) == *final(self),
            old(self).details_query@.len() > 0 ==> match backward_target(
                old(self).details_text@,
                lower_of(old(self).details_query@),
                old(self).details_scroll,
                true,
            ) {
                Some(i) => final(self).details_scroll == as_scroll(i),
                None => final(self).details_scroll == old(self).details_scroll,
            },
    {
        self.jump_to_match_backward(true);
    }
}

/// `b` keeps the clock, the preferences, the filter text and the cache lifetime of `a`.
pub open spec fn keeps_settings(a: App, b: App) -> bool {
    b.now == a.now && b.tick == a.tick && b.use_sudo == a.use_sudo && b.snaps_fullscreen
        == a.snaps_fullscreen && b.filter_text == a.filter_text && b.snaps_cache.ttl
        == a.snaps_cache.ttl && b.focus == a.focus
}

/// Position of the configuration named `name`, if listed.
pub fn position_of(configs: &Vec<Config>, name: &String) -> (r: Option<usize>)
    ensures
        r is Some ==> r.unwrap() < configs@.len() && configs@[r.unwrap() as int].name@ == name@
            && forall|k: int| 0 <= k < r.unwrap() ==> configs@[k].name@ != name@,
        r is None ==> forall|k: int| 0 <= k < configs@.len() ==> configs@[k].name@ != name@,
{
    let mut i: usize = 0;
    while i < configs.len()
        invariant
            i <= configs@.len(),
            forall|k: int| 0 <= k < i ==> configs@[k].name@ != name@,
        decreases configs@.len() - i,
    {
        if configs[i].name == *name {
            return Some(i);
        }
        i = i + 1;
    }
    None
}

/// The first line of `text`, or nothing.
pub open spec fn first_line(text: Seq<char>) -> Seq<char> {
    if lines_of(text).len() > 0 {
        lines_of(text)[0]
    } else {
        Seq::empty()
    }
}

/// A one-line report of a finished request: `quiet` when it printed nothing, else `head`
/// and its first line.
pub open spec fn summary(quiet: Seq<char>, head: Seq<char>, text: Seq<char>) -> Seq<char> {
    if trim(text).len() == 0 {
        quiet
    } else {
        head + first_line(text)
    }
}

/// The number of lines of a text as the 16-bit counter holds it.
pub open spec fn line_count(text: Seq<char>) -> u16 {
    (lines_of(text).len() % 65536) as u16
}

/// The names, separated by commas.
pub open spec fn names_joined(cs: Seq<String>) -> Seq<char>
    decreases cs.len(),
{
    if cs.len() == 0 {
        Seq::empty()
    } else if cs.len() == 1 {
        cs[0]@
    } else {
        names_joined(cs.drop_last()) + ", "@ + cs.last()@
    }
}

/// `name` is one of `names`.
pub open spec fn is_listed(names: Seq<String>, name: Seq<char>) -> bool {
    exists|k: int| 0 <= k < names.len() && (#[trigger] names[k])@ == name
}

fn is_listed_exec(names: &Vec<String>, name: &String) -> (r: bool)
    ensures
        r == is_listed(names@, name@),
{
    let mut i: usize = 0;
    while i < names.len()
        invariant
            i <= names@.len(),
            forall|k: int| 0 <= k < i ==> (#[trigger] names@[k])@ != name@,
        decreases names@.len() - i,
    {
        if names[i] == *name {
            return true;
        }
        i = i + 1;
    }
    false
}

/// A failed listing's message, with the known configurations added when it says that
/// the configuration does not exist.
pub open spec fn listing_failure(base: Seq<char>, configs: Seq<String>) -> Seq<char> {
    if (contains_ci(base, "unknown config"@) || contains_ci(base, "config not found"@))
        && configs.len() > 0 {
        base + " | Known configs: "@ + names_joined(configs)
    } else {
        base
    }
}

fn names_joined_exec(cs: &Vec<String>) -> (r: String)
    ensures
        r@ == names_joined(cs@),
{
    let mut out = String::new();
    let mut i: usize = 0;
    while i < cs.len()
        invariant
            i <= cs@.len(),
            out@ == names_joined(cs@.subrange(0, i as int)),
        decreases cs@.len() - i,
    {
        assert(cs@.subrange(0, i + 1).drop_last() =~= cs@.subrange(0, i as int));
        if i == 0 {
            out = cs[0].clone();
        } else {
            let with_sep = concat(out.as_str(), ", ");
            out = concat(with_sep.as_str(), cs[i].as_str());
        }
        i = i + 1;
    }
    assert(cs@.subrange(0, cs@.len() as int) =~= cs@);
    out
}

fn listing_failure_exec(base: String, configs: &Vec<String>) -> (r: String)
    ensures
        r@ == listing_failure(base@, configs@),
{
    let b = chars_of(base.as_str());
    if (contains_ci_exec(&b, &chars_of("unknown config")) || contains_ci_exec(&b, &chars_of("config not found")))
        && configs.len() > 0 {
        let a = concat(base.as_str(), " | Known configs: ");
        concat(a.as_str(), names_joined_exec(configs).as_str())
    } else {
        base
    }
}

/// The words that start the status line when operation `op` failed.
pub open spec fn failure_prefix(op: Option<PendingOp>) -> Seq<char> {
    match op {
        Some(PendingOp::Create) => "Create failed: "@,
        Some(PendingOp::Modify { .. }) => "Edit failed: "@,
        Some(PendingOp::Delete { .. }) => "Delete failed: "@,
        _ => "Operation failed: "@,
    }
}

fn failure_prefix_exec(op: &Option<PendingOp>) -> (r: &'static str)
    ensures
        r@ == failure_prefix(*op),
{
    match op {
        Some(PendingOp::Create) => "Create failed: ",
        Some(PendingOp::Modify { .. }) => "Edit failed: ",
        Some(PendingOp::Delete { .. }) => "Delete failed: ",
        _ => "Operation failed: ",
    }
}

/// The operations whose text result is shown in the details view.
pub open spec fn shows_details(op: Option<PendingOp>) -> bool {
    op matches Some(PendingOp::Status { .. }) || op matches Some(PendingOp::Diff { .. })
        || op matches Some(PendingOp::Cleanup { .. }) || op matches Some(PendingOp::LimineSync { .. })
}

/// The operations whose success changes the snapshot sets, so cached listings are dropped.
pub open spec fn invalidates_cache(op: Option<PendingOp>) -> bool {
    op matches Some(PendingOp::Rollback { .. }) || op matches Some(PendingOp::SetupQuota)
        || op matches Some(PendingOp::SetConfig) || op matches Some(PendingOp::Create)
        || op matches Some(PendingOp::Modify { .. }) || op matches Some(PendingOp::Delete { .. })
}

/// The operations whose success calls for a full refresh of the configuration list.
pub open spec fn forces_refresh(op: Option<PendingOp>) -> bool {
    op matches Some(PendingOp::Rollback { .. }) || op matches Some(PendingOp::SetupQuota)
}

/// `b` shows `text` in the details view under `title`, from the top.
pub open spec fn details_shown(a: App, b: App, title: Seq<char>, text: String) -> bool {
    b.details_title@ == title && (App {
        details_title: b.details_title,
        details_text: text,
        details_lines: line_count(text@),
        details_scroll: 0,
        mode: Mode::Details,
        ..a
    }) == b
}

/// `b` is `a` with status line `msg`, back in Normal mode, and otherwise unchanged but for
/// the cache and the requests as `clears`/`refresh` say.
pub open spec fn reported(a: App, b: App, msg: Seq<char>, clears: bool, refresh: bool) -> bool {
    &&& b.status@ == msg
    &&& clears ==> b.snaps_cache@ == Map::<Seq<char>, (Seq<SnapshotView>, u64)>::empty()
        && b.snaps_cache.ttl == a.snaps_cache.ttl
    &&& !clears ==> b.snaps_cache == a.snaps_cache
    &&& refresh ==> b.effects@ == a.effects@.push(Effect::RefreshConfigs)
    &&& !refresh ==> b.effects == a.effects
    &&& (App { status: b.status, mode: Mode::Normal, snaps_cache: b.snaps_cache, effects: b.effects, ..a }) == b
}

/// `b` shows the fields of configuration dump `text` in the form editor.
pub open spec fn form_filled(a: App, b: App, text: String) -> bool {
    &&& b.cfg_fields@.len() == config_pairs(text@).len()
    &&& forall|k: int|
        0 <= k < b.cfg_fields@.len() ==> (#[trigger] b.cfg_fields@[k]).key@ == config_pairs(text@)[k].0
            && b.cfg_fields@[k].value@ == config_pairs(text@)[k].1 && b.cfg_fields@[k].original@
            == config_pairs(text@)[k].1 && !b.cfg_fields@[k].modified
    &&& b.cfg_field_idx == first_or_none(b.cfg_fields@.len())
    &&& b.status@.len() == 0
    &&& (App {
        cfg_fields: b.cfg_fields,
        cfg_field_idx: b.cfg_field_idx,
        status: b.status,
        mode: Mode::ConfigForm,
        ..a
    }) == b
}

/// `m` is `a` after a change to the snapshots of the selected configuration succeeded:
/// status line `msg`, cache emptied, and, with `clear_input`, an empty input in Normal mode.
pub open spec fn changed_and_cleared(a: App, m: App, msg: Seq<char>, clear_input: bool) -> bool {
    &&& m.status@ == msg
    &&& m.snaps_cache@ == Map::<Seq<char>, (Seq<SnapshotView>, u64)>::empty()
    &&& m.snaps_cache.ttl == a.snaps_cache.ttl
    &&& clear_input ==> m.input@.len() == 0 && m.mode is Normal && (App {
        status: m.status,
        snaps_cache: m.snaps_cache,
        input: m.input,
        input_cursor: m.input_cursor,
        mode: m.mode,
        ..a
    }) == m
    &&& !clear_input ==> (App { status: m.status, snaps_cache: m.snaps_cache, ..a }) == m
}

/// `b` is `a` after the operation `op` succeeded with output `text`.
pub open spec fn success_applied(a: App, b: App, op: Option<PendingOp>, text: String) -> bool {
    match op {
        Some(PendingOp::Status { from, to }) => details_shown(
            a,
            b,
            "Status "@ + decimal(from as nat) + ".."@ + decimal(to as nat),
            text,
        ),
        Some(PendingOp::Diff { from, to }) => details_shown(
            a,
            b,
            "Diff "@ + decimal(from as nat) + ".."@ + decimal(to as nat),
            text,
        ),
        Some(PendingOp::Cleanup { algorithm }) => details_shown(a, b, "Cleanup: "@ + algorithm@, text),
        Some(PendingOp::LimineSync { id, name }) => details_shown(
            a,
            b,
            "Limine sync for "@ + name@ + " (#"@ + decimal(id as nat) + "): result"@,
            text,
        ),
        Some(PendingOp::Mount { id }) => reported(
            a,
            b,
            summary("Mounted #"@ + decimal(id as nat), "Mounted #"@ + decimal(id as nat) + ": "@, text@),
            false,
            false,
        ),
        Some(PendingOp::Umount { id }) => reported(
            a,
            b,
            summary(
                "Unmounted #"@ + decimal(id as nat),
                "Unmounted #"@ + decimal(id as nat) + ": "@,
                text@,
            ),
            false,
            false,
        ),
        Some(PendingOp::SetupQuota) => reported(
            a,
            b,
            summary("Quota setup completed"@, "Quota: "@, text@),
            true,
            true,
        ),
        Some(PendingOp::Rollback { id }) => reported(
            a,
            b,
            summary(
                "Rollback to #"@ + decimal(id as nat) + " completed"@,
                "Rollback #"@ + decimal(id as nat) + ": "@,
                text@,
            ),
            true,
            true,
        ),
        Some(PendingOp::SetConfig) => reported(
            a,
            b,
            summary("Config updated"@, "Set-config: "@, text@),
            true,
            false,
        ),
        Some(PendingOp::GetConfigForEdit) => form_filled(a, b, text),
        Some(PendingOp::Create) => exists|m: App|
            changed_and_cleared(
                a,
                m,
                "Created snapshot in "@ + (match a.selected_name() {
                    Some(n) => n,
                    None => Seq::empty(),
                }),
                true,
            ) && #[trigger] snapshots_loaded(m, b),
        Some(PendingOp::Modify { id }) => exists|m: App|
            changed_and_cleared(a, m, "Edited snapshot #"@ + decimal(id as nat), true) && m.input_cursor
                == 0 && #[trigger] snapshots_loaded(m, b),
        Some(PendingOp::Delete { id }) => exists|m: App|
            changed_and_cleared(a, m, "Deleted snapshot #"@ + decimal(id as nat), false)
                && #[trigger] snapshots_loaded(m, b),
        None => b == App { mode: Mode::Normal, ..a },
    }
}

/// `b` is `a` after taking what a poll of the operation slot found. A result is applied
/// only when its ticket is the tracked one; the pending operation then ends.
pub open spec fn status_delivered(a: App, b: App, d: Delivery<String>) -> bool {
    match d {
        Delivery::Empty => b == a,
        Delivery::Disconnected => if a.status_job is None {
            b == a
        } else {
            b.status@ == "Status failed (disconnected)"@ && (App {
                status: b.status,
                mode: Mode::Normal,
                status_job: None,
                pending: None,
                ..a
            }) == b
        },
        Delivery::Ready(t, res) => if a.status_job != Some(t) {
            b == a
        } else {
            match res {
                Err(e) => b.status@ == failure_prefix(a.pending) + e@ && (App {
                    status: b.status,
                    mode: Mode::Normal,
                    status_job: None,
                    pending: None,
                    ..a
                }) == b,
                Ok(text) => success_applied(
                    App { status_job: None, pending: None, ..a },
                    b,
                    a.pending,
                    text,
                ),
            }
        },
    }
}

/// A result that answers a request other than the tracked one changes nothing: neither the
/// mode, nor the pending operation, nor the details view.
pub proof fn lemma_stale_result_dropped(a: App, b: App, t: u64, res: Result<String, String>)
    requires
        a.status_job != Some(t),
        status_delivered(a, b, Delivery::Ready(t, res)),
    ensures
        b == a,
{
}

/// Starting a request while another is tracked makes the tracked ticket a new one, so the
/// earlier request's result is dropped when it arrives.
pub proof fn lemma_restart_changes_ticket(t: u64)
    ensures
        next_ticket_after(t) != t,
{
}

/// `a` at a new tick taken at `now`.
pub open spec fn ticked(a: App, now: u64) -> App {
    App { now, tick: next_ticket_after(a.tick), ..a }
}

/// `b` is `a` after taking what a poll of the listing slot found. A listing whose ticket
/// is the tracked one is cached under the configuration it was asked for, and shown only
/// if that configuration is still selected; a failure clears the shown list.
pub open spec fn listing_delivered(a: App, b: App, d: Delivery<Vec<Snapshot>>) -> bool {
    match d {
        Delivery::Empty => b == a,
        Delivery::Disconnected => if a.snaps_job is None {
            b == a
        } else {
            b.status@ == "Loading snapshots failed (disconnected)"@ && b.snapshots@.len() == 0
                && b.filtered_snaps@.len() == 0 && (App {
                status: b.status,
                snapshots: b.snapshots,
                filtered_snaps: b.filtered_snaps,
                snaps_state: ListState { selected: None },
                snaps_job: None,
                snaps_loading_for: None,
                ..a
            }) == b
        },
        Delivery::Ready(t, res) => if a.snaps_job != Some(t) {
            b == a
        } else {
            match res {
                Err(e) => b.status@ == listing_failure(
                    "Failed to list snapshots for "@ + (match a.selected_name() {
                        Some(n) => n,
                        None => "(unknown)"@,
                    }) + ": "@ + e@,
                    a.known_configs@,
                ) && b.snapshots@.len() == 0 && b.filtered_snaps@.len() == 0 && (App {
                    status: b.status,
                    snapshots: b.snapshots,
                    filtered_snaps: b.filtered_snaps,
                    snaps_state: ListState { selected: None },
                    snaps_job: None,
                    snaps_loading_for: None,
                    ..a
                }) == b,
                Ok(list) => match a.snaps_loading_for {
                    None => b == App { snaps_job: None, ..a },
                    Some(name) => {
                        &&& b.snaps_cache@ == a.snaps_cache@.insert(
                            name@,
                            (snapshots_view(list@), a.now),
                        )
                        &&& b.snaps_cache.ttl == a.snaps_cache.ttl
                        &&& a.selected_name() == Some(name@) ==> snapshots_view(b.snapshots@)
                            == snapshots_view(list@) && snapshots_view(b.filtered_snaps@) == filtered(
                            snapshots_view(list@),
                            a.filter_text@,
                        ) && b.snaps_state.selected == first_or_none(b.filtered_snaps@.len())
                            && b.status@.len() == 0 && (App {
                            snaps_cache: b.snaps_cache,
                            snapshots: b.snapshots,
                            filtered_snaps: b.filtered_snaps,
                            snaps_state: b.snaps_state,
                            status: b.status,
                            snaps_job: None,
                            snaps_loading_for: None,
                            ..a
                        }) == b
                        &&& a.selected_name() != Some(name@) ==> (App {
                            snaps_cache: b.snaps_cache,
                            snaps_job: None,
                            snaps_loading_for: None,
                            ..a
                        }) == b
                    },
                },
            }
        },
    }
}

fn first_line_of(text: &String) -> (r: String)
    ensures
        r@ == first_line(text@),
{
    let lines = crate::text::split_lines(&chars_of(text.as_str()));
    if lines.len() > 0 {
        string_of(&lines[0])
    } else {
        String::new()
    }
}

fn summary_of(quiet: String, head: String, text: &String) -> (r: String)
    ensures
        r@ == summary(quiet@, head@, text@),
{
    if trim_chars(&chars_of(text.as_str())).len() == 0 {
        quiet
    } else {
        concat(head.as_str(), first_line_of(text).as_str())
    }
}

fn numbered(head: &str, id: u64, tail: &str) -> (r: String)
    ensures
        r@ == head@ + decimal(id as nat) + tail@,
{
    let a = concat(head, decimal_string(id).as_str());
    concat(a.as_str(), tail)
}

impl App {
    /// Takes a fresh configuration list: keeps the selection within it and shows the
    /// selected configuration's snapshots.
    /// A full refresh: takes a fresh configuration list and the names found in the
    /// configuration directory, drops every cached listing, keeps the selection within the
    /// list and shows the selected configuration's snapshots if it exists.
    pub fn refresh_all(&mut self, configs: Result<Vec<Config>, String>, on_disk: Vec<String>)
        ensures
            keeps_settings(*old(self), *final(self)),
            final(self).snaps_cache@ == Map::<Seq<char>, (Seq<SnapshotView>, u64)>::empty(),
            final(self).known_configs == on_disk,
            keeps_request_state(*old(self), *final(self)),
            configs is Err ==> final(self).status@ == "Failed to list configs: "@ + configs->Err_0@
                && (App {
                status: final(self).status,
                snaps_cache: final(self).snaps_cache,
                known_configs: on_disk,
                ..*old(self)
            }) == *final(self),
            configs is Ok ==> final(self).configs == configs->Ok_0,
            configs is Ok && configs->Ok_0@.len() == 0 ==> final(self).status@
                == "No snapper configs found"@ && final(self).configs_state.selected is None
                && final(self).snapshots@.len() == 0 && final(self).snaps_state.selected is None,
            configs is Ok && configs->Ok_0@.len() > 0 ==> final(self).configs_state.selected == Some(
                clamped(old(self).configs_state.selected.unwrap_or(0), configs->Ok_0@.len()),
            ),
            configs is Ok && configs->Ok_0@.len() > 0 && !is_listed(
                on_disk@,
                configs->Ok_0@[clamped(old(self).configs_state.selected.unwrap_or(0), configs->Ok_0@.len()) as int].name@,
            ) ==> final(self).status@ == "Selected config is invalid; choose another"@
                && final(self).snapshots@.len() == 0 && final(self).snaps_state.selected is None,
            configs is Ok && configs->Ok_0@.len() > 0 && is_listed(
                on_disk@,
                configs->Ok_0@[clamped(old(self).configs_state.selected.unwrap_or(0), configs->Ok_0@.len()) as int].name@,
            ) ==> exists|m: App|
                #[trigger] snapshots_loaded(m, *final(self)) && m.configs == configs->Ok_0
                    && m.configs_state.selected == Some(
                    clamped(old(self).configs_state.selected.unwrap_or(0), configs->Ok_0@.len()),
                ) && m.status@.len() == 0 && m.snaps_cache@ == Map::<
                    Seq<char>,
                    (Seq<SnapshotView>, u64),
                >::empty(),
    {
        self.snaps_cache.invalidate_all();
        self.known_configs = on_disk;
        match configs {
            Ok(cs) => {
                self.configs = cs;
                let len = self.configs.len();
                if len == 0 {
                    self.set_status("No snapper configs found");
                    self.configs_state.selected = None;
                    self.snapshots = Vec::new();
                    self.snaps_state.selected = None;
                } else {
                    let idx = self.configs_state.selected.unwrap_or(0);
                    let sel = if idx < len { idx } else { len - 1 };
                    self.configs_state.selected = Some(sel);
                    self.persist_state();
                    self.status = String::new();
                    if is_listed_exec(&self.known_configs, &self.configs[sel].name) {
                        let ghost mid = *self;
                        self.load_snapshots_for_selected();
                        assert(snapshots_loaded(mid, *self));
                    } else {
                        self.set_status("Selected config is invalid; choose another");
                        self.snapshots = Vec::new();
                        self.snaps_state.selected = None;
                    }
                }
            },
            Err(e) => {
                self.status = concat("Failed to list configs: ", e.as_str());
            },
        }
    }

    fn show_details(&mut self, title: String, text: String)
        ensures
            final(self).details_title == title,
            final(self).details_text == text,
            final(self).details_lines == line_count(text@),
            final(self).details_scroll == 0,
            final(self).mode is Details,
            (App {
                details_title: final(self).details_title,
                details_text: final(self).details_text,
                details_lines: final(self).details_lines,
                details_scroll: final(self).details_scroll,
                mode: final(self).mode,
                ..*old(self)
            }) == *final(self),
    {
        let n = crate::text::split_lines(&chars_of(text.as_str())).len();
        self.details_title = title;
        self.details_lines = (n % 65536) as u16;
        self.details_text = text;
        self.details_scroll = 0;
        self.mode = Mode::Details;
    }

    /// Applies the successful text result of the pending operation `op`.
    fn apply_success(&mut self, op: Option<PendingOp>, text: String)
        ensures
            success_applied(*old(self), *final(self), op, text),
    {
        match op {
            Some(PendingOp::Status { from, to }) => {
                let title = concat("Status ", self.range_text(from, to).as_str());
                assert(title@ =~= "Status "@ + decimal(from as nat) + ".."@ + decimal(to as nat));
                self.show_details(title, text);
            },
            Some(PendingOp::Diff { from, to }) => {
                let title = concat("Diff ", self.range_text(from, to).as_str());
                assert(title@ =~= "Diff "@ + decimal(from as nat) + ".."@ + decimal(to as nat));
                self.show_details(title, text);
            },
            Some(PendingOp::Cleanup { algorithm }) => {
                self.show_details(concat("Cleanup: ", algorithm.as_str()), text);
            },
            Some(PendingOp::LimineSync { id, name }) => {
                let a = concat("Limine sync for ", name.as_str());
                let title = concat(a.as_str(), numbered(" (#", id, "): result").as_str());
                assert(title@ =~= "Limine sync for "@ + name@ + " (#"@ + decimal(id as nat) + "): result"@);
                self.show_details(title, text);
            },
            Some(PendingOp::Mount { id }) => {
                self.status = summary_of(numbered("Mounted #", id, ""), numbered("Mounted #", id, ": "), &text);
                proof { reveal_strlit(""); }
                self.mode = Mode::Normal;
            },
            Some(PendingOp::Umount { id }) => {
                self.status = summary_of(numbered("Unmounted #", id, ""), numbered("Unmounted #", id, ": "), &text);
                proof { reveal_strlit(""); }
                self.mode = Mode::Normal;
            },
            Some(PendingOp::SetupQuota) => {
                self.status = summary_of(String::from_str("Quota setup completed"), String::from_str("Quota: "), &text);
                self.mode = Mode::Normal;
                self.snaps_cache.invalidate_all();
                self.effects.push(Effect::RefreshConfigs);
            },
            Some(PendingOp::Rollback { id }) => {
                self.status = summary_of(numbered("Rollback to #", id, " completed"), numbered("Rollback #", id, ": "), &text);
                self.mode = Mode::Normal;
                self.snaps_cache.invalidate_all();
                self.effects.push(Effect::RefreshConfigs);
            },
            Some(PendingOp::SetConfig) => {
                self.status = summary_of(String::from_str("Config updated"), String::from_str("Set-config: "), &text);
                self.mode = Mode::Normal;
                self.snaps_cache.invalidate_all();
            },
            Some(PendingOp::GetConfigForEdit) => {
                self.cfg_fields = parse_config_fields(text.as_str());
                self.cfg_field_idx = if self.cfg_fields.len() == 0 {
                    None
                } else {
                    Some(0)
                };
                self.mode = Mode::ConfigForm;
                self.status = String::new();
            },
            Some(PendingOp::Create) => {
                let cfg = match self.selected_config_name() {
                    Some(c) => c,
                    None => String::new(),
                };
                self.status = concat("Created snapshot in ", cfg.as_str());
                self.mode = Mode::Normal;
                self.input = String::new();
                self.snaps_cache.invalidate_all();
                let ghost mid = *self;
                self.load_snapshots_for_selected();
                assert(snapshots_loaded(mid, *self));
            },
            Some(PendingOp::Modify { id }) => {
                self.status = numbered("Edited snapshot #", id, "");
                proof { reveal_strlit(""); }
                self.mode = Mode::Normal;
                self.input = String::new();
                self.input_cursor = 0;
                self.snaps_cache.invalidate_all();
                let ghost mid = *self;
                self.load_snapshots_for_selected();
                assert(snapshots_loaded(mid, *self));
            },
            Some(PendingOp::Delete { id }) => {
                self.status = numbered("Deleted snapshot #", id, "");
                proof { reveal_strlit(""); }
                self.snaps_cache.invalidate_all();
                let ghost mid = *self;
                self.load_snapshots_for_selected();
                assert(snapshots_loaded(mid, *self));
            },
            None => {
                self.mode = Mode::Normal;
            },
        }
    }

    /// Takes what a poll of the operation slot found. A result is applied only when its
    /// ticket is the tracked one; any other is dropped.
    pub fn on_status_delivery(&mut self, d: Delivery<String>)
        ensures
            status_delivered(*old(self), *final(self), d),
    {
        match d {
            Delivery::Empty => {},
            Delivery::Disconnected => {
                if self.status_job.is_some() {
                    self.set_status("Status failed (disconnected)");
                    self.mode = Mode::Normal;
                    self.status_job = None;
                    self.pending = None;
                }
            },
            Delivery::Ready(t, res) => {
                let awaited = match self.status_job {
                    Some(x) => x == t,
                    None => false,
                };
                if !awaited {
                    return;
                }
                match res {
                    Ok(text) => {
                        let mut op: Option<PendingOp> = None;
                        std::mem::swap(&mut op, &mut self.pending);
                        self.status_job = None;
                        self.apply_success(op, text);
                    },
                    Err(e) => {
                        self.status = concat(failure_prefix_exec(&self.pending), e.as_str());
                        self.mode = Mode::Normal;
                        self.status_job = None;
                        self.pending = None;
                    },
                }
            },
        }
    }
}

/// A key, as the terminal reports it.
#[derive(Debug, Clone, Copy, PartialEq, Eq, Structural)]
pub enum KeyCode {
    Char(char),
    Enter,
    Esc,
    Tab,
    BackTab,
    Backspace,
    Delete,
    Left,
    Right,
    Up,
    Down,
    Home,
    End,
    PageUp,
    PageDown,
    Other,
}

/// A key press with its modifiers; `other` stands for any modifier beyond shift and control.
#[derive(Debug, Clone, Copy, PartialEq, Eq, Structural)]
pub struct Key {
    pub code: KeyCode,
    pub shift: bool,
    pub ctrl: bool,
    pub other: bool,
}

/// What the mouse did.
#[derive(Debug, Clone, Copy, PartialEq, Eq, Structural)]
pub enum MouseAction {
    ScrollUp,
    ScrollDown,
    LeftClick,
    Other,
}

/// `k` is `Esc` or a plain `q`.
pub open spec fn is_close_key(k: Key) -> bool {
    k.code == KeyCode::Esc || k.code == KeyCode::Char('q')
}

/// The last line the details view can scroll to.
pub open spec fn details_max(lines: u16) -> u16 {
    if lines > 0 {
        (lines - 1) as u16
    } else {
        0
    }
}

/// `k` is one of the keys that move within a list or between configurations.
pub open spec fn is_navigation_key(k: KeyCode) -> bool {
    k == KeyCode::Tab || k == KeyCode::BackTab || k == KeyCode::Up || k == KeyCode::Down || k
        == KeyCode::PageUp || k == KeyCode::PageDown || k == KeyCode::Home || k == KeyCode::End
        || k == KeyCode::Left || k == KeyCode::Right || k == KeyCode::Char('[') || k
        == KeyCode::Char(']')
}

/// The keys Normal mode acts on.
pub open spec fn normal_key_bound(k: KeyCode) -> bool {
    is_navigation_key(k) || k == KeyCode::Enter || match k {
        KeyCode::Char(c) => c == 'r' || c == 'c' || c == 'e' || c == 'd' || c == 'g' || c == '?' || c
            == 'F' || c == 'f' || c == 'x' || c == 'm' || c == 'U' || c == 'R' || c == 'K' || c
            == 'C' || c == 'Q' || c == 'Y' || c == 'u' || c == 'S',
        _ => false,
    }
}

/// The keys the details view acts on.
pub open spec fn details_key_bound(k: KeyCode) -> bool {
    k == KeyCode::Esc || k == KeyCode::Up || k == KeyCode::Down || k == KeyCode::PageUp || k
        == KeyCode::PageDown || k == KeyCode::Home || k == KeyCode::End || k == KeyCode::Char('q')
        || k == KeyCode::Char('/') || k == KeyCode::Char('n') || k == KeyCode::Char('N') || k
        == KeyCode::Char('e')
}

/// The keys the form editor acts on.
pub open spec fn form_key_bound(k: KeyCode) -> bool {
    k == KeyCode::Esc || k == KeyCode::Up || k == KeyCode::Down || k == KeyCode::Home || k
        == KeyCode::End || k == KeyCode::Enter || k == KeyCode::Char('e') || k == KeyCode::Char('s')
        || k == KeyCode::Char('y')
}

/// The keys text input acts on.
pub open spec fn input_key_bound(k: KeyCode) -> bool {
    k == KeyCode::Esc || k == KeyCode::Enter || k == KeyCode::Backspace || k == KeyCode::Delete
        || k == KeyCode::Left || k == KeyCode::Right || k == KeyCode::Home || k == KeyCode::End
        || k is Char
}

proof fn lemma_first_hit_in_range(lines: Seq<Seq<char>>, q: Seq<char>, i: int)
    ensures
        first_hit(lines, q, i) matches Some(j) ==> i <= j < lines.len(),
    decreases lines.len() - i,
{
    if 0 <= i < lines.len() && !contains(lower_of(lines[i]), q) {
        lemma_first_hit_in_range(lines, q, i + 1);
    }
}

proof fn lemma_last_hit_in_range(lines: Seq<Seq<char>>, q: Seq<char>, end: int)
    ensures
        last_hit(lines, q, end) matches Some(j) ==> 0 <= j < end <= lines.len(),
    decreases end,
{
    if 0 < end <= lines.len() && !contains(lower_of(lines[end - 1]), q) {
        lemma_last_hit_in_range(lines, q, end - 1);
    }
}

/// A search in the details text, either way, lands on one of its lines.
pub proof fn lemma_search_lands_on_a_line(text: Seq<char>, q: Seq<char>, scroll: u16, wrap: bool)
    ensures
        forward_target(text, q, scroll, wrap) matches Some(i) ==> 0 <= i < lines_of(text).len(),
        backward_target(text, q, scroll, wrap) matches Some(i) ==> 0 <= i < lines_of(text).len(),
{
    let lines = lines_of(text);
    let start = if scroll + 1 < lines.len() { scroll + 1 } else { lines.len() as int };
    lemma_first_hit_in_range(lines, q, start);
    lemma_first_hit_in_range(lines, q, 0);
    let end = if scroll < lines.len() { scroll as int } else { lines.len() as int };
    lemma_last_hit_in_range(lines, q, end);
    lemma_last_hit_in_range(lines, q, lines.len() as int);
}

/// `b` is `a` after key `key` in Normal mode.
pub open spec fn normal_key_effect(a: App, b: App, key: Key) -> bool {
    let both = a.selected_name() is Some && a.selected_snapshot() is Some;
    let named = a.selected_name() is Some;
    &&& tag_paired(a) ==> tag_paired(b)
    &&& !normal_key_bound(key.code) ==> b == a
    &&& is_navigation_key(key.code) ==> keeps_request_state(a, b)
    &&& key.code == KeyCode::Char('?') ==> b.mode is Help
    &&& key.code == KeyCode::Char('u') ==> b.show_userdata == !a.show_userdata
    &&& key.code == KeyCode::Char('f') && !key.ctrl ==> b.snaps_fullscreen == !a.snaps_fullscreen
        && b.is_save_of(b.effects@.last())
    &&& (key.code == KeyCode::Char('f') && key.ctrl) || key.code == KeyCode::Char('F') ==> b.mode
        == Mode::Input(InputKind::Filter) && b.input@ == a.filter_text@
    &&& key.code == KeyCode::Char('r') ==> b.snaps_cache@ == Map::<Seq<char>, (Seq<SnapshotView>, u64)>::empty()
        && b.effects@.last() is RefreshConfigs
    &&& key.code == KeyCode::Char('S') ==> b.use_sudo == !a.use_sudo && b.snaps_cache@ == Map::<
        Seq<char>,
        (Seq<SnapshotView>, u64),
    >::empty() && b.effects@.len() == a.effects@.len() + 2 && b.is_save_of(
        b.effects@[a.effects@.len() as int],
    ) && b.effects@.last() is RefreshConfigs
    &&& key.code == KeyCode::Char('d') && a.selected_snapshot() is Some ==> b.mode
        == Mode::ConfirmDelete(a.selected_snapshot().unwrap().id)
    &&& key.code == KeyCode::Char('R') && a.selected_snapshot() is Some ==> b.mode
        == Mode::ConfirmRollback(a.selected_snapshot().unwrap().id)
    &&& key.code == KeyCode::Enter && both ==> b.mode is Loading && b.pending == Some(
        PendingOp::Status {
            from: a.range_at(a.snaps_state.selected.unwrap()).0,
            to: a.range_at(a.snaps_state.selected.unwrap()).1,
        },
    )
    &&& key.code == KeyCode::Char('x') && both ==> b.mode is Loading && b.pending == Some(
        PendingOp::Diff {
            from: a.range_at(a.snaps_state.selected.unwrap()).0,
            to: a.range_at(a.snaps_state.selected.unwrap()).1,
        },
    )
    &&& key.code == KeyCode::Char('m') && both ==> b.mode is Loading && b.pending == Some(
        PendingOp::Mount { id: a.selected_snapshot().unwrap().id },
    )
    &&& key.code == KeyCode::Char('U') && both ==> b.mode is Loading && b.pending == Some(
        PendingOp::Umount { id: a.selected_snapshot().unwrap().id },
    )
    &&& key.code == KeyCode::Char('Y') && both ==> b.mode is Loading && (b.pending matches Some(
        PendingOp::LimineSync { id, .. },
    ) && id == a.selected_snapshot().unwrap().id)
    &&& key.code == KeyCode::Char('c') && named ==> b.mode == Mode::Input(InputKind::Create)
        && b.input@.len() == 0
    &&& key.code == KeyCode::Char('e') && both ==> b.mode == Mode::Input(
        InputKind::Edit(a.selected_snapshot().unwrap().id),
    ) && b.input@ == a.selected_snapshot().unwrap().description
    &&& key.code == KeyCode::Char('K') && named ==> b.mode == Mode::Input(InputKind::CleanupAlgorithm)
    &&& key.code == KeyCode::Char('g') && named ==> b.mode is Loading && b.pending == Some(
        PendingOp::GetConfigForEdit,
    )
    &&& key.code == KeyCode::Char('C') && named ==> b.mode is Loading
    &&& key.code == KeyCode::Char('Q') && named ==> b.mode is Loading && b.pending == Some(
        PendingOp::SetupQuota,
    )
}

/// `b` is `a` after key `key` while text of kind `kind` is typed.
pub open spec fn input_key_effect(a: App, b: App, kind: InputKind, key: Key) -> bool {
    &&& tag_paired(a) ==> tag_paired(b)
    &&& !input_key_bound(key.code) ==> b == a
    &&& key.code == KeyCode::Esc && kind is ConfigFieldEdit ==> b.mode is ConfigForm && b.input@.len() == 0
    &&& key.code == KeyCode::Esc && kind is DetailsSearch ==> b.mode is Details && b.input@.len() == 0
        && b.pending == a.pending && b.status_job == a.status_job
    &&& key.code == KeyCode::Esc && !(kind is ConfigFieldEdit) && !(kind is DetailsSearch) ==> b.mode is Normal
        && b.input@.len() == 0 && b.status@ == "Cancelled"@ && b.pending is None && b.status_job is None
    &&& key.code == KeyCode::Backspace ==> (b.input@, b.input_cursor as nat) == edit_backspace(
        a.input@,
        a.input_cursor as nat,
    )
    &&& key.code == KeyCode::Delete ==> b.input@ == edit_delete(a.input@, a.input_cursor as nat)
        && b.input_cursor == a.input_cursor
    &&& key.code == KeyCode::Home ==> b.input_cursor == 0 && b.input == a.input
    &&& key.code == KeyCode::End ==> b.input_cursor == a.input@.len() && b.input == a.input
    &&& key.code == KeyCode::Left ==> b.input_cursor == (if a.input_cursor > 0 {
        (a.input_cursor - 1) as usize
    } else {
        0
    }) && b.input == a.input
    &&& key.code == KeyCode::Right ==> b.input_cursor == (if a.input_cursor < a.input@.len() {
        (a.input_cursor + 1) as usize
    } else {
        a.input_cursor
    }) && b.input == a.input
    &&& (key.code matches KeyCode::Char(c) ==> (!key.ctrl && !key.other && a.input@.len() < usize::MAX - 1
        ==> (b.input@, b.input_cursor as nat) == edit_insert(a.input@, a.input_cursor as nat, c)))
    &&& key.code == KeyCode::Enter && kind == InputKind::Filter ==> b.filter_text@ == trim(a.input@)
        && b.mode is Normal
    &&& key.code == KeyCode::Enter && kind == InputKind::Create && a.selected_name() is Some
        ==> b.pending == Some(PendingOp::Create)
    &&& (kind matches InputKind::Edit(id) ==> (key.code == KeyCode::Enter && a.selected_name() is Some
        ==> b.pending == Some(PendingOp::Modify { id })))
    &&& key.code == KeyCode::Enter && kind == InputKind::CleanupAlgorithm ==> (trim(trim(a.input@)).len()
        == 0 ==> b.mode is Normal) && (trim(trim(a.input@)).len() > 0 ==> b.mode is ConfirmCleanup)
    &&& key.code == KeyCode::Enter && kind == InputKind::DetailsSearch ==> b.mode is Details
    &&& key.code == KeyCode::Enter && kind is ConfigFieldEdit ==> b.mode is ConfigForm
}

/// The details scroll offset after scrolling down `delta` lines, kept within the content.
pub open spec fn scrolled_down(scroll: u16, lines: u16, delta: u16) -> u16 {
    if scroll as int + delta as int <= details_max(lines) {
        (scroll + delta) as u16
    } else if scroll <= details_max(lines) {
        details_max(lines)
    } else {
        scroll
    }
}

/// `b` is `a` after key `key` in the details view.
pub open spec fn details_key_effect(a: App, b: App, key: Key) -> bool {
    &&& (a.details_lines == line_count(a.details_text@) && lines_of(a.details_text@).len() < 65536
        && a.details_scroll <= details_max(a.details_lines) && key.code != KeyCode::Char('e'))
        ==> b.details_scroll <= details_max(a.details_lines)
    &&& tag_paired(a) ==> tag_paired(b)
    &&& !details_key_bound(key.code) ==> b == a
    &&& key.code != KeyCode::Char('e') ==> b.pending == a.pending && b.status_job == a.status_job
    &&& key.code == KeyCode::Char('e') && a.selected_name() is Some ==> b.mode is Loading && b.pending
        == Some(PendingOp::GetConfigForEdit)
    &&& is_close_key(key) ==> b.mode is Normal
    &&& key.code == KeyCode::Home ==> b.details_scroll == 0
    &&& key.code == KeyCode::End ==> b.details_scroll == details_max(a.details_lines)
    &&& key.code == KeyCode::Up ==> b.details_scroll == step_back_u16(a.details_scroll, 1)
    &&& key.code == KeyCode::PageUp ==> b.details_scroll == step_back_u16(a.details_scroll, 10)
    &&& key.code == KeyCode::Down ==> b.details_scroll == scrolled_down(a.details_scroll, a.details_lines, 1)
    &&& key.code == KeyCode::PageDown ==> b.details_scroll == scrolled_down(
        a.details_scroll,
        a.details_lines,
        10,
    )
    &&& key.code == KeyCode::Char('/') ==> b.mode == Mode::Input(InputKind::DetailsSearch)
    &&& key.code == KeyCode::Char('n') && a.details_query@.len() > 0 ==> match forward_target(
        a.details_text@,
        lower_of(a.details_query@),
        a.details_scroll,
        true,
    ) {
        Some(i) => b.details_scroll == as_scroll(i),
        None => b.details_scroll == a.details_scroll,
    }
    &&& key.code == KeyCode::Char('N') && a.details_query@.len() > 0 ==> match backward_target(
        a.details_text@,
        lower_of(a.details_query@),
        a.details_scroll,
        true,
    ) {
        Some(i) => b.details_scroll == as_scroll(i),
        None => b.details_scroll == a.details_scroll,
    }
}

pub open spec fn step_back_u16(v: u16, d: u16) -> u16 {
    if v >= d {
        (v - d) as u16
    } else {
        0
    }
}

/// `b` is `a` after key `key` in the form editor.
pub open spec fn form_key_effect(a: App, b: App, key: Key) -> bool {
    let n = a.cfg_fields@.len();
    &&& tag_paired(a) ==> tag_paired(b)
    &&& !form_key_bound(key.code) ==> b == a
    &&& key.code == KeyCode::Esc ==> b.mode is Normal && b.status@ == "Config edit cancelled"@
    &&& key.code == KeyCode::Up ==> b.cfg_field_idx == (match a.cfg_field_idx {
        Some(i) => Some(step_back(i, 1)),
        None => first_or_none(n),
    })
    &&& key.code == KeyCode::Down ==> b.cfg_field_idx == (match a.cfg_field_idx {
        Some(i) => Some(if n > 0 { step_on(i, 1, n as usize) } else { 0usize }),
        None => first_or_none(n),
    })
    &&& key.code == KeyCode::Home ==> b.cfg_field_idx == (if n > 0 { Some(0usize) } else { a.cfg_field_idx })
    &&& key.code == KeyCode::End ==> b.cfg_field_idx == (if n > 0 {
        Some((n - 1) as usize)
    } else {
        a.cfg_field_idx
    })
    &&& (key.code == KeyCode::Enter || key.code == KeyCode::Char('e')) ==> (a.cfg_field_idx matches Some(
        i,
    ) ==> (i < n ==> b.mode == Mode::Input(InputKind::ConfigFieldEdit(i)) && b.input@
        == a.cfg_fields@[i as int].value@))
    &&& (key.code == KeyCode::Char('s') || key.code == KeyCode::Char('y')) ==> (a.selected_name() is Some
        && changed_pairs(a.cfg_fields@).len() > 0 ==> b.mode is Loading && b.pending == Some(
        PendingOp::SetConfig,
    )) && (changed_pairs(a.cfg_fields@).len() == 0 ==> b.mode is Normal)
}

impl App {
    /// Takes what a poll of the listing slot found. A listing is cached under the
    /// configuration it was asked for, and shown only if that configuration is still
    /// selected; a listing whose ticket is not the tracked one is dropped.
    pub fn on_listing_delivery(&mut self, d: Delivery<Vec<Snapshot>>)
        ensures
            listing_delivered(*old(self), *final(self), d),
    {
        match d {
            Delivery::Empty => {},
            Delivery::Disconnected => {
                if self.snaps_job.is_some() {
                    self.set_status("Loading snapshots failed (disconnected)");
                    self.snapshots = Vec::new();
                    self.filtered_snaps = Vec::new();
                    self.snaps_state.selected = None;
                    self.snaps_job = None;
                    self.snaps_loading_for = None;
                }
            },
            Delivery::Ready(t, res) => {
                let awaited = match self.snaps_job {
                    Some(x) => x == t,
                    None => false,
                };
                if !awaited {
                    return;
                }
                match res {
                    Ok(snaps) => {
                        let mut loading_for: Option<String> = None;
                        std::mem::swap(&mut loading_for, &mut self.snaps_loading_for);
                        match loading_for {
                            Some(cfg_name) => {
                                let copy = duplicate_all(&snaps);
                                self.snaps_cache.put(cfg_name.as_str(), copy, self.now);
                                let still_selected = match self.selected_config_name() {
                                    Some(n) => n == cfg_name,
                                    None => false,
                                };
                                if still_selected {
                                    self.snapshots = snaps;
                                    self.apply_filter();
                                    self.snaps_state.selected = if self.filtered_snaps.len() == 0 {
                                        None
                                    } else {
                                        Some(0)
                                    };
                                    self.status = String::new();
                                }
                            },
                            None => {},
                        }
                    },
                    Err(e) => {
                        let cfg = match self.selected_config_name() {
                            Some(c) => c,
                            None => String::from_str("(unknown)"),
                        };
                        let a = concat("Failed to list snapshots for ", cfg.as_str());
                        let b = concat(a.as_str(), ": ");
                        let base = concat(b.as_str(), e.as_str());
                        self.status = listing_failure_exec(base, &self.known_configs);
                        self.snapshots = Vec::new();
                        self.filtered_snaps = Vec::new();
                        self.snaps_state.selected = None;
                        self.snaps_loading_for = None;
                    },
                }
                self.snaps_job = None;
            },
        }
    }

    /// One tick: records the time, then takes what the polls of the operation slot and
    /// of the listing slot found, in that order.
    pub fn on_tick(&mut self, now: u64, status: Delivery<String>, listing: Delivery<Vec<Snapshot>>)
        ensures
            final(self).now == now,
            final(self).tick == next_ticket_after(old(self).tick),
            exists|m: App|
                #[trigger] status_delivered(
                    ticked(*old(self), now),
                    m,
                    status,
                ) && listing_delivered(m, *final(self), listing),
            listing is Empty ==> status_delivered(
                ticked(*old(self), now),
                *final(self),
                status,
            ),
            status is Empty ==> listing_delivered(
                ticked(*old(self), now),
                *final(self),
                listing,
            ),
    {
        self.tick = if self.tick == u64::MAX {
            0
        } else {
            self.tick + 1
        };
        self.now = now;
        let ghost start = *self;
        let ghost status_seen = status;
        let ghost listing_seen = listing;
        self.on_status_delivery(status);
        let ghost mid = *self;
        self.on_listing_delivery(listing);
        assert(status_delivered(start, mid, status_seen) && listing_delivered(mid, *self, listing_seen));
    }

    /// Scrolls the details view by `delta` lines, within its content.
    fn scroll_details(&mut self, up: bool, delta: u16)
        ensures
            up ==> final(self).details_scroll == (if old(self).details_scroll >= delta {
                (old(self).details_scroll - delta) as u16
            } else {
                0
            }),
            !up ==> final(self).details_scroll == (if old(self).details_scroll as int + delta as int
                <= details_max(old(self).details_lines) {
                (old(self).details_scroll + delta) as u16
            } else if old(self).details_scroll <= details_max(old(self).details_lines) {
                details_max(old(self).details_lines)
            } else {
                old(self).details_scroll
            }),
            (App { details_scroll: final(self).details_scroll, ..*old(self) }) == *final(self),
    {
        if up {
            self.details_scroll = if self.details_scroll >= delta {
                self.details_scroll - delta
            } else {
                0
            };
        } else {
            let max: u16 = if self.details_lines > 0 {
                self.details_lines - 1
            } else {
                0
            };
            if (self.details_scroll as u32) + (delta as u32) <= max as u32 {
                self.details_scroll = self.details_scroll + delta;
            } else if self.details_scroll <= max {
                self.details_scroll = max;
            }
        }
    }

    fn on_key_normal(&mut self, key: Key)
        ensures
            normal_key_effect(*old(self), *final(self), key),
    {
        match key.code {
            KeyCode::Tab => {
                if key.shift {
                    self.select_prev_config();
                } else {
                    self.select_next_config();
                }
            },
            KeyCode::BackTab => self.select_prev_config(),
            KeyCode::Up => self.on_up(),
            KeyCode::Down => self.on_down(),
            KeyCode::PageUp => self.on_page_up(),
            KeyCode::PageDown => self.on_page_down(),
            KeyCode::Home => self.on_home(),
            KeyCode::End => self.on_end(),
            KeyCode::Enter => self.on_enter(),
            KeyCode::Left => self.select_prev_config(),
            KeyCode::Right => self.select_next_config(),
            KeyCode::Char(c) => {
                if c == 'f' && key.ctrl {
                    self.start_filter_input();
                } else if c == 'r' {
                    self.snaps_cache.invalidate_all();
                    self.effects.push(Effect::RefreshConfigs);
                } else if c == 'c' {
                    self.start_create();
                } else if c == 'e' {
                    self.start_edit();
                } else if c == 'd' {
                    self.start_delete_confirm();
                } else if c == 'g' {
                    self.start_config_edit();
                } else if c == '?' {
                    self.mode = Mode::Help;
                } else if c == 'F' {
                    self.start_filter_input();
                } else if c == 'f' {
                    self.snaps_fullscreen = !self.snaps_fullscreen;
                    self.persist_state();
                } else if c == 'x' {
                    self.on_diff();
                } else if c == 'm' {
                    self.on_mount();
                } else if c == 'U' {
                    self.on_umount();
                } else if c == 'R' {
                    self.start_rollback_confirm();
                } else if c == 'K' {
                    self.start_cleanup_input();
                } else if c == 'C' {
                    self.view_config();
                } else if c == 'Q' {
                    self.setup_quota();
                } else if c == 'Y' {
                    self.sync_limine_for_selected();
                } else if c == 'u' {
                    self.show_userdata = !self.show_userdata;
                } else if c == '[' {
                    self.select_prev_config();
                } else if c == ']' {
                    self.select_next_config();
                } else if c == 'S' {
                    self.use_sudo = !self.use_sudo;
                    self.status = if self.use_sudo {
                        String::from_str("sudo: on")
                    } else {
                        String::from_str("sudo: off")
                    };
                    self.persist_state();
                    self.snaps_cache.invalidate_all();
                    self.effects.push(Effect::RefreshConfigs);
                }
            },
            _ => {},
        }
    }

    fn on_key_input(&mut self, kind: InputKind, key: Key)
        ensures
            input_key_effect(*old(self), *final(self), kind, key),
    {
        match key.code {
            KeyCode::Esc => {
                match kind {
                    InputKind::ConfigFieldEdit(_) => {
                        self.mode = Mode::ConfigForm;
                        self.input = String::new();
                    },
                    InputKind::DetailsSearch => {
                        self.mode = Mode::Details;
                        self.input = String::new();
                    },
                    _ => {
                        self.mode = Mode::Normal;
                        self.input = String::new();
                        self.set_status("Cancelled");
                        self.status_job = None;
                        self.pending = None;
                    },
                }
            },
            KeyCode::Enter => {
                let text = string_of(&trim_chars(&chars_of(self.input.as_str())));
                match kind {
                    InputKind::Create => self.finish_create(text.as_str()),
                    InputKind::Edit(id) => self.finish_edit(id, text.as_str()),
                    InputKind::CleanupAlgorithm => self.finish_cleanup(text.as_str()),
                    InputKind::DetailsSearch => self.finish_details_search(text.as_str()),
                    InputKind::ConfigFieldEdit(idx) => self.finish_config_field_edit(idx, text.as_str()),
                    InputKind::Filter => self.finish_filter(text.as_str()),
                }
            },
            KeyCode::Backspace => self.input_backspace(),
            KeyCode::Delete => self.input_delete(),
            KeyCode::Left => self.input_move_left(),
            KeyCode::Right => self.input_move_right(),
            KeyCode::Home => self.input_move_home(),
            KeyCode::End => self.input_move_end(),
            KeyCode::Char(c) => {
                if !key.ctrl && !key.other && self.input_len_chars() < usize::MAX - 1 {
                    self.input_insert_char(c);
                }
            },
            _ => {},
        }
    }

    fn on_key_config_form(&mut self, key: Key)
        ensures
            form_key_effect(*old(self), *final(self), key),
    {
        let n = self.cfg_fields.len();
        match key.code {
            KeyCode::Esc => {
                self.mode = Mode::Normal;
                self.set_status("Config edit cancelled");
            },
            KeyCode::Up => {
                match self.cfg_field_idx {
                    Some(i) => {
                        self.cfg_field_idx = Some(if i >= 1 { i - 1 } else { 0 });
                    },
                    None => if n > 0 {
                        self.cfg_field_idx = Some(0);
                    },
                }
            },
            KeyCode::Down => {
                match self.cfg_field_idx {
                    Some(i) => {
                        let last = if n > 0 { n - 1 } else { 0 };
                        self.cfg_field_idx = Some(if i < last { i + 1 } else { last });
                    },
                    None => if n > 0 {
                        self.cfg_field_idx = Some(0);
                    },
                }
            },
            KeyCode::Home => if n > 0 {
                self.cfg_field_idx = Some(0);
            },
            KeyCode::End => if n > 0 {
                self.cfg_field_idx = Some(n - 1);
            },
            KeyCode::Enter | KeyCode::Char('e') => {
                match self.cfg_field_idx {
                    Some(i) => if i < n {
                        self.input = self.cfg_fields[i].value.clone();
                        self.input_cursor = self.input_len_chars();
                        self.mode = Mode::Input(InputKind::ConfigFieldEdit(i));
                    },
                    None => {},
                }
            },
            KeyCode::Char('s') | KeyCode::Char('y') => self.apply_config_form_changes(),
            _ => {},
        }
    }

    fn on_key_details(&mut self, key: Key)
        ensures
            details_key_effect(*old(self), *final(self), key),
    {
        let ghost premise = self.details_lines == line_count(self.details_text@) && lines_of(
            self.details_text@,
        ).len() < 65536 && self.details_scroll <= details_max(self.details_lines);
        match key.code {
            KeyCode::Esc | KeyCode::Char('q') => self.mode = Mode::Normal,
            KeyCode::Up => self.scroll_details(true, 1),
            KeyCode::Down => self.scroll_details(false, 1),
            KeyCode::PageUp => self.scroll_details(true, 10),
            KeyCode::PageDown => self.scroll_details(false, 10),
            KeyCode::Home => self.details_scroll = 0,
            KeyCode::End => {
                self.details_scroll = if self.details_lines > 0 {
                    self.details_lines - 1
                } else {
                    0
                };
            },
            KeyCode::Char('/') => self.start_details_search(),
            KeyCode::Char('n') => {
                self.find_next();
                proof {
                    let text = old(self).details_text@;
                    let q = lower_of(old(self).details_query@);
                    if premise && old(self).details_query@.len() > 0 {
                        lemma_search_lands_on_a_line(text, q, old(self).details_scroll, true);
                        match forward_target(text, q, old(self).details_scroll, true) {
                            Some(i) => {
                                let n = lines_of(text).len();
                                assert(0 <= i < n);
                                assert(i % 65536 == i);
                                assert(n % 65536 == n);
                                assert(old(self).details_lines as int == n);
                                assert(self.details_scroll as int == i);
                                assert(self.details_scroll <= details_max(old(self).details_lines));
                            },
                            None => {},
                        }
                    }
                }
                assert(premise ==> self.details_scroll <= details_max(old(self).details_lines));
            },
            KeyCode::Char('N') => {
                self.find_prev();
                proof {
                    let text = old(self).details_text@;
                    let q = lower_of(old(self).details_query@);
                    if premise && old(self).details_query@.len() > 0 {
                        lemma_search_lands_on_a_line(text, q, old(self).details_scroll, true);
                        match backward_target(text, q, old(self).details_scroll, true) {
                            Some(i) => {
                                let n = lines_of(text).len();
                                assert(0 <= i < n);
                                assert(i % 65536 == i);
                                assert(n % 65536 == n);
                                assert(old(self).details_lines as int == n);
                                assert(self.details_scroll as int == i);
                                assert(self.details_scroll <= details_max(old(self).details_lines));
                            },
                            None => {},
                        }
                    }
                }
                assert(premise ==> self.details_scroll <= details_max(old(self).details_lines));
            },
            KeyCode::Char('e') => self.start_config_edit(),
            _ => {},
        }
    }

    /// Handles one key press in the current mode.
    pub fn on_key(&mut self, key: Key)
        ensures
            tag_paired(*old(self)) ==> tag_paired(*final(self)),
            old(self).mode is Normal ==> normal_key_effect(*old(self), *final(self), key),
            old(self).mode matches Mode::Input(kind) ==> input_key_effect(*old(self), *final(self), kind, key),
            old(self).mode is Details ==> details_key_effect(*old(self), *final(self), key),
            old(self).mode is ConfigForm ==> form_key_effect(*old(self), *final(self), key),
            old(self).mode is Loading && is_close_key(key) ==> (App {
                mode: Mode::Normal,
                status_job: None,
                pending: None,
                status: final(self).status,
                ..*old(self)
            }) == *final(self),
            old(self).mode is Help && is_close_key(key) ==> final(self).mode is Normal,
            old(self).mode is Help && !is_close_key(key) ==> *final(self) == *old(self),
            old(self).mode is Normal && key.code == KeyCode::Char('?') ==> final(self).mode is Help,
            old(self).mode is Loading && is_close_key(key) ==> final(self).mode is Normal
                && final(self).status_job is None && final(self).pending is None && final(self).status@
                == "Cancelled"@,
            old(self).mode is Loading && !is_close_key(key) ==> *final(self) == *old(self),
            (old(self).mode is ConfirmDelete || old(self).mode is ConfirmRollback
                || old(self).mode is ConfirmCleanup) && (key.code == KeyCode::Esc || key.code
                == KeyCode::Char('n')) ==> final(self).mode is Normal && final(self).pending == old(
                self).pending && final(self).effects == old(self).effects,
            old(self).mode matches Mode::ConfirmRollback(id) ==> key.code == KeyCode::Char('y') ==> (
            old(self).selected_name() is Some ==> final(self).pending == Some(PendingOp::Rollback { id })
                && final(self).mode is Loading),
            old(self).mode matches Mode::ConfirmDelete(id) ==> key.code == KeyCode::Char('y') ==> (
            old(self).selected_name() is Some ==> final(self).pending == Some(PendingOp::Delete { id })),
            old(self).mode matches Mode::Input(kind) ==> key.code == KeyCode::Esc ==> final(self).input@.len() == 0,
            old(self).mode is Details && is_close_key(key) ==> final(self).mode is Normal,
            old(self).mode is Details && key.code == KeyCode::Home ==> final(self).details_scroll == 0,
            old(self).mode is Details && key.code == KeyCode::End ==> final(self).details_scroll
                == details_max(old(self).details_lines),
            old(self).mode is ConfigForm && key.code == KeyCode::Esc ==> final(self).mode is Normal,
            old(self).mode is Normal && key.code == KeyCode::Char('u') ==> final(self).show_userdata
                == !old(self).show_userdata,
            old(self).mode is Normal && (key.code == KeyCode::Char('F') || (key.code == KeyCode::Char('f')
                && key.ctrl)) ==> final(self).mode == Mode::Input(InputKind::Filter),
            old(self).mode is Normal && key.code == KeyCode::Char('S') ==> final(self).use_sudo == !old(
                self).use_sudo && final(self).effects@.last() is RefreshConfigs,
            old(self).mode is Normal && key.code == KeyCode::Char('d') && old(self).selected_snapshot() is Some
                ==> final(self).mode == Mode::ConfirmDelete(old(self).selected_snapshot().unwrap().id),
            old(self).mode == Mode::Input(InputKind::Filter) && key.code == KeyCode::Enter ==> final(
                self).filter_text@ == trim(old(self).input@) && final(self).mode is Normal,
    {
        match &self.mode {
            Mode::Normal => self.on_key_normal(key),
            Mode::Input(k) => {
                let kind = *k;
                self.on_key_input(kind, key);
            },
            Mode::ConfirmDelete(i) => {
                let id = *i;
                if key.code == KeyCode::Char('y') {
                    self.mode = Mode::Normal;
                    self.on_delete_confirmed(id);
                } else if key.code == KeyCode::Esc || key.code == KeyCode::Char('n') {
                    self.mode = Mode::Normal;
                    self.set_status("Delete cancelled");
                }
            },
            Mode::ConfirmRollback(i) => {
                let id = *i;
                if key.code == KeyCode::Char('y') {
                    self.mode = Mode::Normal;
                    self.on_rollback_confirmed(id);
                } else if key.code == KeyCode::Esc || key.code == KeyCode::Char('n') {
                    self.mode = Mode::Normal;
                    self.set_status("Rollback cancelled");
                }
            },
            Mode::ConfirmCleanup(a) => {
                let alg = a.clone();
                if key.code == KeyCode::Char('y') {
                    self.mode = Mode::Normal;
                    self.on_cleanup_confirmed(alg.as_str());
                } else if key.code == KeyCode::Esc || key.code == KeyCode::Char('n') {
                    self.mode = Mode::Normal;
                    self.set_status("Cleanup cancelled");
                }
            },
            Mode::Help => {
                if key.code == KeyCode::Esc || key.code == KeyCode::Char('q') {
                    self.mode = Mode::Normal;
                }
            },
            Mode::Details => self.on_key_details(key),
            Mode::Loading => {
                if key.code == KeyCode::Esc || key.code == KeyCode::Char('q') {
                    self.mode = Mode::Normal;
                    self.status_job = None;
                    self.pending = None;
                    self.set_status("Cancelled");
                }
            },
            Mode::ConfigForm => self.on_key_config_form(key),
        }
    }

    /// Handles the mouse: the wheel scrolls the details view or moves the focused list.
    fn in_details(&self) -> (r: bool)
        ensures
            r == self.mode is Details,
    {
        match self.mode {
            Mode::Details => true,
            _ => false,
        }
    }

    pub fn on_mouse(&mut self, action: MouseAction)
        ensures
            old(self).mode is Details && action == MouseAction::ScrollDown ==> (App {
                details_scroll: scrolled_down(old(self).details_scroll, old(self).details_lines, 3),
                ..*old(self)
            }) == *final(self),
            !(old(self).mode is Details) && old(self).focus == Focus::Snapshots && action
                == MouseAction::ScrollDown && old(self).filtered_snaps@.len() > 0 ==> final(self).snaps_state.selected
                == Some(step_on(old(self).snaps_state.selected.unwrap_or(0), 1, old(self).filtered_snaps@.len() as usize)),
            !(old(self).mode is Details) && old(self).focus == Focus::Configs && action
                == MouseAction::ScrollDown && old(self).configs@.len() > 0 ==> final(self).configs_state.selected
                == Some(step_on(old(self).configs_state.selected.unwrap_or(0), 1, old(self).configs@.len() as usize)),
            !(old(self).mode is Details) && old(self).focus == Focus::Configs && action
                == MouseAction::ScrollUp && old(self).configs_state.selected is Some ==> final(self).configs_state.selected
                == Some(step_back(old(self).configs_state.selected.unwrap(), 1)),
            keeps_request_state(*old(self), *final(self)),
            old(self).mode is Details && action == MouseAction::ScrollUp ==> final(self).details_scroll
                == (if old(self).details_scroll >= 3 {
                (old(self).details_scroll - 3) as u16
            } else {
                0
            }),
            action == MouseAction::LeftClick || action == MouseAction::Other ==> *final(self) == *old(self),
            !(old(self).mode is Details) && old(self).focus == Focus::Snapshots && action
                == MouseAction::ScrollUp && old(self).snaps_state.selected is Some ==> final(self).snaps_state.selected
                == Some(step_back(old(self).snaps_state.selected.unwrap(), 1)),
    {
        match action {
            MouseAction::ScrollUp => {
                if self.in_details() {
                    self.scroll_details(true, 3);
                } else if self.focus == Focus::Snapshots {
                    match self.snaps_state.selected {
                        Some(sel) => {
                            self.snaps_state.selected = Some(if sel >= 1 { sel - 1 } else { 0 });
                        },
                        None => {},
                    }
                } else {
                    match self.configs_state.selected {
                        Some(sel) => self.select_config(if sel >= 1 { sel - 1 } else { 0 }),
                        None => {},
                    }
                }
            },
            MouseAction::ScrollDown => {
                if self.in_details() {
                    self.scroll_details(false, 3);
                } else if self.focus == Focus::Snapshots {
                    let len = self.filtered_snaps.len();
                    if len > 0 {
                        let sel = self.snaps_state.selected.unwrap_or(0);
                        self.snaps_state.selected = Some(if sel < len - 1 { sel + 1 } else { len - 1 });
                    }
                } else {
                    let len = self.configs.len();
                    if len > 0 {
                        let sel = self.configs_state.selected.unwrap_or(0);
                        self.select_config(if sel < len - 1 { sel + 1 } else { len - 1 });
                    }
                }
            },
            _ => {},
        }
    }

    /// A state built from the stored preferences and a first configuration list, with the
    /// last selected configuration selected again when it is still listed.
    pub fn new(persisted: State, configs: Result<Vec<Config>, String>, on_disk: Vec<String>, now: u64) -> (r: App)
        ensures
            configs is Ok ==> (persisted.last_config matches Some(last) ==> ((exists|k: int|
                0 <= k < configs->Ok_0@.len() && (#[trigger] configs->Ok_0@[k]).name@ == last@)
                ==> exists|m: App|
                #[trigger] snapshots_loaded(m, r) && m.configs == configs->Ok_0 && m.selected_name()
                    == Some(last@))),
            r.status_job is None,
            configs is Ok ==> (persisted.last_config matches Some(last) ==> ((exists|k: int|
                0 <= k < configs->Ok_0@.len() && (#[trigger] configs->Ok_0@[k]).name@ == last@)
                ==> r.selected_name() == Some(last@))),
            r.use_sudo == persisted.use_sudo,
            r.snaps_fullscreen == persisted.snaps_fullscreen,
            persisted.filter is Some ==> r.filter_text == persisted.filter.unwrap(),
            persisted.filter is None ==> r.filter_text@.len() == 0,
            r.now == now,
            r.mode is Normal,
            r.pending is None,
            configs is Ok ==> r.configs == configs->Ok_0,
            r.snaps_cache.ttl == CACHE_TTL_MS,
    {
        let mut s = App::default();
        s.use_sudo = persisted.use_sudo;
        s.snaps_fullscreen = persisted.snaps_fullscreen;
        s.now = now;
        s.filter_text = match persisted.filter {
            Some(f) => f,
            None => String::new(),
        };
        s.refresh_all(configs, on_disk);
        match persisted.last_config {
            Some(last) => {
                match position_of(&s.configs, &last) {
                    Some(idx) => {
                        s.configs_state.selected = Some(idx);
                        let ghost mid = s;
                        s.load_snapshots_for_selected();
                        assert(snapshots_loaded(mid, s));
                    },
                    None => {},
                }
            },
            None => {},
        }
        s
    }
}

} // verus!
