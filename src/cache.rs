//! A time-bounded cache of snapshot listings, keyed by configuration name.
use vstd::prelude::*;
use vstd::string::*;
use crate::snapper::{duplicate_all, snapshots_view, Snapshot, SnapshotView};

verus! {

/// One cached listing and the instant, in milliseconds, at which it was captured.
pub struct CacheEntry {
    pub key: String,
    pub snapshots: Vec<Snapshot>,
    pub seen_at: u64,
}

pub open spec fn entry_value(e: CacheEntry) -> (Seq<SnapshotView>, u64) {
    (snapshots_view(e.snapshots@), e.seen_at)
}

/// What a list of entries holds: a later entry for a key hides earlier ones.
pub open spec fn entries_map(es: Seq<CacheEntry>) -> Map<Seq<char>, (Seq<SnapshotView>, u64)>
    decreases es.len(),
{
    if es.len() == 0 {
        Map::empty()
    } else {
        entries_map(es.drop_last()).insert(es.last().key@, entry_value(es.last()))
    }
}

/// Age of an entry captured at `seen_at`, seen at `now`; a clock that went back gives zero.
pub open spec fn age_at(seen_at: u64, now: u64) -> u64 {
    if now >= seen_at {
        (now - seen_at) as u64
    } else {
        0
    }
}

/// What `get` answers for a cache holding `m`: the stored list and its age.
pub open spec fn lookup(
    m: Map<Seq<char>, (Seq<SnapshotView>, u64)>,
    key: Seq<char>,
    now: u64,
) -> Option<(Seq<SnapshotView>, u64)> {
    if m.contains_key(key) {
        Some((m[key].0, age_at(m[key].1, now)))
    } else {
        None
    }
}

/// Cached listings with a fixed time-to-live, in milliseconds.
pub struct SnapshotCache {
    pub entries: Vec<CacheEntry>,
    pub ttl: u64,
}

impl View for SnapshotCache {
    type V = Map<Seq<char>, (Seq<SnapshotView>, u64)>;

    open spec fn view(&self) -> Map<Seq<char>, (Seq<SnapshotView>, u64)> {
        entries_map(self.entries@)
    }
}

proof fn lemma_entries_map_last(es: Seq<CacheEntry>, key: Seq<char>, i: int)
    requires
        0 <= i < es.len(),
        es[i].key@ == key,
        forall|j: int| i < j < es.len() ==> (#[trigger] es[j]).key@ != key,
    ensures
        entries_map(es).contains_key(key),
        entries_map(es)[key] == entry_value(es[i]),
    decreases es.len(),
{
    if i < es.len() - 1 {
        lemma_entries_map_last(es.drop_last(), key, i);
    }
}

proof fn lemma_entries_map_absent(es: Seq<CacheEntry>, key: Seq<char>)
    requires
        forall|j: int| 0 <= j < es.len() ==> (#[trigger] es[j]).key@ != key,
    ensures
        !entries_map(es).contains_key(key),
    decreases es.len(),
{
    if es.len() > 0 {
        lemma_entries_map_absent(es.drop_last(), key);
    }
}

proof fn lemma_entries_map_push(es: Seq<CacheEntry>, e: CacheEntry)
    ensures
        entries_map(es.push(e)) == entries_map(es).insert(e.key@, entry_value(e)),
{
    assert(es.push(e).drop_last() =~= es);
}

impl SnapshotCache {
    /// An empty cache whose entries stay fresh for `ttl` milliseconds.
    pub fn new(ttl: u64) -> (r: SnapshotCache)
        ensures
            r@ == Map::<Seq<char>, (Seq<SnapshotView>, u64)>::empty(),
            r.ttl == ttl,
    {
        SnapshotCache { entries: Vec::new(), ttl }
    }

    /// The list stored under `key` and its age at `now`, if there is one, fresh or not.
    pub fn get(&self, key: &str, now: u64) -> (r: Option<(Vec<Snapshot>, u64)>)
        ensures
            r.is_some() == lookup(self@, key@, now).is_some(),
            r.is_some() ==> snapshots_view(r.unwrap().0@) == lookup(self@, key@, now).unwrap().0
                && r.unwrap().1 == lookup(self@, key@, now).unwrap().1,
    {
        let k = String::from_str(key);
        let mut i: usize = self.entries.len();
        while i > 0
            invariant
                k@ == key@,
                i <= self.entries@.len(),
                forall|j: int| i <= j < self.entries@.len() ==> (#[trigger] self.entries@[j]).key@ != key@,
            decreases i,
        {
            let e = &self.entries[i - 1];
            if e.key == k {
                proof {
                    lemma_entries_map_last(self.entries@, key@, i - 1);
                }
                let age: u64 = if now >= e.seen_at {
                    now - e.seen_at
                } else {
                    0
                };
                return Some((duplicate_all(&e.snapshots), age));
            }
            i = i - 1;
        }
        proof {
            lemma_entries_map_absent(self.entries@, key@);
        }
        None
    }

    /// Whether an entry of age `age` is still fresh.
    pub fn is_fresh(&self, age: u64) -> (r: bool)
        ensures
            r == (age < self.ttl),
    {
        age < self.ttl
    }

    /// Whether anything is stored under `key`.
    pub fn contains_key(&self, key: &str) -> (r: bool)
        ensures
            r == self@.contains_key(key@),
    {
        let k = String::from_str(key);
        let mut i: usize = self.entries.len();
        while i > 0
            invariant
                k@ == key@,
                i <= self.entries@.len(),
                forall|j: int| i <= j < self.entries@.len() ==> (#[trigger] self.entries@[j]).key@ != key@,
            decreases i,
        {
            if self.entries[i - 1].key == k {
                proof {
                    lemma_entries_map_last(self.entries@, key@, i - 1);
                }
                return true;
            }
            i = i - 1;
        }
        proof {
            lemma_entries_map_absent(self.entries@, key@);
        }
        false
    }

    /// Stores `snapshots` under `key`, captured at `now`, replacing what was there; no
    /// other entry for `key` is kept.
    pub fn put(&mut self, key: &str, snapshots: Vec<Snapshot>, now: u64)
        ensures
            final(self)@ == old(self)@.insert(key@, (snapshots_view(snapshots@), now)),
            final(self).ttl == old(self).ttl,
            forall|j: int|
                0 <= j < final(self).entries@.len() - 1 ==> (#[trigger] final(self).entries@[j]).key@ != key@,
    {
        let k = String::from_str(key);
        let mut kept: Vec<CacheEntry> = Vec::new();
        let ghost es = self.entries@;
        let mut i: usize = 0;
        while i < self.entries.len()
            invariant
                i <= es.len(),
                es == self.entries@,
                k@ == key@,
                entries_map(kept@) == entries_map(es.subrange(0, i as int)).remove(key@),
                forall|j: int| 0 <= j < kept@.len() ==> (#[trigger] kept@[j]).key@ != key@,
            decreases es.len() - i,
        {
            let e = &self.entries[i];
            let ghost before = es.subrange(0, i as int);
            assert(es.subrange(0, i + 1).drop_last() =~= before);
            if !(e.key == k) {
                let copy = CacheEntry { key: e.key.clone(), snapshots: duplicate_all(&e.snapshots), seen_at: e.seen_at };
                proof {
                    lemma_entries_map_push(kept@, copy);
                }
                kept.push(copy);
                assert(entries_map(kept@) =~= entries_map(es.subrange(0, i + 1)).remove(key@));
            } else {
                assert(entries_map(kept@) =~= entries_map(es.subrange(0, i + 1)).remove(key@));
            }
            i = i + 1;
        }
        assert(es.subrange(0, es.len() as int) =~= es);
        let e = CacheEntry { key: k, snapshots, seen_at: now };
        proof {
            lemma_entries_map_push(kept@, e);
            assert(entries_map(kept@.push(e)) =~= old(self)@.insert(key@, (snapshots_view(e.snapshots@), now)));
        }
        kept.push(e);
        self.entries = kept;
    }

    /// Drops every entry.
    pub fn invalidate_all(&mut self)
        ensures
            final(self)@ == Map::<Seq<char>, (Seq<SnapshotView>, u64)>::empty(),
            final(self).ttl == old(self).ttl,
    {
        self.entries.clear();
    }
}

/// A listing read back within the time-to-live is the list stored, and fresh; read back
/// later it is still the list stored, and reported stale.
pub proof fn lemma_get_after_put(
    m: Map<Seq<char>, (Seq<SnapshotView>, u64)>,
    key: Seq<char>,
    list: Seq<SnapshotView>,
    put_at: u64,
    now: u64,
    ttl: u64,
)
    requires
        put_at <= now,
    ensures
        lookup(m.insert(key, (list, put_at)), key, now) == Some((list, (now - put_at) as u64)),
        (now - put_at < ttl) <==> (lookup(m.insert(key, (list, put_at)), key, now).unwrap().1 < ttl),
{
}

} // verus!
