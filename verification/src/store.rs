//! The tiered key/value table behind every persisted record group.
//!
//! A table has three tiers: `db` models the durable generation, `cache` the
//! last fully committed working copy, and `buffer` the work in progress.  A
//! switch routes writes: `Some(true)` sends them to the buffer, anything
//! else to the cache.  `flush` replaces the durable tier wholesale with one
//! generation, so the durable tier always equals a single generation in its
//! entirety and never a mix — the property that makes restart-time recovery
//! well defined.

use crate::records::{Record, RecordView};
use vstd::pervasive::VecAdditionalExecFns;
use vstd::prelude::*;

verus! {

/// One key/record pair of a table tier.
#[derive(Debug)]
pub struct Entry {
    /// The record's key, a unit id or a singleton tag.
    pub key: String,
    /// The record itself.
    pub val: Record,
}

/// The map a sequence of entries denotes; a later entry wins over an
/// earlier one with the same key.
pub open spec fn entries_map(s: Seq<Entry>) -> Map<Seq<char>, RecordView>
    decreases s.len(),
{
    if s.len() == 0 {
        Map::empty()
    } else {
        entries_map(s.drop_last()).insert(s.last().key@, s.last().val@)
    }
}

/// No two entries share a key.
pub open spec fn keys_unique(s: Seq<Entry>) -> bool {
    forall|i: int, j: int| 0 <= i < j < s.len() ==> s[i].key@ != s[j].key@
}

proof fn lemma_entries_map_contains(s: Seq<Entry>, k: Seq<char>)
    ensures
        entries_map(s).contains_key(k) <==> exists|i: int| 0 <= i < s.len() && s[i].key@ == k,
    decreases s.len(),
{
    if s.len() == 0 {
    } else {
        lemma_entries_map_contains(s.drop_last(), k);
        if s.last().key@ == k {
            assert(s[s.len() - 1].key@ == k);
        } else {
            if entries_map(s).contains_key(k) {
                let i = choose|i: int| 0 <= i < s.drop_last().len() && s.drop_last()[i].key@ == k;
                assert(s[i].key@ == k);
            }
            if exists|i: int| 0 <= i < s.len() && s[i].key@ == k {
                let i = choose|i: int| 0 <= i < s.len() && s[i].key@ == k;
                assert(i < s.len() - 1);
                assert(s.drop_last()[i].key@ == k);
            }
        }
    }
}

proof fn lemma_entries_map_index(s: Seq<Entry>, i: int)
    requires
        keys_unique(s),
        0 <= i < s.len(),
    ensures
        entries_map(s).contains_key(s[i].key@),
        entries_map(s)[s[i].key@] == s[i].val@,
    decreases s.len(),
{
    lemma_entries_map_contains(s, s[i].key@);
    if i == s.len() - 1 {
    } else {
        assert(s.drop_last()[i] == s[i]);
        lemma_entries_map_index(s.drop_last(), i);
        assert(s.last().key@ != s[i].key@);
    }
}

proof fn lemma_entries_map_update(s: Seq<Entry>, i: int, e: Entry)
    requires
        keys_unique(s),
        0 <= i < s.len(),
        s[i].key@ == e.key@,
    ensures
        entries_map(s.update(i, e)) == entries_map(s).insert(e.key@, e.val@),
        keys_unique(s.update(i, e)),
    decreases s.len(),
{
    let t = s.update(i, e);
    assert forall|p: int, q: int| 0 <= p < q < t.len() implies t[p].key@ != t[q].key@ by {
        assert(s[p].key@ != s[q].key@);
    }
    if i == s.len() - 1 {
        assert(t.drop_last() =~= s.drop_last());
        assert(t.last() == e);
        assert(entries_map(t) == entries_map(s.drop_last()).insert(e.key@, e.val@));
        assert(entries_map(s).insert(e.key@, e.val@) =~= entries_map(s.drop_last()).insert(
            e.key@,
            e.val@,
        ));
    } else {
        assert(t.drop_last() =~= s.drop_last().update(i, e));
        assert(t.last() == s.last());
        lemma_entries_map_update(s.drop_last(), i, e);
        assert(s.last().key@ != e.key@);
        assert(entries_map(t) == entries_map(s.drop_last()).insert(e.key@, e.val@).insert(
            s.last().key@,
            s.last().val@,
        ));
        assert(entries_map(s.drop_last()).insert(e.key@, e.val@).insert(
            s.last().key@,
            s.last().val@,
        ) =~= entries_map(s).insert(e.key@, e.val@));
    }
}

proof fn lemma_entries_map_push(s: Seq<Entry>, e: Entry)
    ensures
        entries_map(s.push(e)) == entries_map(s).insert(e.key@, e.val@),
{
    assert(s.push(e).drop_last() =~= s);
    assert(s.push(e).last() == e);
}

proof fn lemma_entries_map_remove(s: Seq<Entry>, i: int)
    requires
        keys_unique(s),
        0 <= i < s.len(),
    ensures
        entries_map(s.remove(i)) == entries_map(s).remove(s[i].key@),
        keys_unique(s.remove(i)),
    decreases s.len(),
{
    let t = s.remove(i);
    assert forall|p: int, q: int| 0 <= p < q < t.len() implies t[p].key@ != t[q].key@ by {
        let sp: int = if p < i {
            p
        } else {
            p + 1
        };
        let sq: int = if q < i {
            q
        } else {
            q + 1
        };
        assert(t[p] == s[sp]);
        assert(t[q] == s[sq]);
        assert(s[sp].key@ != s[sq].key@);
    }
    if i == s.len() - 1 {
        assert(t =~= s.drop_last());
        lemma_entries_map_contains(s.drop_last(), s[i].key@);
        assert forall|j: int| 0 <= j < s.drop_last().len() implies s.drop_last()[j].key@
            != s[i].key@ by {
            assert(s[j].key@ != s[i].key@);
        }
        assert(!entries_map(s.drop_last()).contains_key(s[i].key@));
        assert(entries_map(s.drop_last()).insert(s[i].key@, s[i].val@).remove(s[i].key@)
            =~= entries_map(s.drop_last()));
    } else {
        assert(t.drop_last() =~= s.drop_last().remove(i));
        assert(t.last() == s.last());
        assert(s.drop_last()[i] == s[i]);
        lemma_entries_map_remove(s.drop_last(), i);
        assert(entries_map(t) == entries_map(s.drop_last()).remove(s[i].key@).insert(
            s.last().key@,
            s.last().val@,
        ));
        assert(s.last().key@ != s[i].key@);
        assert(entries_map(s.drop_last()).remove(s[i].key@).insert(s.last().key@, s.last().val@)
            =~= entries_map(s).remove(s[i].key@));
    }
}

proof fn lemma_entries_map_congruent(a: Seq<Entry>, b: Seq<Entry>)
    requires
        a.len() == b.len(),
        forall|i: int| 0 <= i < a.len() ==> a[i].key@ == b[i].key@ && a[i].val@ == b[i].val@,
    ensures
        entries_map(a) == entries_map(b),
        keys_unique(a) ==> keys_unique(b),
    decreases a.len(),
{
    if a.len() == 0 {
        assert(entries_map(a) =~= entries_map(b));
    } else {
        assert forall|i: int| 0 <= i < a.drop_last().len() implies a.drop_last()[i].key@
            == b.drop_last()[i].key@ && a.drop_last()[i].val@ == b.drop_last()[i].val@ by {
            assert(a[i].key@ == b[i].key@ && a[i].val@ == b[i].val@);
        }
        lemma_entries_map_congruent(a.drop_last(), b.drop_last());
        assert(entries_map(a) =~= entries_map(b));
        if keys_unique(a) {
            assert forall|p: int, q: int| 0 <= p < q < b.len() implies b[p].key@ != b[q].key@ by {
                assert(a[p].key@ != a[q].key@);
            }
        }
    }
}

/// Index of the entry with the given key, if one exists.
fn find_idx(v: &Vec<Entry>, key: &String) -> (r: Option<usize>)
    ensures
        match r {
            Some(i) => i < v.len() && v@[i as int].key@ == key@,
            None => forall|i: int| 0 <= i < v.len() ==> v@[i].key@ != key@,
        },
{
    let mut i: usize = 0;
    while i < v.len()
        invariant
            i <= v.len(),
            forall|j: int| 0 <= j < i ==> v@[j].key@ != key@,
        decreases v.len() - i,
    {
        if v[i].key == *key {
            return Some(i);
        }
        i = i + 1;
    }
    None
}

/// Insert or overwrite the record under `key`.
fn upsert(v: &mut Vec<Entry>, key: &String, val: Record)
    requires
        keys_unique(old(v)@),
    ensures
        keys_unique(final(v)@),
        entries_map(final(v)@) == entries_map(old(v)@).insert(key@, val@),
{
    match find_idx(v, key) {
        Some(i) => {
            let e = Entry { key: key.clone(), val };
            proof {
                lemma_entries_map_update(v@, i as int, e);
            }
            v.set(i, e);
        }
        None => {
            let e = Entry { key: key.clone(), val };
            proof {
                lemma_entries_map_push(v@, e);
                assert forall|p: int, q: int|
                    0 <= p < q < v@.push(e).len() implies v@.push(e)[p].key@
                    != v@.push(e)[q].key@ by {
                    if q < v@.len() {
                        assert(v@[p].key@ != v@[q].key@);
                    } else {
                        assert(v@[p].key@ != key@);
                    }
                }
            }
            v.push(e);
        }
    }
}

/// Remove the record under `key`, if any.
fn remove_key(v: &mut Vec<Entry>, key: &String)
    requires
        keys_unique(old(v)@),
    ensures
        keys_unique(final(v)@),
        entries_map(final(v)@) == entries_map(old(v)@).remove(key@),
{
    match find_idx(v, key) {
        Some(i) => {
            proof {
                lemma_entries_map_remove(v@, i as int);
            }
            v.remove(i);
        }
        None => {
            proof {
                lemma_entries_map_contains(v@, key@);
                assert(entries_map(v@).remove(key@) =~= entries_map(v@));
            }
        }
    }
}

/// A copy of a tier, entry by entry.
fn copy_entries(v: &Vec<Entry>) -> (r: Vec<Entry>)
    ensures
        entries_map(r@) == entries_map(v@),
        keys_unique(v@) ==> keys_unique(r@),
{
    let mut r: Vec<Entry> = Vec::new();
    let mut i: usize = 0;
    while i < v.len()
        invariant
            i <= v.len(),
            r@.len() == i,
            forall|j: int| 0 <= j < i ==> r@[j].key@ == v@[j].key@ && r@[j].val@ == v@[j].val@,
        decreases v.len() - i,
    {
        r.push(Entry { key: v[i].key.clone(), val: v[i].val.clone() });
        i = i + 1;
    }
    proof {
        lemma_entries_map_congruent(v@, r@);
    }
    r
}

/// The ghost state of one table: the three tiers as maps, and the routing
/// switch.
pub struct StoreModel {
    /// The durable generation.
    pub db: Map<Seq<char>, RecordView>,
    /// The last fully committed working copy.
    pub cache: Map<Seq<char>, RecordView>,
    /// The work-in-progress generation.
    pub buffer: Map<Seq<char>, RecordView>,
    /// Where writes go: `Some(true)` routes to the buffer, anything else to
    /// the cache.
    pub switch: Option<bool>,
}

impl StoreModel {
    /// The state of a table with nothing in it.
    pub open spec fn empty_model() -> StoreModel {
        StoreModel {
            db: Map::empty(),
            cache: Map::empty(),
            buffer: Map::empty(),
            switch: None,
        }
    }

    /// A write of `v` under `k`, landing in the routed tier.
    pub open spec fn do_insert(self, k: Seq<char>, v: RecordView) -> StoreModel {
        if self.switch == Some(true) {
            StoreModel { buffer: self.buffer.insert(k, v), ..self }
        } else {
            StoreModel { cache: self.cache.insert(k, v), ..self }
        }
    }

    /// A removal of `k` from the routed tier.
    pub open spec fn do_remove(self, k: Seq<char>) -> StoreModel {
        if self.switch == Some(true) {
            StoreModel { buffer: self.buffer.remove(k), ..self }
        } else {
            StoreModel { cache: self.cache.remove(k), ..self }
        }
    }

    /// Re-routing of subsequent writes.
    pub open spec fn do_switch_set(self, s: Option<bool>) -> StoreModel {
        StoreModel { switch: s, ..self }
    }

    /// What a read of `k` sees: the buffer overlays the cache while writes
    /// are routed to the buffer.
    pub open spec fn read_of(self, k: Seq<char>) -> Option<RecordView> {
        if self.switch == Some(true) && self.buffer.contains_key(k) {
            Some(self.buffer[k])
        } else if self.cache.contains_key(k) {
            Some(self.cache[k])
        } else {
            None
        }
    }

    /// Durable tier into the cache; the buffer starts empty.
    pub open spec fn do_import(self) -> StoreModel {
        StoreModel { cache: self.db, buffer: Map::empty(), ..self }
    }

    /// Cache pushed to the durable tier wholesale.
    pub open spec fn do_export(self) -> StoreModel {
        StoreModel { db: self.cache, ..self }
    }

    /// The selected generation replaces the durable tier in its entirety; a
    /// flushed buffer is cleared.
    pub open spec fn do_flush(self, switch: bool) -> StoreModel {
        if switch {
            StoreModel { db: self.buffer, buffer: Map::empty(), ..self }
        } else {
            StoreModel { db: self.cache, ..self }
        }
    }

    /// All data gone, the switch kept.
    pub open spec fn do_data_clear(self) -> StoreModel {
        StoreModel {
            db: Map::empty(),
            cache: Map::empty(),
            buffer: Map::empty(),
            switch: self.switch,
        }
    }
}

/// One tiered table of records.
#[derive(Debug)]
pub struct KvTable {
    /// The durable generation.
    pub db: Vec<Entry>,
    /// The last fully committed working copy.
    pub cache: Vec<Entry>,
    /// The work-in-progress generation.
    pub buffer: Vec<Entry>,
    /// Where writes go.
    pub switch: Option<bool>,
}

impl View for KvTable {
    type V = StoreModel;

    open spec fn view(&self) -> StoreModel {
        StoreModel {
            db: entries_map(self.db@),
            cache: entries_map(self.cache@),
            buffer: entries_map(self.buffer@),
            switch: self.switch,
        }
    }
}

impl KvTable {
    /// Every tier holds each key at most once.
    pub open spec fn wf(&self) -> bool {
        keys_unique(self.db@) && keys_unique(self.cache@) && keys_unique(self.buffer@)
    }

    /// An empty table, writes routed to the cache.
    pub fn new() -> (r: KvTable)
        ensures
            r.wf(),
            r@ == StoreModel::empty_model(),
    {
        KvTable { db: Vec::new(), cache: Vec::new(), buffer: Vec::new(), switch: None }
    }

    /// Write `val` under `key` into the routed tier.
    pub fn insert(&mut self, key: &String, val: Record)
        requires
            old(self).wf(),
        ensures
            final(self).wf(),
            final(self)@ == old(self)@.do_insert(key@, val@),
    {
        let route_buffer = match self.switch {
            Some(b) => b,
            None => false,
        };
        if route_buffer {
            upsert(&mut self.buffer, key, val);
        } else {
            upsert(&mut self.cache, key, val);
        }
    }

    /// Remove `key` from the routed tier.
    pub fn remove(&mut self, key: &String)
        requires
            old(self).wf(),
        ensures
            final(self).wf(),
            final(self)@ == old(self)@.do_remove(key@),
    {
        let route_buffer = match self.switch {
            Some(b) => b,
            None => false,
        };
        if route_buffer {
            remove_key(&mut self.buffer, key);
        } else {
            remove_key(&mut self.cache, key);
        }
    }

    /// Read `key`: the buffer overlays the cache while writes are routed to
    /// the buffer.
    pub fn get(&self, key: &String) -> (r: Option<&Record>)
        requires
            self.wf(),
        ensures
            match r {
                Some(rec) => self@.read_of(key@) == Some(rec@),
                None => self@.read_of(key@) is None,
            },
    {
        let route_buffer = match self.switch {
            Some(b) => b,
            None => false,
        };
        if route_buffer {
            match find_idx(&self.buffer, key) {
                Some(i) => {
                    proof {
                        lemma_entries_map_index(self.buffer@, i as int);
                    }
                    return Some(&self.buffer[i].val);
                }
                None => {
                    proof {
                        lemma_entries_map_contains(self.buffer@, key@);
                    }
                }
            }
        }
        match find_idx(&self.cache, key) {
            Some(i) => {
                proof {
                    lemma_entries_map_index(self.cache@, i as int);
                }
                Some(&self.cache[i].val)
            }
            None => {
                proof {
                    lemma_entries_map_contains(self.cache@, key@);
                }
                None
            }
        }
    }

    /// Route writes: `Some(true)` to the buffer, `Some(false)` to the
    /// cache, `None` back to cache-only operation.
    pub fn switch_set(&mut self, s: Option<bool>)
        requires
            old(self).wf(),
        ensures
            final(self).wf(),
            final(self)@ == old(self)@.do_switch_set(s),
    {
        self.switch = s;
    }

    /// Load the durable generation into the cache; the buffer starts empty.
    pub fn import(&mut self)
        requires
            old(self).wf(),
        ensures
            final(self).wf(),
            final(self)@ == old(self)@.do_import(),
    {
        self.cache = copy_entries(&self.db);
        self.buffer = Vec::new();
    }

    /// Push the cache to the durable tier wholesale.
    pub fn export(&mut self)
        requires
            old(self).wf(),
        ensures
            final(self).wf(),
            final(self)@ == old(self)@.do_export(),
    {
        self.db = copy_entries(&self.cache);
    }

    /// Replace the durable tier with the selected generation in its
    /// entirety; a flushed buffer is cleared.
    pub fn flush(&mut self, switch: bool)
        requires
            old(self).wf(),
        ensures
            final(self).wf(),
            final(self)@ == old(self)@.do_flush(switch),
    {
        if switch {
            self.db = copy_entries(&self.buffer);
            self.buffer = Vec::new();
        } else {
            self.db = copy_entries(&self.cache);
        }
    }

    /// Drop all data in every tier; the switch is kept.
    pub fn data_clear(&mut self)
        requires
            old(self).wf(),
        ensures
            final(self).wf(),
            final(self)@ == old(self)@.do_data_clear(),
    {
        self.db = Vec::new();
        self.cache = Vec::new();
        self.buffer = Vec::new();
    }
}

/// One in-memory write against a table: what can happen between two
/// flushes.
pub enum StoreWrite {
    /// A record written under a key.
    Insert(Seq<char>, RecordView),
    /// A key removed.
    Remove(Seq<char>),
    /// Write routing changed.
    SwitchSet(Option<bool>),
}

/// The effect of one write on the ghost state.
pub open spec fn apply_write(m: StoreModel, w: StoreWrite) -> StoreModel {
    match w {
        StoreWrite::Insert(k, v) => m.do_insert(k, v),
        StoreWrite::Remove(k) => m.do_remove(k),
        StoreWrite::SwitchSet(s) => m.do_switch_set(s),
    }
}

/// The effect of a sequence of writes, first write first.
pub open spec fn apply_writes(m: StoreModel, ws: Seq<StoreWrite>) -> StoreModel
    decreases ws.len(),
{
    if ws.len() == 0 {
        m
    } else {
        apply_writes(apply_write(m, ws[0]), ws.drop_first())
    }
}

/// The state a table presents after an abrupt stop and a fresh import: only
/// the durable tier survives, and the cache is rebuilt from it.
pub open spec fn reopened(m: StoreModel) -> StoreModel {
    StoreModel {
        db: m.db,
        cache: m.db,
        buffer: Map::empty(),
        switch: None,
    }
}

/// Law: no sequence of in-memory writes touches the durable tier.  However
/// a run of inserts, removals and switch changes is interleaved, the
/// durable generation is exactly what the last flush left there.
pub proof fn lemma_durable_unchanged_by_writes(m: StoreModel, ws: Seq<StoreWrite>)
    ensures
        apply_writes(m, ws).db == m.db,
    decreases ws.len(),
{
    if ws.len() == 0 {
    } else {
        lemma_durable_unchanged_by_writes(apply_write(m, ws[0]), ws.drop_first());
    }
}

/// Law: crash atomicity, the stop-before-flush half.  A table that stops
/// abruptly after any sequence of in-memory writes reopens with exactly the
/// state the durable tier held before the sequence began — never a mix.
pub proof fn lemma_crash_reopen_before_flush(m: StoreModel, ws: Seq<StoreWrite>)
    ensures
        reopened(apply_writes(m, ws)).cache == m.db,
        reopened(apply_writes(m, ws)).db == m.db,
{
    lemma_durable_unchanged_by_writes(m, ws);
}

/// Law: a generation switch is honoured on reopen.  After the buffer
/// generation is flushed, a fresh recovery pass reads exactly the
/// just-flushed generation's data, not the prior durable one.
pub proof fn lemma_reopen_reads_flushed_generation(m: StoreModel, k: Seq<char>)
    ensures
        reopened(m.do_flush(true)).read_of(k) == (if m.buffer.contains_key(k) {
            Some(m.buffer[k])
        } else {
            None
        }),
{
}

/// Law: crash atomicity, the stop-after-flush half.  A table that flushes a
/// generation after any sequence of in-memory writes and then stops
/// abruptly reopens with exactly that generation in full.
pub proof fn lemma_crash_reopen_after_flush(m: StoreModel, ws: Seq<StoreWrite>, switch: bool)
    ensures
        reopened(apply_writes(m, ws).do_flush(switch)).cache == (if switch {
            apply_writes(m, ws).buffer
        } else {
            apply_writes(m, ws).cache
        }),
{
}

} // verus!
