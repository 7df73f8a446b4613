//! The history registry: every component that needs durability registers a
//! named table here once at start-up, and import, flush, switch and clear
//! then fan out to every registered table without exception.

use crate::records::Record;
use crate::store::{KvTable, StoreModel};
use vstd::prelude::*;

verus! {

/// One registered table and the name it was registered under.
#[derive(Debug)]
pub struct NamedTable {
    /// The registry key; changing it is a persisted-format change.
    pub name: String,
    /// The table itself.
    pub table: KvTable,
}

/// No two tables share a name.
pub open spec fn names_unique(s: Seq<NamedTable>) -> bool {
    forall|i: int, j: int| 0 <= i < j < s.len() ==> s[i].name@ != s[j].name@
}

/// Whether some table is registered under `n`.
pub open spec fn has_table_in(s: Seq<NamedTable>, n: Seq<char>) -> bool {
    exists|i: int| 0 <= i < s.len() && s[i].name@ == n
}

/// The index of the table registered under `n`.
pub open spec fn idx_of_in(s: Seq<NamedTable>, n: Seq<char>) -> int {
    choose|i: int| 0 <= i < s.len() && s[i].name@ == n
}

/// Same length and the same name at every index.
pub open spec fn same_names(a: Seq<NamedTable>, b: Seq<NamedTable>) -> bool {
    a.len() == b.len() && forall|i: int| 0 <= i < a.len() ==> a[i].name@ == b[i].name@
}

/// Between `h0` and `h1` exactly the table registered under `n` changed,
/// and it now has the ghost state `m`.
pub open spec fn updated_at(h0: ReliHistory, h1: ReliHistory, n: Seq<char>, m: StoreModel) -> bool {
    &&& h1.wf()
    &&& h1.switch == h0.switch
    &&& same_names(h1.tables@, h0.tables@)
    &&& forall|nn: Seq<char>| h0.has_table(nn) == h1.has_table(nn)
    &&& forall|nn: Seq<char>| h0.has_table(nn) ==> h1.idx_of(nn) == h0.idx_of(nn)
    &&& h1.table_at(n) == m
    &&& forall|i: int|
        0 <= i < h0.tables@.len() && i != h0.idx_of(n) ==> h1.tables@[i] == h0.tables@[i]
}

/// With the same names on both sides, the same tables exist, at the same
/// indices.
pub proof fn lemma_same_names_lookup(a: ReliHistory, b: ReliHistory)
    requires
        a.wf(),
        b.wf(),
        same_names(b.tables@, a.tables@),
    ensures
        forall|nn: Seq<char>| a.has_table(nn) == b.has_table(nn),
        forall|nn: Seq<char>| a.has_table(nn) ==> b.idx_of(nn) == a.idx_of(nn),
{
    assert forall|nn: Seq<char>| a.has_table(nn) == b.has_table(nn) by {
        if a.has_table(nn) {
            let i = choose|i: int| 0 <= i < a.tables@.len() && a.tables@[i].name@ == nn;
            assert(b.tables@[i].name@ == nn);
        }
        if b.has_table(nn) {
            let i = choose|i: int| 0 <= i < b.tables@.len() && b.tables@[i].name@ == nn;
            assert(a.tables@[i].name@ == nn);
        }
    }
    assert forall|nn: Seq<char>| a.has_table(nn) implies b.idx_of(nn) == a.idx_of(nn) by {
        let i = a.idx_of(nn);
        assert(0 <= i < a.tables@.len() && a.tables@[i].name@ == nn);
        assert(b.tables@[i].name@ == nn);
        let j = b.idx_of(nn);
        assert(0 <= j < b.tables@.len() && b.tables@[j].name@ == nn);
        if i != j {
            assert(false);
        }
    }
}

/// The registry of all durable tables, held by the reliability instance.
#[derive(Debug)]
pub struct ReliHistory {
    /// The registered tables, in registration order.
    pub tables: Vec<NamedTable>,
    /// The routing the registry last propagated.
    pub switch: Option<bool>,
}

impl ReliHistory {
    /// Every table is well formed and names are unique.
    pub open spec fn wf(&self) -> bool {
        names_unique(self.tables@) && forall|i: int|
            0 <= i < self.tables@.len() ==> (#[trigger] self.tables@[i]).table.wf()
    }

    /// Whether a table is registered under `n`.
    pub open spec fn has_table(&self, n: Seq<char>) -> bool {
        has_table_in(self.tables@, n)
    }

    /// The index of the table registered under `n`.
    pub open spec fn idx_of(&self, n: Seq<char>) -> int {
        idx_of_in(self.tables@, n)
    }

    /// The ghost state of the table registered under `n`.
    pub open spec fn table_at(&self, n: Seq<char>) -> StoreModel {
        self.tables@[self.idx_of(n)].table@
    }

    /// An empty registry.
    pub fn new() -> (r: ReliHistory)
        ensures
            r.wf(),
            r.tables@.len() == 0,
            r.switch is None,
    {
        ReliHistory { tables: Vec::new(), switch: None }
    }

    /// Register an empty table under `name`; a table already registered
    /// under that name is replaced by the fresh one.
    pub fn db_register(&mut self, name: &String)
        requires
            old(self).wf(),
        ensures
            final(self).wf(),
            final(self).switch == old(self).switch,
            final(self).has_table(name@),
            final(self).table_at(name@) == StoreModel::empty_model(),
            old(self).has_table(name@) ==> same_names(final(self).tables@, old(self).tables@),
            !old(self).has_table(name@) ==> final(self).tables@.len() == old(self).tables@.len()
                + 1,
            forall|i: int|
                0 <= i < old(self).tables@.len() && old(self).tables@[i].name@ != name@
                    ==> final(self).tables@[i] == old(self).tables@[i],
    {
        let fresh = KvTable::new();
        let mut i: usize = 0;
        let n = self.tables.len();
        while i < n
            invariant
                old(self).wf(),
                n == self.tables@.len(),
                *self == *old(self),
                fresh.wf(),
                fresh@ == StoreModel::empty_model(),
                i <= n,
                forall|j: int| 0 <= j < i ==> self.tables@[j].name@ != name@,
            decreases n - i,
        {
            if self.tables[i].name == *name {
                self.tables[i].table = fresh;
                proof {
                    assert(final(self).tables@[i as int].name@ == name@);
                    assert(final(self).idx_of(name@) == i as int);
                }
                return;
            }
            i = i + 1;
        }
        self.tables.push(NamedTable { name: name.clone(), table: fresh });
        proof {
            let t = self.tables@;
            assert(t[t.len() - 1].name@ == name@);
            assert(self.idx_of(name@) == t.len() - 1);
            assert forall|p: int, q: int| 0 <= p < q < t.len() implies t[p].name@ != t[q].name@ by {
                if q < t.len() - 1 {
                    assert(old(self).tables@[p].name@ != old(self).tables@[q].name@);
                } else {
                    assert(t[p].name@ != name@);
                }
            }
        }
    }

    /// The logical commit barrier: a no-op success marker.
    pub fn commit(&self)
    {
    }

    /// Flush every registered table: the selected generation becomes each
    /// table's durable tier, in its entirety.
    pub fn flush(&mut self, switch: bool)
        requires
            old(self).wf(),
        ensures
            final(self).wf(),
            final(self).switch == old(self).switch,
            same_names(final(self).tables@, old(self).tables@),
            forall|i: int|
                0 <= i < old(self).tables@.len() ==> final(self).tables@[i].table@ == old(
                    self,
                ).tables@[i].table@.do_flush(switch),
    {
        let mut i: usize = 0;
        let n = self.tables.len();
        while i < n
            invariant
                old(self).wf(),
                n == self.tables@.len(),
                self.tables@.len() == old(self).tables@.len(),
                self.switch == old(self).switch,
                i <= n,
                forall|j: int| i <= j < n ==> self.tables@[j] == old(self).tables@[j],
                forall|j: int|
                    0 <= j < i ==> self.tables@[j].name@ == old(self).tables@[j].name@
                        && self.tables@[j].table.wf() && self.tables@[j].table@ == old(
                        self,
                    ).tables@[j].table@.do_flush(switch),
            decreases n - i,
        {
            self.tables[i].table.flush(switch);
            i = i + 1;
        }
    }

    /// Import every registered table's durable generation into its cache.
    pub fn import(&mut self)
        requires
            old(self).wf(),
        ensures
            final(self).wf(),
            final(self).switch == old(self).switch,
            same_names(final(self).tables@, old(self).tables@),
            forall|i: int|
                0 <= i < old(self).tables@.len() ==> final(self).tables@[i].table@ == old(
                    self,
                ).tables@[i].table@.do_import(),
    {
        let mut i: usize = 0;
        let n = self.tables.len();
        while i < n
            invariant
                old(self).wf(),
                n == self.tables@.len(),
                self.tables@.len() == old(self).tables@.len(),
                self.switch == old(self).switch,
                i <= n,
                forall|j: int| i <= j < n ==> self.tables@[j] == old(self).tables@[j],
                forall|j: int|
                    0 <= j < i ==> self.tables@[j].name@ == old(self).tables@[j].name@
                        && self.tables@[j].table.wf() && self.tables@[j].table@ == old(
                        self,
                    ).tables@[j].table@.do_import(),
            decreases n - i,
        {
            self.tables[i].table.import();
            i = i + 1;
        }
    }

    /// Propagate write routing to every registered table and remember it.
    pub fn switch_set(&mut self, s: Option<bool>)
        requires
            old(self).wf(),
        ensures
            final(self).wf(),
            final(self).switch == s,
            same_names(final(self).tables@, old(self).tables@),
            forall|i: int|
                0 <= i < old(self).tables@.len() ==> final(self).tables@[i].table@ == old(
                    self,
                ).tables@[i].table@.do_switch_set(s),
    {
        self.switch = s;
        let mut i: usize = 0;
        let n = self.tables.len();
        while i < n
            invariant
                old(self).wf(),
                n == self.tables@.len(),
                self.tables@.len() == old(self).tables@.len(),
                self.switch == s,
                i <= n,
                forall|j: int| i <= j < n ==> self.tables@[j] == old(self).tables@[j],
                forall|j: int|
                    0 <= j < i ==> self.tables@[j].name@ == old(self).tables@[j].name@
                        && self.tables@[j].table.wf() && self.tables@[j].table@ == old(
                        self,
                    ).tables@[j].table@.do_switch_set(s),
            decreases n - i,
        {
            self.tables[i].table.switch_set(s);
            i = i + 1;
        }
    }

    /// Drop the data of every registered table; the registry itself stays.
    pub fn data_clear(&mut self)
        requires
            old(self).wf(),
        ensures
            final(self).wf(),
            final(self).switch == old(self).switch,
            same_names(final(self).tables@, old(self).tables@),
            forall|i: int|
                0 <= i < old(self).tables@.len() ==> final(self).tables@[i].table@ == old(
                    self,
                ).tables@[i].table@.do_data_clear(),
    {
        let mut i: usize = 0;
        let n = self.tables.len();
        while i < n
            invariant
                old(self).wf(),
                n == self.tables@.len(),
                self.tables@.len() == old(self).tables@.len(),
                self.switch == old(self).switch,
                i <= n,
                forall|j: int| i <= j < n ==> self.tables@[j] == old(self).tables@[j],
                forall|j: int|
                    0 <= j < i ==> self.tables@[j].name@ == old(self).tables@[j].name@
                        && self.tables@[j].table.wf() && self.tables@[j].table@ == old(
                        self,
                    ).tables@[j].table@.do_data_clear(),
            decreases n - i,
        {
            self.tables[i].table.data_clear();
            i = i + 1;
        }
    }

    /// Drop every registration: the repeating-protection clear.
    pub fn clear(&mut self)
        ensures
            final(self).wf(),
            final(self).tables@.len() == 0,
            final(self).switch == old(self).switch,
    {
        self.tables = Vec::new();
    }

    /// The routing the registry last propagated.
    pub fn switch(&self) -> (r: Option<bool>)
        ensures
            r == self.switch,
    {
        self.switch
    }

    /// Whether a table is registered under `name`.
    pub fn has_table_exec(&self, name: &String) -> (r: bool)
        ensures
            r == self.has_table(name@),
    {
        let mut i: usize = 0;
        let n = self.tables.len();
        while i < n
            invariant
                n == self.tables@.len(),
                i <= n,
                forall|j: int| 0 <= j < i ==> self.tables@[j].name@ != name@,
            decreases n - i,
        {
            if self.tables[i].name == *name {
                proof {
                    assert(self.tables@[i as int].name@ == name@);
                }
                return true;
            }
            i = i + 1;
        }
        false
    }

    /// Write `val` under `key` into the table registered under `name`; a
    /// write against an unregistered name is dropped.
    pub fn table_insert(&mut self, name: &String, key: &String, val: Record)
        requires
            old(self).wf(),
        ensures
            final(self).wf(),
            old(self).has_table(name@) ==> updated_at(
                *old(self),
                *final(self),
                name@,
                old(self).table_at(name@).do_insert(key@, val@),
            ),
            !old(self).has_table(name@) ==> *final(self) == *old(self),
    {
        let mut i: usize = 0;
        let n = self.tables.len();
        while i < n
            invariant
                old(self).wf(),
                n == self.tables@.len(),
                *self == *old(self),
                i <= n,
                forall|j: int| 0 <= j < i ==> self.tables@[j].name@ != name@,
            decreases n - i,
        {
            if self.tables[i].name == *name {
                proof {
                    assert(old(self).tables@[i as int].name@ == name@);
                    assert(old(self).idx_of(name@) == i as int);
                }
                self.tables[i].table.insert(key, val);
                proof {
                    assert(final(self).idx_of(name@) == i as int);
                    lemma_same_names_lookup(*old(self), *final(self));
                }
                return;
            }
            i = i + 1;
        }
    }

    /// Remove `key` from the table registered under `name`; a removal
    /// against an unregistered name is dropped.
    pub fn table_remove(&mut self, name: &String, key: &String)
        requires
            old(self).wf(),
        ensures
            final(self).wf(),
            old(self).has_table(name@) ==> updated_at(
                *old(self),
                *final(self),
                name@,
                old(self).table_at(name@).do_remove(key@),
            ),
            !old(self).has_table(name@) ==> *final(self) == *old(self),
    {
        let mut i: usize = 0;
        let n = self.tables.len();
        while i < n
            invariant
                old(self).wf(),
                n == self.tables@.len(),
                *self == *old(self),
                i <= n,
                forall|j: int| 0 <= j < i ==> self.tables@[j].name@ != name@,
            decreases n - i,
        {
            if self.tables[i].name == *name {
                proof {
                    assert(old(self).tables@[i as int].name@ == name@);
                    assert(old(self).idx_of(name@) == i as int);
                }
                self.tables[i].table.remove(key);
                proof {
                    assert(final(self).idx_of(name@) == i as int);
                    lemma_same_names_lookup(*old(self), *final(self));
                }
                return;
            }
            i = i + 1;
        }
    }

    /// Push the cache of the table registered under `name` to its durable
    /// tier, wholesale; an export against an unregistered name does
    /// nothing.
    pub fn table_export(&mut self, name: &String)
        requires
            old(self).wf(),
        ensures
            final(self).wf(),
            old(self).has_table(name@) ==> updated_at(
                *old(self),
                *final(self),
                name@,
                old(self).table_at(name@).do_export(),
            ),
            !old(self).has_table(name@) ==> *final(self) == *old(self),
    {
        let mut i: usize = 0;
        let n = self.tables.len();
        while i < n
            invariant
                old(self).wf(),
                n == self.tables@.len(),
                *self == *old(self),
                i <= n,
                forall|j: int| 0 <= j < i ==> self.tables@[j].name@ != name@,
            decreases n - i,
        {
            if self.tables[i].name == *name {
                proof {
                    assert(old(self).tables@[i as int].name@ == name@);
                    assert(old(self).idx_of(name@) == i as int);
                }
                self.tables[i].table.export();
                proof {
                    assert(final(self).idx_of(name@) == i as int);
                    lemma_same_names_lookup(*old(self), *final(self));
                }
                return;
            }
            i = i + 1;
        }
    }

    /// Read `key` from the table registered under `name`; an unregistered
    /// name reads as nothing.
    pub fn table_get(&self, name: &String, key: &String) -> (r: Option<&Record>)
        requires
            self.wf(),
        ensures
            self.has_table(name@) ==> (match r {
                Some(rec) => self.table_at(name@).read_of(key@) == Some(rec@),
                None => self.table_at(name@).read_of(key@) is None,
            }),
            !self.has_table(name@) ==> r is None,
    {
        let mut i: usize = 0;
        let n = self.tables.len();
        while i < n
            invariant
                self.wf(),
                n == self.tables@.len(),
                i <= n,
                forall|j: int| 0 <= j < i ==> self.tables@[j].name@ != name@,
            decreases n - i,
        {
            if self.tables[i].name == *name {
                proof {
                    assert(self.tables@[i as int].name@ == name@);
                    assert(self.idx_of(name@) == i as int);
                }
                return self.tables[i].table.get(key);
            }
            i = i + 1;
        }
        None
    }
}

} // verus!
