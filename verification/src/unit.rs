//! The generic per-unit layer: each unit's base identity, load state and
//! queue membership, their persisted records, and the collection of units
//! as one recovery station.
//!
//! Queue membership is tracked twice: as a flag in memory and as a bit in
//! the persisted pending-process-state mask, so that a crash during queue
//! processing leads to re-enqueueing on recovery instead of the work being
//! silently dropped.

use crate::history::{updated_at, ReliHistory};
use crate::limit::StartLimit;
use crate::records::{Record, RecordView, UeConfigInstall, UeConfigUnit, UnitLoadState, UnitType};
use crate::reli::Reliability;
use crate::station::ReStation;
use crate::store::StoreModel;
use crate::strutil::{ends_with, spec_ends_with};
use vstd::prelude::*;

verus! {

/// The unit is in the load queue, waiting for configuration parsing.
pub const PPS_QUEUE_LOAD: u32 = 1;

/// The unit is in the target-dependency queue, waiting for default
/// dependencies.
pub const PPS_QUEUE_TARGET_DEPS: u32 = 2;

/// The dependency relations the unit section can declare.
#[derive(Clone, Copy, Debug, PartialEq, Eq, Structural)]
pub enum UnitRelations {
    /// Wanted units.
    UnitWants,
    /// Ordered-after units.
    UnitAfter,
    /// Ordered-before units.
    UnitBefore,
    /// Required units.
    UnitRequires,
    /// Bound-to units.
    UnitBindsTo,
    /// Requisite units.
    UnitRequisite,
    /// Units triggered on failure.
    UnitOnFailure,
    /// Units triggered on success.
    UnitOnSuccess,
    /// Part-of units.
    UnitPartOf,
    /// Conflicting units.
    UnitConflicts,
}

/// One relation together with the units it names.
#[derive(Debug)]
pub struct DepEntry {
    /// The relation.
    pub relation: UnitRelations,
    /// The units the configuration names under it.
    pub units: Vec<String>,
}

/// The name of the base-identity table.
pub open spec fn unit_base_table() -> Seq<char> {
    "unit-base"@
}

/// The name of the load-state table.
pub open spec fn unit_load_table() -> Seq<char> {
    "unit-load"@
}

/// The name of the configuration-snapshot table.
pub open spec fn unit_conf_table() -> Seq<char> {
    "unit-conf"@
}

/// The name of the cgroup-path table.
pub open spec fn unit_cgroup_table() -> Seq<char> {
    "unit-cgroup"@
}

/// The name of the child-pid table.
pub open spec fn unit_child_table() -> Seq<char> {
    "unit-child"@
}

/// The name of the pending-process-state table.
pub open spec fn unit_pps_table() -> Seq<char> {
    "unit-pps"@
}

fn base_tname() -> (r: String)
    ensures
        r@ == unit_base_table(),
{
    "unit-base".to_owned()
}

fn load_tname() -> (r: String)
    ensures
        r@ == unit_load_table(),
{
    "unit-load".to_owned()
}

fn conf_tname() -> (r: String)
    ensures
        r@ == unit_conf_table(),
{
    "unit-conf".to_owned()
}

fn cgroup_tname() -> (r: String)
    ensures
        r@ == unit_cgroup_table(),
{
    "unit-cgroup".to_owned()
}

fn child_tname() -> (r: String)
    ensures
        r@ == unit_child_table(),
{
    "unit-child".to_owned()
}

fn pps_tname() -> (r: String)
    ensures
        r@ == unit_pps_table(),
{
    "unit-pps".to_owned()
}

/// The three tables a unit writes at insert time are distinct namespaces.
pub proof fn lemma_unit_tables_distinct()
    ensures
        unit_base_table() != unit_load_table(),
        unit_base_table() != unit_pps_table(),
        unit_load_table() != unit_pps_table(),
{
    reveal_strlit("unit-base");
    reveal_strlit("unit-load");
    reveal_strlit("unit-pps");
    assert("unit-base"@.len() == 9);
    assert("unit-load"@.len() == 9);
    assert("unit-pps"@.len() == 8);
    assert("unit-base"@[5] == 'b');
    assert("unit-load"@[5] == 'l');
    assert("unit-base"@ != "unit-load"@);
    assert("unit-base"@ != "unit-pps"@);
    assert("unit-load"@ != "unit-pps"@);
}

/// The pending-process-state mask a table holds for a unit; absent records
/// read as no pending work.
pub open spec fn pps_of(m: StoreModel, id: Seq<char>) -> u32 {
    match m.read_of(id) {
        Some(RecordView::Pps(v)) => v,
        _ => 0,
    }
}

/// The load state a table holds for a unit, if any.
pub open spec fn load_rec_of(m: StoreModel, id: Seq<char>) -> Option<UnitLoadState> {
    match m.read_of(id) {
        Some(RecordView::Load(s)) => Some(s),
        _ => None,
    }
}

/// The facade over the per-unit tables.
#[derive(Debug)]
pub struct UnitRe {
}

impl UnitRe {
    /// All six per-unit tables are registered in the history.
    pub open spec fn registered(h: ReliHistory) -> bool {
        &&& h.has_table(unit_base_table())
        &&& h.has_table(unit_load_table())
        &&& h.has_table(unit_conf_table())
        &&& h.has_table(unit_cgroup_table())
        &&& h.has_table(unit_child_table())
        &&& h.has_table(unit_pps_table())
    }

    /// Register the per-unit tables with the coordinator, once at start-up.
    pub fn new(reli: &mut Reliability) -> (r: UnitRe)
        requires
            old(reli).history.wf(),
        ensures
            final(reli).history.wf(),
            UnitRe::registered(final(reli).history),
            final(reli).enable == old(reli).enable,
            final(reli).last_unit == old(reli).last_unit,
            final(reli).last_frame == old(reli).last_frame,
            final(reli).station == old(reli).station,
            forall|n: Seq<char>|
                old(reli).history.has_table(n) ==> final(reli).history.has_table(n),
    {
        reli.history_db_register(&base_tname());
        reli.history_db_register(&load_tname());
        reli.history_db_register(&conf_tname());
        reli.history_db_register(&cgroup_tname());
        reli.history_db_register(&child_tname());
        reli.history_db_register(&pps_tname());
        UnitRe {  }
    }

    /// Write a unit's base record.
    pub fn base_insert(&self, h: &mut ReliHistory, unit_id: &String, unit_type: UnitType)
        requires
            old(h).wf(),
        ensures
            final(h).wf(),
            old(h).has_table(unit_base_table()) ==> updated_at(
                *old(h),
                *final(h),
                unit_base_table(),
                old(h).table_at(unit_base_table()).do_insert(unit_id@, RecordView::Base(unit_type)),
            ),
            !old(h).has_table(unit_base_table()) ==> *final(h) == *old(h),
    {
        h.table_insert(&base_tname(), unit_id, Record::Base(unit_type));
    }

    /// Read a unit's base record.
    pub fn base_get(&self, h: &ReliHistory, unit_id: &String) -> (r: Option<UnitType>)
        requires
            h.wf(),
        ensures
            r == (if h.has_table(unit_base_table()) {
                match h.table_at(unit_base_table()).read_of(unit_id@) {
                    Some(RecordView::Base(t)) => Some(t),
                    _ => None,
                }
            } else {
                None
            }),
    {
        match h.table_get(&base_tname(), unit_id) {
            Some(Record::Base(t)) => Some(*t),
            _ => None,
        }
    }

    /// Write a unit's load-state record.
    pub fn load_insert(&self, h: &mut ReliHistory, unit_id: &String, state: UnitLoadState)
        requires
            old(h).wf(),
        ensures
            final(h).wf(),
            old(h).has_table(unit_load_table()) ==> updated_at(
                *old(h),
                *final(h),
                unit_load_table(),
                old(h).table_at(unit_load_table()).do_insert(unit_id@, RecordView::Load(state)),
            ),
            !old(h).has_table(unit_load_table()) ==> *final(h) == *old(h),
    {
        h.table_insert(&load_tname(), unit_id, Record::Load(state));
    }

    /// Read a unit's load-state record.
    pub fn load_get(&self, h: &ReliHistory, unit_id: &String) -> (r: Option<UnitLoadState>)
        requires
            h.wf(),
        ensures
            r == (if h.has_table(unit_load_table()) {
                load_rec_of(h.table_at(unit_load_table()), unit_id@)
            } else {
                None
            }),
    {
        match h.table_get(&load_tname(), unit_id) {
            Some(Record::Load(s)) => Some(*s),
            _ => None,
        }
    }

    /// Write a unit's configuration snapshot.
    pub fn conf_insert(
        &self,
        h: &mut ReliHistory,
        unit_id: &String,
        unit: &UeConfigUnit,
        install: &UeConfigInstall,
    )
        requires
            old(h).wf(),
        ensures
            final(h).wf(),
            old(h).has_table(unit_conf_table()) ==> updated_at(
                *old(h),
                *final(h),
                unit_conf_table(),
                old(h).table_at(unit_conf_table()).do_insert(
                    unit_id@,
                    RecordView::Conf(unit@, install@),
                ),
            ),
            !old(h).has_table(unit_conf_table()) ==> *final(h) == *old(h),
    {
        h.table_insert(&conf_tname(), unit_id, Record::Conf(unit.clone(), install.clone()));
    }

    /// Read a unit's configuration snapshot.
    pub fn conf_get(&self, h: &ReliHistory, unit_id: &String) -> (r: Option<
        (UeConfigUnit, UeConfigInstall),
    >)
        requires
            h.wf(),
        ensures
            h.has_table(unit_conf_table()) ==> (match h.table_at(unit_conf_table()).read_of(
                unit_id@,
            ) {
                Some(RecordView::Conf(u, i)) => r matches Some(p) && p.0@ == u && p.1@ == i,
                _ => r is None,
            }),
            !h.has_table(unit_conf_table()) ==> r is None,
    {
        match h.table_get(&conf_tname(), unit_id) {
            Some(Record::Conf(u, i)) => Some((u.clone(), i.clone())),
            _ => None,
        }
    }

    /// Write a unit's cgroup path.
    pub fn cgroup_insert(&self, h: &mut ReliHistory, unit_id: &String, cg_path: &str)
        requires
            old(h).wf(),
        ensures
            final(h).wf(),
            old(h).has_table(unit_cgroup_table()) ==> updated_at(
                *old(h),
                *final(h),
                unit_cgroup_table(),
                old(h).table_at(unit_cgroup_table()).do_insert(
                    unit_id@,
                    RecordView::Cgroup(cg_path@),
                ),
            ),
            !old(h).has_table(unit_cgroup_table()) ==> *final(h) == *old(h),
    {
        h.table_insert(&cgroup_tname(), unit_id, Record::Cgroup(cg_path.to_owned()));
    }

    /// Read a unit's cgroup path.
    pub fn cgroup_get(&self, h: &ReliHistory, unit_id: &String) -> (r: Option<String>)
        requires
            h.wf(),
        ensures
            h.has_table(unit_cgroup_table()) ==> (match h.table_at(unit_cgroup_table()).read_of(
                unit_id@,
            ) {
                Some(RecordView::Cgroup(p)) => r matches Some(s) && s@ == p,
                _ => r is None,
            }),
            !h.has_table(unit_cgroup_table()) ==> r is None,
    {
        match h.table_get(&cgroup_tname(), unit_id) {
            Some(Record::Cgroup(p)) => Some(p.clone()),
            _ => None,
        }
    }

    /// Write the set of pids a unit owns.
    pub fn child_insert(&self, h: &mut ReliHistory, unit_id: &String, pids: &Vec<i32>)
        requires
            old(h).wf(),
        ensures
            final(h).wf(),
            old(h).has_table(unit_child_table()) ==> updated_at(
                *old(h),
                *final(h),
                unit_child_table(),
                old(h).table_at(unit_child_table()).do_insert(unit_id@, RecordView::Child(pids@)),
            ),
            !old(h).has_table(unit_child_table()) ==> *final(h) == *old(h),
    {
        let mut copy: Vec<i32> = Vec::new();
        let mut i: usize = 0;
        while i < pids.len()
            invariant
                i <= pids.len(),
                copy@ =~= pids@.subrange(0, i as int),
            decreases pids.len() - i,
        {
            copy.push(pids[i]);
            i = i + 1;
        }
        proof {
            assert(copy@ =~= pids@);
        }
        h.table_insert(&child_tname(), unit_id, Record::Child(copy));
    }

    /// Read the set of pids a unit owns; an absent record reads as none.
    pub fn child_get(&self, h: &ReliHistory, unit_id: &String) -> (r: Vec<i32>)
        requires
            h.wf(),
        ensures
            r@ == (if h.has_table(unit_child_table()) {
                match h.table_at(unit_child_table()).read_of(unit_id@) {
                    Some(RecordView::Child(p)) => p,
                    _ => Seq::<i32>::empty(),
                }
            } else {
                Seq::<i32>::empty()
            }),
    {
        match h.table_get(&child_tname(), unit_id) {
            Some(Record::Child(p)) => {
                let mut copy: Vec<i32> = Vec::new();
                let mut i: usize = 0;
                while i < p.len()
                    invariant
                        i <= p.len(),
                        copy@ =~= p@.subrange(0, i as int),
                    decreases p.len() - i,
                {
                    copy.push(p[i]);
                    i = i + 1;
                }
                proof {
                    assert(copy@ =~= p@);
                }
                copy
            }
            _ => Vec::new(),
        }
    }

    /// The pending-process-state mask of a unit; absent reads as zero.
    pub fn pps_get(&self, h: &ReliHistory, unit_id: &String) -> (r: u32)
        requires
            h.wf(),
        ensures
            r == (if h.has_table(unit_pps_table()) {
                pps_of(h.table_at(unit_pps_table()), unit_id@)
            } else {
                0u32
            }),
    {
        match h.table_get(&pps_tname(), unit_id) {
            Some(Record::Pps(v)) => *v,
            _ => 0,
        }
    }

    /// Create a unit's pending-process-state record with no pending work.
    pub fn pps_insert(&self, h: &mut ReliHistory, unit_id: &String)
        requires
            old(h).wf(),
        ensures
            final(h).wf(),
            old(h).has_table(unit_pps_table()) ==> updated_at(
                *old(h),
                *final(h),
                unit_pps_table(),
                old(h).table_at(unit_pps_table()).do_insert(unit_id@, RecordView::Pps(0)),
            ),
            !old(h).has_table(unit_pps_table()) ==> *final(h) == *old(h),
    {
        h.table_insert(&pps_tname(), unit_id, Record::Pps(0));
    }

    /// Raise bits in a unit's pending-process-state mask.
    pub fn pps_set(&self, h: &mut ReliHistory, unit_id: &String, mask: u32)
        requires
            old(h).wf(),
        ensures
            final(h).wf(),
            old(h).has_table(unit_pps_table()) ==> updated_at(
                *old(h),
                *final(h),
                unit_pps_table(),
                old(h).table_at(unit_pps_table()).do_insert(
                    unit_id@,
                    RecordView::Pps(pps_of(old(h).table_at(unit_pps_table()), unit_id@) | mask),
                ),
            ),
            !old(h).has_table(unit_pps_table()) ==> *final(h) == *old(h),
    {
        let cur = self.pps_get(h, unit_id);
        h.table_insert(&pps_tname(), unit_id, Record::Pps(cur | mask));
    }

    /// Clear bits in a unit's pending-process-state mask.
    pub fn pps_clear(&self, h: &mut ReliHistory, unit_id: &String, mask: u32)
        requires
            old(h).wf(),
        ensures
            final(h).wf(),
            old(h).has_table(unit_pps_table()) ==> updated_at(
                *old(h),
                *final(h),
                unit_pps_table(),
                old(h).table_at(unit_pps_table()).do_insert(
                    unit_id@,
                    RecordView::Pps(pps_of(old(h).table_at(unit_pps_table()), unit_id@) & !mask),
                ),
            ),
            !old(h).has_table(unit_pps_table()) ==> *final(h) == *old(h),
    {
        let cur = self.pps_get(h, unit_id);
        h.table_insert(&pps_tname(), unit_id, Record::Pps(cur & !mask));
    }

    /// Whether all bits of `mask` are pending for the unit.
    pub fn pps_contains(&self, h: &ReliHistory, unit_id: &String, mask: u32) -> (r: bool)
        requires
            h.wf(),
        ensures
            h.has_table(unit_pps_table()) ==> r == (pps_of(
                h.table_at(unit_pps_table()),
                unit_id@,
            ) & mask == mask),
            !h.has_table(unit_pps_table()) ==> r == (0u32 & mask == mask),
    {
        let cur = self.pps_get(h, unit_id);
        cur & mask == mask
    }
}

/// The base identity of one unit: its id and type, fixed at first attach.
#[derive(Debug)]
pub struct UeBase {
    /// The unit id.
    pub id: String,
    /// The unit's type tag.
    pub unit_type: UnitType,
}

impl UeBase {
    /// Attach a fresh base: its identity is persisted exactly once, here.
    pub fn new(re: &UnitRe, h: &mut ReliHistory, id: String, unit_type: UnitType) -> (r: UeBase)
        requires
            old(h).wf(),
        ensures
            final(h).wf(),
            r.id@ == id@,
            r.unit_type == unit_type,
            crate::history::same_names(final(h).tables@, old(h).tables@),
            forall|nn: Seq<char>| old(h).has_table(nn) == final(h).has_table(nn),
            forall|nn: Seq<char>| old(h).has_table(nn) ==> final(h).idx_of(nn) == old(h).idx_of(nn),
            forall|i: int|
                0 <= i < old(h).tables@.len() && i != old(h).idx_of(unit_base_table()) && i != old(
                    h,
                ).idx_of(unit_pps_table()) ==> final(h).tables@[i] == old(h).tables@[i],
            old(h).has_table(unit_base_table()) && old(h).has_table(unit_pps_table()) ==> ({
                &&& final(h).table_at(unit_base_table()).read_of(id@) == Some(
                    RecordView::Base(unit_type),
                )
                &&& final(h).table_at(unit_pps_table()).read_of(id@) == Some(RecordView::Pps(0))
            }),
    {
        let base = UeBase { id, unit_type };
        base.db_insert(re, h);
        base
    }

    /// The unit id.
    pub fn id(&self) -> (r: &String)
        ensures
            r@ == self.id@,
    {
        &self.id
    }

    /// The unit's type tag.
    pub fn unit_type(&self) -> (r: UnitType)
        ensures
            r == self.unit_type,
    {
        self.unit_type
    }

    /// Check the persisted base record against this identity; the record
    /// is immutable across reloads, so a reload maps nothing.
    pub fn db_map(&self, re: &UnitRe, h: &ReliHistory, reload: bool)
        requires
            h.wf(),
            !reload ==> h.has_table(unit_base_table()) && (match h.table_at(
                unit_base_table(),
            ).read_of(self.id@) {
                Some(RecordView::Base(t)) => t == self.unit_type,
                _ => false,
            }),
    {
        if reload {
            return ;
        }
        let _got = re.base_get(h, &self.id);
    }

    /// Persist the base identity and an empty pending mask: afterwards the
    /// base record carries this unit's type and the pending mask is clear.
    pub fn db_insert(&self, re: &UnitRe, h: &mut ReliHistory)
        requires
            old(h).wf(),
        ensures
            final(h).wf(),
            crate::history::same_names(final(h).tables@, old(h).tables@),
            forall|nn: Seq<char>| old(h).has_table(nn) == final(h).has_table(nn),
            forall|nn: Seq<char>| old(h).has_table(nn) ==> final(h).idx_of(nn) == old(h).idx_of(nn),
            forall|i: int|
                0 <= i < old(h).tables@.len() && i != old(h).idx_of(unit_base_table()) && i != old(
                    h,
                ).idx_of(unit_pps_table()) ==> final(h).tables@[i] == old(h).tables@[i],
            old(h).has_table(unit_base_table()) && old(h).has_table(unit_pps_table()) ==> ({
                &&& final(h).table_at(unit_base_table()).read_of(self.id@) == Some(
                    RecordView::Base(self.unit_type),
                )
                &&& final(h).table_at(unit_pps_table()).read_of(self.id@) == Some(
                    RecordView::Pps(0),
                )
            }),
    {
        re.base_insert(h, &self.id, self.unit_type);
        let ghost h1 = *h;
        re.pps_insert(h, &self.id);
        proof {
            reveal_strlit("unit-base");
            reveal_strlit("unit-pps");
            assert("unit-base"@.len() == 9);
            assert("unit-pps"@.len() == 8);
            assert("unit-base"@ != "unit-pps"@);
            assert(unit_base_table() == "unit-base"@);
            assert(unit_pps_table() == "unit-pps"@);
            if old(h).has_table(unit_base_table()) && old(h).has_table(unit_pps_table()) {
                let bi = h1.idx_of(unit_base_table());
                let pi = h1.idx_of(unit_pps_table());
                assert(h1.tables@[bi].name@ == unit_base_table());
                assert(h1.tables@[pi].name@ == unit_pps_table());
                assert(bi != pi);
                assert(h.tables@[bi] == h1.tables@[bi]);
                assert(h.idx_of(unit_base_table()) == bi);
                assert(h.table_at(unit_base_table()) == h1.table_at(unit_base_table()));
            }
        }
    }

    /// Persist this unit's load state.
    pub fn rentry_load_insert(&self, re: &UnitRe, h: &mut ReliHistory, load_state: UnitLoadState)
        requires
            old(h).wf(),
        ensures
            final(h).wf(),
            old(h).has_table(unit_load_table()) ==> updated_at(
                *old(h),
                *final(h),
                unit_load_table(),
                old(h).table_at(unit_load_table()).do_insert(
                    self.id@,
                    RecordView::Load(load_state),
                ),
            ),
            !old(h).has_table(unit_load_table()) ==> *final(h) == *old(h),
    {
        re.load_insert(h, &self.id, load_state);
    }

    /// This unit's persisted load state.
    pub fn rentry_load_get(&self, re: &UnitRe, h: &ReliHistory) -> (r: Option<UnitLoadState>)
        requires
            h.wf(),
        ensures
            r == (if h.has_table(unit_load_table()) {
                load_rec_of(h.table_at(unit_load_table()), self.id@)
            } else {
                None
            }),
    {
        re.load_get(h, &self.id)
    }

    /// Persist this unit's configuration snapshot.
    pub fn rentry_conf_insert(
        &self,
        re: &UnitRe,
        h: &mut ReliHistory,
        unit: &UeConfigUnit,
        install: &UeConfigInstall,
    )
        requires
            old(h).wf(),
        ensures
            final(h).wf(),
    {
        re.conf_insert(h, &self.id, unit, install);
    }

    /// This unit's persisted configuration snapshot.
    pub fn rentry_conf_get(&self, re: &UnitRe, h: &ReliHistory) -> (r: Option<
        (UeConfigUnit, UeConfigInstall),
    >)
        requires
            h.wf(),
        ensures
            h.has_table(unit_conf_table()) ==> (match h.table_at(unit_conf_table()).read_of(
                self.id@,
            ) {
                Some(RecordView::Conf(u, i)) => r matches Some(p) && p.0@ == u && p.1@ == i,
                _ => r is None,
            }),
            !h.has_table(unit_conf_table()) ==> r is None,
    {
        re.conf_get(h, &self.id)
    }

    /// Persist this unit's cgroup path.
    pub fn rentry_cgroup_insert(&self, re: &UnitRe, h: &mut ReliHistory, cg_path: &str)
        requires
            old(h).wf(),
        ensures
            final(h).wf(),
    {
        re.cgroup_insert(h, &self.id, cg_path);
    }

    /// This unit's persisted cgroup path.
    pub fn rentry_cgroup_get(&self, re: &UnitRe, h: &ReliHistory) -> (r: Option<String>)
        requires
            h.wf(),
        ensures
            h.has_table(unit_cgroup_table()) ==> (match h.table_at(unit_cgroup_table()).read_of(
                self.id@,
            ) {
                Some(RecordView::Cgroup(p)) => r matches Some(s) && s@ == p,
                _ => r is None,
            }),
            !h.has_table(unit_cgroup_table()) ==> r is None,
    {
        re.cgroup_get(h, &self.id)
    }

    /// Persist the pids this unit owns.
    pub fn rentry_child_insert(&self, re: &UnitRe, h: &mut ReliHistory, pids: &Vec<i32>)
        requires
            old(h).wf(),
        ensures
            final(h).wf(),
    {
        re.child_insert(h, &self.id, pids);
    }

    /// The pids this unit owns; an absent record reads as none.
    pub fn rentry_child_get(&self, re: &UnitRe, h: &ReliHistory) -> (r: Vec<i32>)
        requires
            h.wf(),
        ensures
            r@ == (if h.has_table(unit_child_table()) {
                match h.table_at(unit_child_table()).read_of(self.id@) {
                    Some(RecordView::Child(p)) => p,
                    _ => Seq::<i32>::empty(),
                }
            } else {
                Seq::<i32>::empty()
            }),
    {
        re.child_get(h, &self.id)
    }

    /// Raise bits in this unit's pending mask.
    pub fn rentry_pps_set(&self, re: &UnitRe, h: &mut ReliHistory, pps_mask: u32)
        requires
            old(h).wf(),
        ensures
            final(h).wf(),
            old(h).has_table(unit_pps_table()) ==> updated_at(
                *old(h),
                *final(h),
                unit_pps_table(),
                old(h).table_at(unit_pps_table()).do_insert(
                    self.id@,
                    RecordView::Pps(pps_of(old(h).table_at(unit_pps_table()), self.id@) | pps_mask),
                ),
            ),
            !old(h).has_table(unit_pps_table()) ==> *final(h) == *old(h),
    {
        re.pps_set(h, &self.id, pps_mask);
    }

    /// Clear bits in this unit's pending mask.
    pub fn rentry_pps_clear(&self, re: &UnitRe, h: &mut ReliHistory, pps_mask: u32)
        requires
            old(h).wf(),
        ensures
            final(h).wf(),
            old(h).has_table(unit_pps_table()) ==> updated_at(
                *old(h),
                *final(h),
                unit_pps_table(),
                old(h).table_at(unit_pps_table()).do_insert(
                    self.id@,
                    RecordView::Pps(
                        pps_of(old(h).table_at(unit_pps_table()), self.id@) & !pps_mask,
                    ),
                ),
            ),
            !old(h).has_table(unit_pps_table()) ==> *final(h) == *old(h),
    {
        re.pps_clear(h, &self.id, pps_mask);
    }

    /// Whether all bits of `pps_mask` are pending for this unit.
    pub fn rentry_pps_contains(&self, re: &UnitRe, h: &ReliHistory, pps_mask: u32) -> (r: bool)
        requires
            h.wf(),
        ensures
            h.has_table(unit_pps_table()) ==> r == (pps_of(
                h.table_at(unit_pps_table()),
                self.id@,
            ) & pps_mask == pps_mask),
    {
        re.pps_contains(h, &self.id, pps_mask)
    }
}

/// The load-time state of one unit: its load state, its queue memberships
/// and its parsed configuration snapshot.
#[derive(Debug)]
pub struct UeLoad {
    /// The load state.
    pub load_state: UnitLoadState,
    /// Whether the unit sits in the load queue.
    pub in_load_queue: bool,
    /// Whether the unit sits in the target-dependency queue.
    pub in_target_dep_queue: bool,
    /// The unit-section snapshot.
    pub conf_unit: UeConfigUnit,
    /// The install-section snapshot.
    pub conf_install: UeConfigInstall,
}

impl UeLoad {
    /// A fresh load record: `Stub`, in no queue, with an empty snapshot;
    /// its state is persisted and both pending bits are cleared.
    pub fn new(re: &UnitRe, h: &mut ReliHistory, base: &UeBase) -> (r: UeLoad)
        requires
            old(h).wf(),
        ensures
            final(h).wf(),
            r.load_state is Stub,
            !r.in_load_queue,
            !r.in_target_dep_queue,
            crate::history::same_names(final(h).tables@, old(h).tables@),
            forall|nn: Seq<char>| old(h).has_table(nn) == final(h).has_table(nn),
            forall|nn: Seq<char>| old(h).has_table(nn) ==> final(h).idx_of(nn) == old(h).idx_of(nn),
            forall|i: int|
                0 <= i < old(h).tables@.len() && i != old(h).idx_of(unit_load_table()) && i != old(
                    h,
                ).idx_of(unit_pps_table()) ==> final(h).tables@[i] == old(h).tables@[i],
            old(h).has_table(unit_load_table()) && old(h).has_table(unit_pps_table()) ==> ({
                &&& final(h).table_at(unit_load_table()).read_of(base.id@) == Some(
                    RecordView::Load(UnitLoadState::Stub),
                )
                &&& final(h).table_at(unit_pps_table()).read_of(base.id@) == Some(
                    RecordView::Pps(
                        pps_of(old(h).table_at(unit_pps_table()), base.id@) & !(PPS_QUEUE_LOAD
                            | PPS_QUEUE_TARGET_DEPS),
                    ),
                )
            }),
    {
        let load = UeLoad {
            load_state: UnitLoadState::Stub,
            in_load_queue: false,
            in_target_dep_queue: false,
            conf_unit: UeConfigUnit::new(),
            conf_install: UeConfigInstall::new(),
        };
        load.db_insert(re, h, base);
        let ghost h1 = *h;
        base.rentry_pps_clear(re, h, PPS_QUEUE_LOAD | PPS_QUEUE_TARGET_DEPS);
        proof {
            reveal_strlit("unit-load");
            reveal_strlit("unit-pps");
            assert("unit-load"@.len() == 9);
            assert("unit-pps"@.len() == 8);
            assert("unit-load"@ != "unit-pps"@);
            assert(unit_load_table() == "unit-load"@);
            assert(unit_pps_table() == "unit-pps"@);
            if old(h).has_table(unit_load_table()) && old(h).has_table(unit_pps_table()) {
                let li = h1.idx_of(unit_load_table());
                let pi = h1.idx_of(unit_pps_table());
                assert(h1.tables@[li].name@ == unit_load_table());
                assert(h1.tables@[pi].name@ == unit_pps_table());
                assert(li != pi);
                assert(h.tables@[li] == h1.tables@[li]);
                assert(h.idx_of(unit_load_table()) == li);
                assert(h.table_at(unit_load_table()) == h1.table_at(unit_load_table()));
                assert(h1.table_at(unit_pps_table()) == old(h).table_at(unit_pps_table()));
            }
        }
        load
    }

    /// Move to a load state and persist it at once.
    pub fn set_load_state(
        &mut self,
        re: &UnitRe,
        h: &mut ReliHistory,
        base: &UeBase,
        load_state: UnitLoadState,
    )
        requires
            old(h).wf(),
        ensures
            final(h).wf(),
            final(self).load_state == load_state,
            *final(self) == (UeLoad { load_state, ..*old(self) }),
            old(h).has_table(unit_load_table()) ==> updated_at(
                *old(h),
                *final(h),
                unit_load_table(),
                old(h).table_at(unit_load_table()).do_insert(
                    base.id@,
                    RecordView::Load(load_state),
                ),
            ),
    {
        self.load_state = load_state;
        base.rentry_load_insert(re, h, load_state);
    }

    /// The load state.
    pub fn load_state(&self) -> (r: UnitLoadState)
        ensures
            r == self.load_state,
    {
        self.load_state
    }

    /// Enter or leave the load queue, mirroring the membership into the
    /// persisted pending mask so a crash re-enqueues rather than drops.
    pub fn set_in_load_queue(&mut self, re: &UnitRe, h: &mut ReliHistory, base: &UeBase, t: bool)
        requires
            old(h).wf(),
        ensures
            final(h).wf(),
            *final(self) == (UeLoad { in_load_queue: t, ..*old(self) }),
            old(h).has_table(unit_pps_table()) && t ==> updated_at(
                *old(h),
                *final(h),
                unit_pps_table(),
                old(h).table_at(unit_pps_table()).do_insert(
                    base.id@,
                    RecordView::Pps(
                        pps_of(old(h).table_at(unit_pps_table()), base.id@) | PPS_QUEUE_LOAD,
                    ),
                ),
            ),
            old(h).has_table(unit_pps_table()) && !t ==> updated_at(
                *old(h),
                *final(h),
                unit_pps_table(),
                old(h).table_at(unit_pps_table()).do_insert(
                    base.id@,
                    RecordView::Pps(
                        pps_of(old(h).table_at(unit_pps_table()), base.id@) & !PPS_QUEUE_LOAD,
                    ),
                ),
            ),
    {
        self.in_load_queue = t;
        if t {
            base.rentry_pps_set(re, h, PPS_QUEUE_LOAD);
        } else {
            base.rentry_pps_clear(re, h, PPS_QUEUE_LOAD);
        }
    }

    /// Whether the unit sits in the load queue.
    pub fn in_load_queue(&self) -> (r: bool)
        ensures
            r == self.in_load_queue,
    {
        self.in_load_queue
    }

    /// Enter or leave the target-dependency queue, mirrored into the
    /// persisted pending mask.
    pub fn set_in_target_dep_queue(
        &mut self,
        re: &UnitRe,
        h: &mut ReliHistory,
        base: &UeBase,
        t: bool,
    )
        requires
            old(h).wf(),
        ensures
            final(h).wf(),
            *final(self) == (UeLoad { in_target_dep_queue: t, ..*old(self) }),
            old(h).has_table(unit_pps_table()) && t ==> updated_at(
                *old(h),
                *final(h),
                unit_pps_table(),
                old(h).table_at(unit_pps_table()).do_insert(
                    base.id@,
                    RecordView::Pps(
                        pps_of(old(h).table_at(unit_pps_table()), base.id@)
                            | PPS_QUEUE_TARGET_DEPS,
                    ),
                ),
            ),
            old(h).has_table(unit_pps_table()) && !t ==> updated_at(
                *old(h),
                *final(h),
                unit_pps_table(),
                old(h).table_at(unit_pps_table()).do_insert(
                    base.id@,
                    RecordView::Pps(
                        pps_of(old(h).table_at(unit_pps_table()), base.id@)
                            & !PPS_QUEUE_TARGET_DEPS,
                    ),
                ),
            ),
    {
        self.in_target_dep_queue = t;
        if t {
            base.rentry_pps_set(re, h, PPS_QUEUE_TARGET_DEPS);
        } else {
            base.rentry_pps_clear(re, h, PPS_QUEUE_TARGET_DEPS);
        }
    }

    /// Whether the unit sits in the target-dependency queue.
    pub fn in_target_dep_queue(&self) -> (r: bool)
        ensures
            r == self.in_target_dep_queue,
    {
        self.in_target_dep_queue
    }

    /// The configured description, or nothing when it is empty.
    pub fn get_description(&self) -> (r: Option<String>)
        ensures
            self.conf_unit.description@.len() == 0 ==> r is None,
            self.conf_unit.description@.len() > 0 ==> (r matches Some(s) && s@
                == self.conf_unit.description@),
    {
        if self.conf_unit.description.as_str().is_empty() {
            None
        } else {
            Some(self.conf_unit.description.clone())
        }
    }

    /// The configured documentation, or nothing when it is empty.
    pub fn get_documentation(&self) -> (r: Option<String>)
        ensures
            self.conf_unit.documentation@.len() == 0 ==> r is None,
            self.conf_unit.documentation@.len() > 0 ==> (r matches Some(s) && s@
                == self.conf_unit.documentation@),
    {
        if self.conf_unit.documentation.as_str().is_empty() {
            None
        } else {
            Some(self.conf_unit.documentation.clone())
        }
    }

    /// Map the load state back from the persisted record; queue memberships
    /// are the collection's concern, and a reload maps nothing.
    pub fn db_map(&mut self, re: &UnitRe, h: &ReliHistory, base: &UeBase, reload: bool)
        requires
            h.wf(),
        ensures
            *final(self) == (UeLoad { load_state: final(self).load_state, ..*old(self) }),
            final(self).load_state == (if !reload && h.has_table(unit_load_table())
                && (load_rec_of(h.table_at(unit_load_table()), base.id@) is Some) {
                load_state_mapped(h.table_at(unit_load_table()), base.id@, old(self).load_state)
            } else {
                old(self).load_state
            }),
    {
        if reload {
            return ;
        }
        match base.rentry_load_get(re, h) {
            Some(state) => {
                self.load_state = state;
            }
            None => {
            }
        }
    }

    /// Persist the current load state.
    pub fn db_insert(&self, re: &UnitRe, h: &mut ReliHistory, base: &UeBase)
        requires
            old(h).wf(),
        ensures
            final(h).wf(),
            old(h).has_table(unit_load_table()) ==> updated_at(
                *old(h),
                *final(h),
                unit_load_table(),
                old(h).table_at(unit_load_table()).do_insert(
                    base.id@,
                    RecordView::Load(self.load_state),
                ),
            ),
            !old(h).has_table(unit_load_table()) ==> *final(h) == *old(h),
    {
        base.rentry_load_insert(re, h, self.load_state);
    }

    /// The dependency declarations of the unit section, one entry per
    /// relation, in a fixed order.
    pub fn parse(&self) -> (r: Vec<DepEntry>)
        ensures
            r@.len() == 10,
            r@[0].relation is UnitWants && r@[0].units.deep_view() == self.conf_unit@.wants,
            r@[1].relation is UnitAfter && r@[1].units.deep_view() == self.conf_unit@.after,
            r@[2].relation is UnitBefore && r@[2].units.deep_view() == self.conf_unit@.before,
            r@[3].relation is UnitRequires && r@[3].units.deep_view() == self.conf_unit@.requires,
            r@[4].relation is UnitBindsTo && r@[4].units.deep_view() == self.conf_unit@.binds_to,
            r@[5].relation is UnitRequisite && r@[5].units.deep_view() == self.conf_unit@.requisite,
            r@[6].relation is UnitOnFailure && r@[6].units.deep_view()
                == self.conf_unit@.on_failure,
            r@[7].relation is UnitOnSuccess && r@[7].units.deep_view()
                == self.conf_unit@.on_success,
            r@[8].relation is UnitPartOf && r@[8].units.deep_view() == self.conf_unit@.part_of,
            r@[9].relation is UnitConflicts && r@[9].units.deep_view()
                == self.conf_unit@.conflicts,
    {
        let mut r: Vec<DepEntry> = Vec::new();
        r.push(
            DepEntry {
                relation: UnitRelations::UnitWants,
                units: crate::records::clone_strings(&self.conf_unit.wants),
            },
        );
        r.push(
            DepEntry {
                relation: UnitRelations::UnitAfter,
                units: crate::records::clone_strings(&self.conf_unit.after),
            },
        );
        r.push(
            DepEntry {
                relation: UnitRelations::UnitBefore,
                units: crate::records::clone_strings(&self.conf_unit.before),
            },
        );
        r.push(
            DepEntry {
                relation: UnitRelations::UnitRequires,
                units: crate::records::clone_strings(&self.conf_unit.requires),
            },
        );
        r.push(
            DepEntry {
                relation: UnitRelations::UnitBindsTo,
                units: crate::records::clone_strings(&self.conf_unit.binds_to),
            },
        );
        r.push(
            DepEntry {
                relation: UnitRelations::UnitRequisite,
                units: crate::records::clone_strings(&self.conf_unit.requisite),
            },
        );
        r.push(
            DepEntry {
                relation: UnitRelations::UnitOnFailure,
                units: crate::records::clone_strings(&self.conf_unit.on_failure),
            },
        );
        r.push(
            DepEntry {
                relation: UnitRelations::UnitOnSuccess,
                units: crate::records::clone_strings(&self.conf_unit.on_success),
            },
        );
        r.push(
            DepEntry {
                relation: UnitRelations::UnitPartOf,
                units: crate::records::clone_strings(&self.conf_unit.part_of),
            },
        );
        r.push(
            DepEntry {
                relation: UnitRelations::UnitConflicts,
                units: crate::records::clone_strings(&self.conf_unit.conflicts),
            },
        );
        r
    }

    /// Adopt a freshly loaded configuration snapshot and hand back the
    /// dependency declarations it makes.
    pub fn load_unit_confs(&mut self, unit: UeConfigUnit, install: UeConfigInstall) -> (r: Vec<
        DepEntry,
    >)
        ensures
            final(self).conf_unit == unit,
            final(self).conf_install == install,
            *final(self) == (UeLoad { conf_unit: unit, conf_install: install, ..*old(self) }),
            r@.len() == 10,
            r@[0].relation is UnitWants && r@[0].units.deep_view() == unit@.wants,
            r@[9].relation is UnitConflicts && r@[9].units.deep_view() == unit@.conflicts,
    {
        self.conf_unit = unit;
        self.conf_install = install;
        self.parse()
    }
}

/// The mapped load state: what the record holds, or the fallback without
/// one.
pub open spec fn load_state_mapped(m: StoreModel, id: Seq<char>, fallback: UnitLoadState) -> UnitLoadState {
    match m.read_of(id) {
        Some(RecordView::Load(s)) => s,
        _ => fallback,
    }
}

/// One unit as the lifecycle core sees it.
#[derive(Debug)]
pub struct UnitEntry {
    /// The base identity.
    pub base: UeBase,
    /// Load state, queues and configuration.
    pub load: UeLoad,
    /// The start-limit guard.
    pub limit: StartLimit,
}

impl UnitEntry {
    /// Attach a fresh unit: base identity persisted once, load record
    /// persisted as `Stub`, pending mask clear, limiter at its default.
    pub fn new(re: &UnitRe, h: &mut ReliHistory, id: String, unit_type: UnitType) -> (r: UnitEntry)
        requires
            old(h).wf(),
        ensures
            final(h).wf(),
            r.base.id@ == id@,
            r.base.unit_type == unit_type,
            r.load.load_state is Stub,
            !r.load.in_load_queue,
            !r.load.in_target_dep_queue,
            !r.limit.hit,
            crate::history::same_names(final(h).tables@, old(h).tables@),
            forall|nn: Seq<char>| old(h).has_table(nn) == final(h).has_table(nn),
            old(h).has_table(unit_base_table()) && old(h).has_table(unit_load_table()) && old(
                h,
            ).has_table(unit_pps_table()) ==> ({
                &&& final(h).table_at(unit_base_table()).read_of(id@) == Some(
                    RecordView::Base(unit_type),
                )
                &&& final(h).table_at(unit_load_table()).read_of(id@) == Some(
                    RecordView::Load(UnitLoadState::Stub),
                )
                &&& final(h).table_at(unit_pps_table()).read_of(id@) == Some(RecordView::Pps(0))
            }),
    {
        let base = UeBase::new(re, h, id, unit_type);
        let ghost h1 = *h;
        let load = UeLoad::new(re, h, &base);
        proof {
            reveal_strlit("unit-base");
            reveal_strlit("unit-load");
            reveal_strlit("unit-pps");
            assert("unit-base"@.len() == 9);
            assert("unit-load"@.len() == 9);
            assert("unit-base"@[5] == 'b');
            assert("unit-load"@[5] == 'l');
            assert("unit-pps"@.len() == 8);
            assert("unit-base"@ != "unit-load"@);
            assert("unit-base"@ != "unit-pps"@);
            assert(unit_base_table() == "unit-base"@);
            assert(unit_load_table() == "unit-load"@);
            assert(unit_pps_table() == "unit-pps"@);
            if old(h).has_table(unit_base_table()) && old(h).has_table(unit_load_table()) && old(
                h,
            ).has_table(unit_pps_table()) {
                let bi = h1.idx_of(unit_base_table());
                let li = h1.idx_of(unit_load_table());
                let pi = h1.idx_of(unit_pps_table());
                assert(h1.tables@[bi].name@ == unit_base_table());
                assert(h1.tables@[li].name@ == unit_load_table());
                assert(h1.tables@[pi].name@ == unit_pps_table());
                assert(bi != li && bi != pi);
                assert(h.tables@[bi] == h1.tables@[bi]);
                assert(h.idx_of(unit_base_table()) == bi);
                assert(h.table_at(unit_base_table()) == h1.table_at(unit_base_table()));
                assert(pps_of(h1.table_at(unit_pps_table()), base.id@) == 0);
                assert(0u32 & !(1u32 | 2u32) == 0u32) by (bit_vector);
                assert(PPS_QUEUE_LOAD == 1u32 && PPS_QUEUE_TARGET_DEPS == 2u32);
            }
        }
        UnitEntry { base, load, limit: StartLimit::new() }
    }

    /// One start attempt against this unit's limiter; on exhaustion the
    /// sticky hit flag is raised.
    pub fn test_start_limit(&mut self) -> (r: bool)
        ensures
            final(self).base == old(self).base,
            final(self).load == old(self).load,
            exists|now: u64|
                (r, final(self).limit.start_limit) == #[trigger] old(
                    self,
                ).limit.start_limit.step(now),
            r ==> final(self).limit.hit == old(self).limit.hit,
            !r ==> final(self).limit.hit,
    {
        let below = self.limit.ratelimit_below();
        if !below {
            self.limit.set_hit(true);
        }
        below
    }
}

/// No two units share an id.
pub open spec fn unit_ids_unique(s: Seq<UnitEntry>) -> bool {
    forall|i: int, j: int| 0 <= i < j < s.len() ==> s[i].base.id@ != s[j].base.id@
}

/// What one recovery mapping pass does to one unit: the load state comes
/// back from its record, and queue memberships come back from the persisted
/// pending mask, so queued work survives the crash.
pub open spec fn unit_mapped(u0: UnitEntry, u1: UnitEntry, h: ReliHistory, reload: bool) -> bool {
    &&& u1.base == u0.base
    &&& u1.limit == u0.limit
    &&& u1.load.conf_unit == u0.load.conf_unit
    &&& u1.load.conf_install == u0.load.conf_install
    &&& u1.load.load_state == (if !reload && h.has_table(unit_load_table()) && (load_rec_of(
        h.table_at(unit_load_table()),
        u0.base.id@,
    ) is Some) {
        load_state_mapped(h.table_at(unit_load_table()), u0.base.id@, u0.load.load_state)
    } else {
        u0.load.load_state
    })
    &&& u1.load.in_load_queue == (h.has_table(unit_pps_table()) && pps_of(
        h.table_at(unit_pps_table()),
        u0.base.id@,
    ) & PPS_QUEUE_LOAD == PPS_QUEUE_LOAD)
    &&& u1.load.in_target_dep_queue == (h.has_table(unit_pps_table()) && pps_of(
        h.table_at(unit_pps_table()),
        u0.base.id@,
    ) & PPS_QUEUE_TARGET_DEPS == PPS_QUEUE_TARGET_DEPS)
}

/// The pending mask a unit's queue memberships spell.
pub open spec fn unit_mask(u: UnitEntry) -> u32 {
    (if u.load.in_load_queue {
        PPS_QUEUE_LOAD
    } else {
        0
    }) | (if u.load.in_target_dep_queue {
        PPS_QUEUE_TARGET_DEPS
    } else {
        0
    })
}

/// A unit's records say exactly what the unit holds in memory: its type,
/// its load state and its queue memberships.
pub open spec fn unit_persisted(u: UnitEntry, h: ReliHistory) -> bool {
    &&& h.table_at(unit_base_table()).read_of(u.base.id@) == Some(
        RecordView::Base(u.base.unit_type),
    )
    &&& h.table_at(unit_load_table()).read_of(u.base.id@) == Some(
        RecordView::Load(u.load.load_state),
    )
    &&& h.table_at(unit_pps_table()).read_of(u.base.id@) == Some(RecordView::Pps(unit_mask(u)))
}

/// The collection of all units, as one recovery station.
#[derive(Debug)]
pub struct UnitDb {
    /// The per-unit table facade.
    pub rentry: UnitRe,
    /// All attached units.
    pub units: Vec<UnitEntry>,
}

impl UnitDb {
    /// Ids are unique.
    pub open spec fn wf(&self) -> bool {
        unit_ids_unique(self.units@)
    }

    /// An empty collection whose tables are registered with the
    /// coordinator.
    pub fn new(reli: &mut Reliability) -> (r: UnitDb)
        requires
            old(reli).history.wf(),
        ensures
            final(reli).history.wf(),
            UnitRe::registered(final(reli).history),
            r.wf(),
            r.units@.len() == 0,
            final(reli).station == old(reli).station,
            forall|n: Seq<char>|
                old(reli).history.has_table(n) ==> final(reli).history.has_table(n),
    {
        let rentry = UnitRe::new(reli);
        UnitDb { rentry, units: Vec::new() }
    }

    /// The index of the unit with the given id, if it is attached.
    pub fn find_unit(&self, id: &String) -> (r: Option<usize>)
        ensures
            match r {
                Some(i) => i < self.units@.len() && self.units@[i as int].base.id@ == id@,
                None => forall|i: int| 0 <= i < self.units@.len() ==> self.units@[i].base.id@ != id@,
            },
    {
        let mut i: usize = 0;
        let n = self.units.len();
        while i < n
            invariant
                n == self.units@.len(),
                i <= n,
                forall|j: int| 0 <= j < i ==> self.units@[j].base.id@ != id@,
            decreases n - i,
    {
            if self.units[i].base.id == *id {
                return Some(i);
            }
            i = i + 1;
        }
        None
    }

    /// Attach the unit with the given id, creating it on first sight; the
    /// base record is created exactly once, at first attach.
    pub fn attach_unit(&mut self, h: &mut ReliHistory, id: String, unit_type: UnitType) -> (r:
        usize)
        requires
            old(self).wf(),
            old(h).wf(),
        ensures
            final(self).wf(),
            final(h).wf(),
            crate::history::same_names(final(h).tables@, old(h).tables@),
            forall|nn: Seq<char>| old(h).has_table(nn) == final(h).has_table(nn),
            r < final(self).units@.len(),
            final(self).units@[r as int].base.id@ == id@,
            (forall|i: int| 0 <= i < old(self).units@.len() ==> old(self).units@[i].base.id@ != id@)
                && old(h).has_table(unit_base_table()) && old(h).has_table(unit_load_table())
                && old(h).has_table(unit_pps_table()) ==> ({
                &&& final(h).table_at(unit_base_table()).read_of(id@) == Some(
                    RecordView::Base(unit_type),
                )
                &&& final(h).table_at(unit_load_table()).read_of(id@) == Some(
                    RecordView::Load(UnitLoadState::Stub),
                )
                &&& final(h).table_at(unit_pps_table()).read_of(id@) == Some(RecordView::Pps(0))
            }),
    {
        match self.find_unit(&id) {
            Some(i) => i,
            None => {
                let entry = UnitEntry::new(&self.rentry, h, id, unit_type);
                proof {
                    let t = self.units@.push(entry);
                    assert forall|p: int, q: int|
                        0 <= p < q < t.len() implies t[p].base.id@ != t[q].base.id@ by {
                        if q < t.len() - 1 {
                            assert(self.units@[p].base.id@ != self.units@[q].base.id@);
                        }
                    }
                }
                let idx = self.units.len();
                self.units.push(entry);
                idx
            }
        }
    }
}

impl ReStation for UnitDb {
    /// Units rebuild no external resources.
    fn input_rebuild(&mut self, hist: &mut ReliHistory)
        ensures
            *final(hist) == *old(hist),
            *final(self) == *old(self),
    {
    }

    /// Units keep no in-flight marker of their own: nothing to merge.
    fn db_compensate_last(
        &mut self,
        hist: &mut ReliHistory,
        lframe: crate::station::LastFrame,
        lunit: Option<&String>,
    )
        ensures
            *final(hist) == *old(hist),
            *final(self) == *old(self),
    {
        let _ = lframe;
        let _ = lunit;
    }

    /// Units keep no in-flight marker of their own: nothing to re-run.
    fn do_compensate_last(
        &mut self,
        hist: &mut ReliHistory,
        lframe: crate::station::LastFrame,
        lunit: Option<&String>,
    )
        ensures
            *final(hist) == *old(hist),
            *final(self) == *old(self),
    {
        let _ = lframe;
        let _ = lunit;
    }

    /// Load states come back from their records; queue memberships come
    /// back from the persisted pending masks, re-enqueueing work a crash
    /// would otherwise drop.
    fn db_map(&mut self, hist: &ReliHistory, reload: bool)
        ensures
            final(self).rentry == old(self).rentry,
            final(self).units@.len() == old(self).units@.len(),
            forall|i: int|
                0 <= i < old(self).units@.len() ==> unit_mapped(
                    old(self).units@[i],
                    final(self).units@[i],
                    *hist,
                    reload,
                ),
    {
        let mut i: usize = 0;
        let n = self.units.len();
        while i < n
            invariant
                hist.wf(),
                n == self.units@.len(),
                self.units@.len() == old(self).units@.len(),
                self.rentry == old(self).rentry,
                i <= n,
                forall|j: int| i <= j < n ==> self.units@[j] == old(self).units@[j],
                forall|j: int|
                    0 <= j < i ==> unit_mapped(
                        old(self).units@[j],
                        self.units@[j],
                        *hist,
                        reload,
                    ),
            decreases n - i,
        {
            if !reload {
                match self.rentry.load_get(hist, &self.units[i].base.id) {
                    Some(state) => {
                        self.units[i].load.load_state = state;
                    }
                    None => {
                    }
                }
            }
            proof {
                assert(0u32 & 1u32 != 1u32) by (bit_vector);
                assert(0u32 & 2u32 != 2u32) by (bit_vector);
            }
            let in_load = self.rentry.pps_contains(hist, &self.units[i].base.id, PPS_QUEUE_LOAD);
            let in_dep = self.rentry.pps_contains(
                hist,
                &self.units[i].base.id,
                PPS_QUEUE_TARGET_DEPS,
            );
            self.units[i].load.in_load_queue = in_load;
            self.units[i].load.in_target_dep_queue = in_dep;
            i = i + 1;
        }
    }

    /// Every unit inserts its base identity, its load state and its pending
    /// mask as it stands in memory: with distinct ids and the tables
    /// registered, each unit's records afterwards mirror the unit exactly,
    /// so pending queue work written back here survives the next crash.
    #[verifier::rlimit(50)]
    fn db_insert(&self, hist: &mut ReliHistory)
        ensures
            unit_ids_unique(self.units@) && old(hist).has_table(unit_base_table()) && old(
                hist,
            ).has_table(unit_load_table()) && old(hist).has_table(unit_pps_table()) ==> forall|
                j: int,
            |
                0 <= j < self.units@.len() ==> unit_persisted(
                    #[trigger] self.units@[j],
                    *final(hist),
                ),
    {
        let ghost cond = unit_ids_unique(self.units@) && old(hist).has_table(unit_base_table())
            && old(hist).has_table(unit_load_table()) && old(hist).has_table(unit_pps_table());
        let mut i: usize = 0;
        let n = self.units.len();
        while i < n
            invariant
                hist.wf(),
                crate::history::same_names(hist.tables@, old(hist).tables@),
                forall|nn: Seq<char>| old(hist).has_table(nn) == hist.has_table(nn),
                forall|nn: Seq<char>|
                    old(hist).has_table(nn) ==> hist.idx_of(nn) == old(hist).idx_of(nn),
                n == self.units@.len(),
                i <= n,
                cond == (unit_ids_unique(self.units@) && old(hist).has_table(unit_base_table())
                    && old(hist).has_table(unit_load_table()) && old(hist).has_table(
                    unit_pps_table(),
                )),
                cond ==> forall|j: int|
                    0 <= j < i ==> unit_persisted(#[trigger] self.units@[j], *hist),
            decreases n - i,
        {
            let u = &self.units[i];
            let ghost uid = self.units@[i as int].base.id@;
            let ghost g0 = *hist;
            proof {
                lemma_unit_tables_distinct();
            }
            self.rentry.base_insert(hist, &u.base.id, u.base.unit_type);
            let ghost g1 = *hist;
            self.rentry.load_insert(hist, &u.base.id, u.load.load_state);
            let ghost g2 = *hist;
            self.rentry.pps_insert(hist, &u.base.id);
            let ghost g3 = *hist;
            if u.load.in_load_queue {
                self.rentry.pps_set(hist, &u.base.id, PPS_QUEUE_LOAD);
            }
            let ghost g4 = *hist;
            if u.load.in_target_dep_queue {
                self.rentry.pps_set(hist, &u.base.id, PPS_QUEUE_TARGET_DEPS);
            }
            proof {
                if cond {
                    let bi = g0.idx_of(unit_base_table());
                    let li = g0.idx_of(unit_load_table());
                    let pi = g0.idx_of(unit_pps_table());
                    assert(g0.tables@[bi].name@ == unit_base_table());
                    assert(g0.tables@[li].name@ == unit_load_table());
                    assert(g0.tables@[pi].name@ == unit_pps_table());
                    assert(bi != li && bi != pi && li != pi);
                    let ue = self.units@[i as int];

                    assert(g1.table_at(unit_base_table()).read_of(uid) == Some(
                        RecordView::Base(ue.base.unit_type),
                    ));
                    assert(g2.idx_of(unit_base_table()) == bi && g2.tables@[bi] == g1.tables@[bi]);
                    assert(g3.idx_of(unit_base_table()) == bi && g3.tables@[bi] == g2.tables@[bi]);
                    assert(g4.idx_of(unit_base_table()) == bi && g4.tables@[bi] == g3.tables@[bi]);
                    assert(hist.idx_of(unit_base_table()) == bi && hist.tables@[bi]
                        == g4.tables@[bi]);
                    assert(hist.table_at(unit_base_table()).read_of(uid) == Some(
                        RecordView::Base(ue.base.unit_type),
                    ));

                    assert(g2.table_at(unit_load_table()).read_of(uid) == Some(
                        RecordView::Load(ue.load.load_state),
                    ));
                    assert(g3.idx_of(unit_load_table()) == li && g3.tables@[li] == g2.tables@[li]);
                    assert(g4.idx_of(unit_load_table()) == li && g4.tables@[li] == g3.tables@[li]);
                    assert(hist.idx_of(unit_load_table()) == li && hist.tables@[li]
                        == g4.tables@[li]);
                    assert(hist.table_at(unit_load_table()).read_of(uid) == Some(
                        RecordView::Load(ue.load.load_state),
                    ));

                    assert(0u32 | 0u32 == 0u32) by (bit_vector);
                    assert(0u32 | 1u32 == 1u32) by (bit_vector);
                    assert(1u32 | 0u32 == 1u32) by (bit_vector);
                    assert(0u32 | 2u32 == 2u32) by (bit_vector);
                    assert(1u32 | 2u32 == 3u32) by (bit_vector);
                    assert(g3.table_at(unit_pps_table()).read_of(uid) == Some(
                        RecordView::Pps(0),
                    ));
                    assert(pps_of(g3.table_at(unit_pps_table()), uid) == 0);
                    if ue.load.in_load_queue {
                        assert(g4.table_at(unit_pps_table()).read_of(uid) == Some(
                            RecordView::Pps(0u32 | PPS_QUEUE_LOAD),
                        ));
                    } else {
                        assert(g4 == g3);
                    }
                    assert(pps_of(g4.table_at(unit_pps_table()), uid) == (if ue.load.in_load_queue {
                        1u32
                    } else {
                        0u32
                    }));
                    if ue.load.in_target_dep_queue {
                        assert(hist.table_at(unit_pps_table()).read_of(uid) == Some(
                            RecordView::Pps(
                                pps_of(g4.table_at(unit_pps_table()), uid)
                                    | PPS_QUEUE_TARGET_DEPS,
                            ),
                        ));
                    } else {
                        assert(*hist == g4);
                    }
                    assert(hist.table_at(unit_pps_table()).read_of(uid) == Some(
                        RecordView::Pps(unit_mask(ue)),
                    ));
                    assert(unit_persisted(ue, *hist));

                    assert forall|j: int| 0 <= j < i + 1 implies unit_persisted(
                        #[trigger] self.units@[j],
                        *hist,
                    ) by {
                        if j < i {
                            let w = self.units@[j];
                            assert(w.base.id@ != uid);
                            assert(g1.table_at(unit_base_table()).read_of(w.base.id@)
                                == g0.table_at(unit_base_table()).read_of(w.base.id@));
                            assert(g2.table_at(unit_load_table()).read_of(w.base.id@)
                                == g1.table_at(unit_load_table()).read_of(w.base.id@));
                            assert(g3.table_at(unit_pps_table()).read_of(w.base.id@)
                                == g2.table_at(unit_pps_table()).read_of(w.base.id@));
                            if ue.load.in_load_queue {
                                assert(g4.table_at(unit_pps_table()).read_of(w.base.id@)
                                    == g3.table_at(unit_pps_table()).read_of(w.base.id@));
                            }
                            if ue.load.in_target_dep_queue {
                                assert(hist.table_at(unit_pps_table()).read_of(w.base.id@)
                                    == g4.table_at(unit_pps_table()).read_of(w.base.id@));
                            }
                        }
                    }
                }
            }
            i = i + 1;
        }
    }
}

/// Law: pending queue work survives a crash.  A unit whose persisted
/// pending mask in the durable generation carries the load-queue bit is,
/// after reopening the store and running the recovery mapping pass, found
/// in the load queue again.
pub proof fn lemma_pps_reenqueue(
    m: StoreModel,
    id: Seq<char>,
    mask: u32,
    u0: UnitEntry,
    u1: UnitEntry,
    h: ReliHistory,
    reload: bool,
)
    requires
        m.db.contains_key(id),
        m.db[id] == RecordView::Pps(mask),
        mask & PPS_QUEUE_LOAD == PPS_QUEUE_LOAD,
        h.has_table(unit_pps_table()),
        h.table_at(unit_pps_table()) == crate::store::reopened(m),
        u0.base.id@ == id,
        unit_mapped(u0, u1, h, reload),
    ensures
        u1.load.in_load_queue,
{
    let re = crate::store::reopened(m);
    assert(re.switch is None);
    assert(re.cache == m.db);
    assert(re.read_of(id) == Some(RecordView::Pps(mask)));
    assert(pps_of(h.table_at(unit_pps_table()), id) == mask);
}

/// The type a unit name's suffix declares.
pub fn unit_name_to_type(name: &str) -> (r: UnitType)
    ensures
        spec_ends_with(name@, ".service"@) ==> r is UnitService,
        !spec_ends_with(name@, ".service"@) && spec_ends_with(name@, ".socket"@) ==> (
        r is UnitSocket),
        !spec_ends_with(name@, ".service"@) && !spec_ends_with(name@, ".socket"@)
            && spec_ends_with(name@, ".target"@) ==> r is UnitTarget,
        !spec_ends_with(name@, ".service"@) && !spec_ends_with(name@, ".socket"@)
            && !spec_ends_with(name@, ".target"@) && spec_ends_with(name@, ".mount"@) ==> (
        r is UnitMount),
        !spec_ends_with(name@, ".service"@) && !spec_ends_with(name@, ".socket"@)
            && !spec_ends_with(name@, ".target"@) && !spec_ends_with(name@, ".mount"@) ==> (
        r is UnitTypeInvalid),
{
    if ends_with(name, ".service") {
        UnitType::UnitService
    } else if ends_with(name, ".socket") {
        UnitType::UnitSocket
    } else if ends_with(name, ".target") {
        UnitType::UnitTarget
    } else if ends_with(name, ".mount") {
        UnitType::UnitMount
    } else {
        UnitType::UnitTypeInvalid
    }
}

} // verus!
