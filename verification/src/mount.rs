//! The mount subsystem's core: the per-unit mount state machine, the
//! persisted mount records and in-flight marker, the compensation the mount
//! manager performs on recovery, and the reconciliation of the previously
//! active mounts against a fresh mountinfo snapshot.

use crate::error::Error;
use crate::history::{updated_at, ReliHistory};
use crate::records::{MountReFrame, MountState, Record, RecordView, UnitActiveState};
use crate::reli::Reliability;
use crate::station::{LastFrame, ReStation};
use crate::store::StoreModel;
use crate::strutil::{chars_equal, chars_to_string, str_chars, sub_chars};
use vstd::prelude::*;

verus! {

/// The frame tag a sub-manager leaves in the coordinator's marker.
pub const FRAME_SUB_MANAGER: u32 = 4;

/// The name of the per-unit mount-state table.
pub open spec fn mount_mng_table() -> Seq<char> {
    "mountmng"@
}

/// The name of the mount manager's singleton marker table.
pub open spec fn mount_frame_table() -> Seq<char> {
    "mountm-frame"@
}

fn mng_tname() -> (r: String)
    ensures
        r@ == mount_mng_table(),
{
    "mountmng".to_owned()
}

fn frame_tname() -> (r: String)
    ensures
        r@ == mount_frame_table(),
{
    "mountm-frame".to_owned()
}

fn frame_key() -> (r: String)
    ensures
        r@ == "frame"@,
{
    "frame".to_owned()
}

/// The mount state a table holds for a unit, if any.
pub open spec fn mount_rec_of(m: StoreModel, id: Seq<char>) -> Option<MountState> {
    match m.read_of(id) {
        Some(RecordView::MountMng(s)) => Some(s),
        _ => None,
    }
}

/// The marker the mount manager's singleton table holds, if any.
pub open spec fn mount_frame_of(m: StoreModel) -> Option<MountReFrame> {
    match m.read_of("frame"@) {
        Some(RecordView::MountFrame(f)) => Some(f),
        _ => None,
    }
}

/// The facade over the mount tables.
#[derive(Debug)]
pub struct MountRe {
}

impl MountRe {
    /// Both mount tables are registered in the history.
    pub open spec fn registered(h: ReliHistory) -> bool {
        h.has_table(mount_mng_table()) && h.has_table(mount_frame_table())
    }

    /// Register the mount tables with the coordinator, once at start-up.
    pub fn new(reli: &mut Reliability) -> (r: MountRe)
        requires
            old(reli).history.wf(),
        ensures
            final(reli).history.wf(),
            MountRe::registered(final(reli).history),
            final(reli).last_unit == old(reli).last_unit,
            final(reli).last_frame == old(reli).last_frame,
            final(reli).station == old(reli).station,
            forall|n: Seq<char>|
                old(reli).history.has_table(n) ==> final(reli).history.has_table(n),
    {
        reli.history_db_register(&mng_tname());
        reli.history_db_register(&frame_tname());
        MountRe {  }
    }

    /// Write a mount unit's state record.
    pub fn mng_insert(&self, h: &mut ReliHistory, unit_id: &String, state: MountState)
        requires
            old(h).wf(),
        ensures
            final(h).wf(),
            old(h).has_table(mount_mng_table()) ==> updated_at(
                *old(h),
                *final(h),
                mount_mng_table(),
                old(h).table_at(mount_mng_table()).do_insert(
                    unit_id@,
                    RecordView::MountMng(state),
                ),
            ),
            !old(h).has_table(mount_mng_table()) ==> *final(h) == *old(h),
    {
        h.table_insert(&mng_tname(), unit_id, Record::MountMng(state));
    }

    /// Read a mount unit's state record.
    pub fn mng_get(&self, h: &ReliHistory, unit_id: &String) -> (r: Option<MountState>)
        requires
            h.wf(),
        ensures
            r == (if h.has_table(mount_mng_table()) {
                mount_rec_of(h.table_at(mount_mng_table()), unit_id@)
            } else {
                None
            }),
    {
        match h.table_get(&mng_tname(), unit_id) {
            Some(Record::MountMng(s)) => Some(*s),
            _ => None,
        }
    }

    /// Set the in-flight marker: the monitor's non-atomic action began.
    /// The marker table is pushed to the durable tier at once, so an abrupt
    /// stop leaves the marker to be found at start-up.
    pub fn set_last_frame(&self, h: &mut ReliHistory, frame: MountReFrame)
        requires
            old(h).wf(),
        ensures
            final(h).wf(),
            old(h).has_table(mount_frame_table()) ==> updated_at(
                *old(h),
                *final(h),
                mount_frame_table(),
                old(h).table_at(mount_frame_table()).do_insert(
                    "frame"@,
                    RecordView::MountFrame(frame),
                ).do_export(),
            ),
            !old(h).has_table(mount_frame_table()) ==> *final(h) == *old(h),
    {
        h.table_insert(&frame_tname(), &frame_key(), Record::MountFrame(frame));
        h.table_export(&frame_tname());
    }

    /// Clear the in-flight marker: the action completed; durable at once,
    /// the other half of the transactional bracket.
    pub fn clear_last_frame(&self, h: &mut ReliHistory)
        requires
            old(h).wf(),
        ensures
            final(h).wf(),
            old(h).has_table(mount_frame_table()) ==> updated_at(
                *old(h),
                *final(h),
                mount_frame_table(),
                old(h).table_at(mount_frame_table()).do_remove("frame"@).do_export(),
            ),
            !old(h).has_table(mount_frame_table()) ==> *final(h) == *old(h),
    {
        h.table_remove(&frame_tname(), &frame_key());
        h.table_export(&frame_tname());
    }

    /// The in-flight marker, if the action it names did not complete.
    pub fn last_frame(&self, h: &ReliHistory) -> (r: Option<MountReFrame>)
        requires
            h.wf(),
        ensures
            r == (if h.has_table(mount_frame_table()) {
                mount_frame_of(h.table_at(mount_frame_table()))
            } else {
                None
            }),
    {
        match h.table_get(&frame_tname(), &frame_key()) {
            Some(Record::MountFrame(f)) => Some(*f),
            _ => None,
        }
    }
}

impl MountState {
    /// The active-state projection of a mount state.
    pub fn mount_state_to_unit_state(&self) -> (r: UnitActiveState)
        ensures
            *self is Dead ==> r is InActive,
            *self is Mounted ==> r is Active,
    {
        match *self {
            MountState::Dead => UnitActiveState::InActive,
            MountState::Mounted => UnitActiveState::Active,
        }
    }
}

/// A notification owed to the lifecycle core after a state change: the old
/// and new active-state projections.
#[derive(Clone, Copy, Debug, PartialEq, Eq, Structural)]
pub struct MountStateChange {
    /// The projection before the change.
    pub old_state: UnitActiveState,
    /// The projection after the change.
    pub new_state: UnitActiveState,
}

/// The per-unit mount state machine.  The manager only monitors mount
/// points; it never mounts or unmounts on its own.
#[derive(Debug)]
pub struct MountMng {
    /// The id of the mount unit this state belongs to.
    pub unit_id: String,
    /// The current state.
    pub state: MountState,
}

/// The active-state projection, as a spec-level map.
pub open spec fn spec_mount_to_unit_state(s: MountState) -> UnitActiveState {
    match s {
        MountState::Dead => UnitActiveState::InActive,
        MountState::Mounted => UnitActiveState::Active,
    }
}

impl MountMng {
    /// A fresh mount state machine: dead until the monitor sees otherwise.
    pub fn new(unit_id: String) -> (r: MountMng)
        ensures
            r.unit_id@ == unit_id@,
            r.state is Dead,
    {
        MountMng { unit_id, state: MountState::Dead }
    }

    /// Enter the dead state.
    pub fn enter_dead(&mut self, notify: bool) -> (r: Option<MountStateChange>)
        ensures
            final(self).state is Dead,
            final(self).unit_id == old(self).unit_id,
            r == (if notify {
                Some(
                    MountStateChange {
                        old_state: spec_mount_to_unit_state(old(self).state),
                        new_state: UnitActiveState::InActive,
                    },
                )
            } else {
                Option::<MountStateChange>::None
            }),
    {
        self.set_state(MountState::Dead, notify)
    }

    /// Enter the mounted state.
    pub fn enter_mounted(&mut self, notify: bool) -> (r: Option<MountStateChange>)
        ensures
            final(self).state is Mounted,
            final(self).unit_id == old(self).unit_id,
            r == (if notify {
                Some(
                    MountStateChange {
                        old_state: spec_mount_to_unit_state(old(self).state),
                        new_state: UnitActiveState::Active,
                    },
                )
            } else {
                Option::<MountStateChange>::None
            }),
    {
        self.set_state(MountState::Mounted, notify)
    }

    /// Gate a start attempt: the caller has consulted the unit's start
    /// limit; a failed check drives the unit dead — notified and
    /// persisted — and is rejected with a cancellation-class error.
    pub fn start_check(&mut self, re: &MountRe, h: &mut ReliHistory, start_limit_ok: bool) -> (r: (
        Result<bool, Error>,
        Option<MountStateChange>,
    ))
        requires
            old(h).wf(),
        ensures
            final(h).wf(),
            start_limit_ok ==> r.0 == Ok::<bool, Error>(false) && *final(self) == *old(self) && (
            r.1 is None) && *final(h) == *old(h),
            !start_limit_ok ==> r.0 == Err::<bool, Error>(Error::UnitActionECanceled)
                && final(self).state is Dead && r.1 == Some(
                MountStateChange {
                    old_state: spec_mount_to_unit_state(old(self).state),
                    new_state: UnitActiveState::InActive,
                },
            ),
            !start_limit_ok && old(h).has_table(mount_mng_table()) ==> updated_at(
                *old(h),
                *final(h),
                mount_mng_table(),
                old(h).table_at(mount_mng_table()).do_insert(
                    old(self).unit_id@,
                    RecordView::MountMng(MountState::Dead),
                ),
            ),
    {
        if !start_limit_ok {
            let change = self.set_state_update(re, h, MountState::Dead, true);
            return (Err(Error::UnitActionECanceled), change);
        }
        (Ok(false), None)
    }

    /// The state's display name.
    pub fn get_state(&self) -> (r: String)
        ensures
            self.state is Dead ==> r@ == "Dead"@,
            self.state is Mounted ==> r@ == "Mounted"@,
    {
        match self.state {
            MountState::Dead => "Dead".to_owned(),
            MountState::Mounted => "Mounted".to_owned(),
        }
    }

    /// Move to a state; when `notify` is set, the owed notification is
    /// handed back for the lifecycle core to propagate.
    pub fn set_state(&mut self, new_state: MountState, notify: bool) -> (r: Option<
        MountStateChange,
    >)
        ensures
            final(self).state == new_state,
            final(self).unit_id == old(self).unit_id,
            r == (if notify {
                Some(
                    MountStateChange {
                        old_state: spec_mount_to_unit_state(old(self).state),
                        new_state: spec_mount_to_unit_state(new_state),
                    },
                )
            } else {
                Option::<MountStateChange>::None
            }),
    {
        let old_state = self.state;
        self.change_state(new_state);
        if notify {
            Some(self.state_notify(new_state, old_state))
        } else {
            None
        }
    }

    /// Move to a state as `set_state` does, and persist the new state
    /// whenever it is notified: a notified transition is never lost to a
    /// crash.  Without `notify`, neither the callback nor the persist runs.
    pub fn set_state_update(
        &mut self,
        re: &MountRe,
        h: &mut ReliHistory,
        new_state: MountState,
        notify: bool,
    ) -> (r: Option<MountStateChange>)
        requires
            old(h).wf(),
        ensures
            final(h).wf(),
            final(self).state == new_state,
            final(self).unit_id == old(self).unit_id,
            r == (if notify {
                Some(
                    MountStateChange {
                        old_state: spec_mount_to_unit_state(old(self).state),
                        new_state: spec_mount_to_unit_state(new_state),
                    },
                )
            } else {
                Option::<MountStateChange>::None
            }),
            !notify ==> *final(h) == *old(h),
            notify && old(h).has_table(mount_mng_table()) ==> updated_at(
                *old(h),
                *final(h),
                mount_mng_table(),
                old(h).table_at(mount_mng_table()).do_insert(
                    old(self).unit_id@,
                    RecordView::MountMng(new_state),
                ),
            ),
            notify && !old(h).has_table(mount_mng_table()) ==> *final(h) == *old(h),
    {
        let r = self.set_state(new_state, notify);
        if notify {
            self.db_insert(re, h);
        }
        r
    }

    /// The notification a transition owes: both projections, delivered even
    /// when the state did not change.
    pub fn state_notify(&self, new_state: MountState, old_state: MountState) -> (r:
        MountStateChange)
        ensures
            r.old_state == spec_mount_to_unit_state(old_state),
            r.new_state == spec_mount_to_unit_state(new_state),
    {
        let old_unit_state = old_state.mount_state_to_unit_state();
        let new_unit_state = new_state.mount_state_to_unit_state();
        MountStateChange { old_state: old_unit_state, new_state: new_unit_state }
    }

    /// Replace the state, with no notification.
    pub fn change_state(&mut self, new_state: MountState)
        ensures
            final(self).state == new_state,
            final(self).unit_id == old(self).unit_id,
    {
        self.state = new_state;
    }

    /// The current state.
    pub fn state(&self) -> (r: MountState)
        ensures
            r == self.state,
    {
        self.state
    }

    /// The active-state projection of the current state.
    pub fn mount_state_to_unit_state(&self) -> (r: UnitActiveState)
        ensures
            r == spec_mount_to_unit_state(self.state),
    {
        self.state.mount_state_to_unit_state()
    }

    /// Map the state back from the persisted record.
    pub fn db_map(&mut self, re: &MountRe, h: &ReliHistory, reload: bool)
        requires
            h.wf(),
        ensures
            final(self).unit_id == old(self).unit_id,
            final(self).state == (if h.has_table(mount_mng_table()) && (mount_rec_of(
                h.table_at(mount_mng_table()),
                old(self).unit_id@,
            ) is Some) {
                mount_state_mapped(h.table_at(mount_mng_table()), old(self).unit_id@, old(self).state)
            } else {
                old(self).state
            }),
    {
        let _ = reload;
        match re.mng_get(h, &self.unit_id) {
            Some(state) => {
                self.state = state;
            }
            None => {
            }
        }
    }

    /// Persist the current state.
    pub fn db_insert(&self, re: &MountRe, h: &mut ReliHistory)
        requires
            old(h).wf(),
        ensures
            final(h).wf(),
            old(h).has_table(mount_mng_table()) ==> updated_at(
                *old(h),
                *final(h),
                mount_mng_table(),
                old(h).table_at(mount_mng_table()).do_insert(
                    self.unit_id@,
                    RecordView::MountMng(self.state),
                ),
            ),
            !old(h).has_table(mount_mng_table()) ==> *final(h) == *old(h),
    {
        re.mng_insert(h, &self.unit_id, self.state);
    }
}

/// The mapped mount state: what the record holds, or the fallback without
/// one.
pub open spec fn mount_state_mapped(m: StoreModel, id: Seq<char>, fallback: MountState) -> MountState {
    match m.read_of(id) {
        Some(RecordView::MountMng(s)) => s,
        _ => fallback,
    }
}

/// No two mount state machines share a unit id.
pub open spec fn mount_ids_unique(s: Seq<MountMng>) -> bool {
    forall|i: int, j: int| 0 <= i < j < s.len() ==> s[i].unit_id@ != s[j].unit_id@
}

/// A mount unit's record says exactly what the state machine holds.
pub open spec fn mng_persisted(m: MountMng, h: ReliHistory) -> bool {
    h.table_at(mount_mng_table()).read_of(m.unit_id@) == Some(RecordView::MountMng(m.state))
}

/// One compensation phase, on the station's observable intent: with the
/// monitor frame recorded and a unit named by the marker, the intent is set
/// to that unit; any other marker leaves the intent as found.
pub open spec fn spec_compensate_mark(
    cur: Option<Seq<char>>,
    frame: Option<MountReFrame>,
    lunit: Option<Seq<char>>,
) -> Option<Seq<char>> {
    match (frame, lunit) {
        (Some(MountReFrame::Monitor), Some(u)) => Some(u),
        _ => cur,
    }
}

/// Law: compensation is idempotent.  Running a compensation phase twice
/// with the same marker leaves exactly the state one run leaves.
pub proof fn lemma_compensation_idempotent(
    cur: Option<Seq<char>>,
    frame: Option<MountReFrame>,
    lunit: Option<Seq<char>>,
)
    ensures
        spec_compensate_mark(spec_compensate_mark(cur, frame, lunit), frame, lunit)
            == spec_compensate_mark(cur, frame, lunit),
{
}

/// The mount manager: every mount unit's state machine, and the
/// compensation intents recovery computes from the in-flight marker.
#[derive(Debug)]
pub struct MountManager {
    /// The mount table facade.
    pub rentry: MountRe,
    /// The state machines of all mount units.
    pub mngs: Vec<MountMng>,
    /// Phase-one intent: the unit whose trigger records are to be merged.
    pub merged_trigger: Option<String>,
    /// Phase-two intent: the unit to re-trigger.
    pub to_trigger: Option<String>,
}

impl MountManager {
    /// A fresh mount manager whose tables are registered with the
    /// coordinator.
    pub fn new(reli: &mut Reliability) -> (r: MountManager)
        requires
            old(reli).history.wf(),
        ensures
            final(reli).history.wf(),
            MountRe::registered(final(reli).history),
            r.mngs@.len() == 0,
            r.merged_trigger is None,
            r.to_trigger is None,
            final(reli).station == old(reli).station,
            forall|n: Seq<char>|
                old(reli).history.has_table(n) ==> final(reli).history.has_table(n),
    {
        let rentry = MountRe::new(reli);
        MountManager { rentry, mngs: Vec::new(), merged_trigger: None, to_trigger: None }
    }

    /// The phase-one intent's view.
    pub open spec fn merged_view(&self) -> Option<Seq<char>> {
        match self.merged_trigger {
            Some(u) => Some(u@),
            None => None,
        }
    }

    /// The phase-two intent's view.
    pub open spec fn trigger_view(&self) -> Option<Seq<char>> {
        match self.to_trigger {
            Some(u) => Some(u@),
            None => None,
        }
    }
}

impl ReStation for MountManager {
    /// Re-arming the monitor's event source is the reactor driver's
    /// concern; no data is involved.
    fn input_rebuild(&mut self, hist: &mut ReliHistory)
        ensures
            *final(hist) == *old(hist),
            *final(self) == *old(self),
    {
    }

    /// Phase one: with the monitor frame recorded, mark the named unit's
    /// trigger records for merging; a missing marker is nothing to
    /// compensate.
    fn db_compensate_last(
        &mut self,
        hist: &mut ReliHistory,
        lframe: LastFrame,
        lunit: Option<&String>,
    )
        ensures
            *final(hist) == *old(hist),
            final(self).rentry == old(self).rentry,
            final(self).mngs == old(self).mngs,
            final(self).to_trigger == old(self).to_trigger,
            final(self).merged_view() == spec_compensate_mark(
                old(self).merged_view(),
                if old(hist).has_table(mount_frame_table()) {
                    mount_frame_of(old(hist).table_at(mount_frame_table()))
                } else {
                    None
                },
                match lunit {
                    Some(u) => Some(u@),
                    None => None,
                },
            ),
    {
        let _ = lframe;
        let frame = self.rentry.last_frame(hist);
        match (frame, lunit) {
            (Some(MountReFrame::Monitor), Some(unit_id)) => {
                self.merged_trigger = Some(unit_id.clone());
            }
            _ => {
            }
        }
    }

    /// Phase two: with the monitor frame recorded, note the named unit for
    /// re-triggering; a missing marker is nothing to compensate.
    fn do_compensate_last(
        &mut self,
        hist: &mut ReliHistory,
        lframe: LastFrame,
        lunit: Option<&String>,
    )
        ensures
            *final(hist) == *old(hist),
            final(self).rentry == old(self).rentry,
            final(self).mngs == old(self).mngs,
            final(self).merged_trigger == old(self).merged_trigger,
            final(self).trigger_view() == spec_compensate_mark(
                old(self).trigger_view(),
                if old(hist).has_table(mount_frame_table()) {
                    mount_frame_of(old(hist).table_at(mount_frame_table()))
                } else {
                    None
                },
                match lunit {
                    Some(u) => Some(u@),
                    None => None,
                },
            ),
    {
        let _ = lframe;
        let frame = self.rentry.last_frame(hist);
        match (frame, lunit) {
            (Some(MountReFrame::Monitor), Some(unit_id)) => {
                self.to_trigger = Some(unit_id.clone());
            }
            _ => {
            }
        }
    }

    /// Every mount unit's state comes back from its record.
    fn db_map(&mut self, hist: &ReliHistory, reload: bool)
        ensures
            final(self).rentry == old(self).rentry,
            final(self).merged_trigger == old(self).merged_trigger,
            final(self).to_trigger == old(self).to_trigger,
            final(self).mngs@.len() == old(self).mngs@.len(),
            forall|i: int|
                0 <= i < old(self).mngs@.len() ==> final(self).mngs@[i].unit_id == old(
                    self,
                ).mngs@[i].unit_id && final(self).mngs@[i].state == (if hist.has_table(
                    mount_mng_table(),
                ) && (mount_rec_of(
                    hist.table_at(mount_mng_table()),
                    old(self).mngs@[i].unit_id@,
                ) is Some) {
                    mount_state_mapped(
                        hist.table_at(mount_mng_table()),
                        old(self).mngs@[i].unit_id@,
                        old(self).mngs@[i].state,
                    )
                } else {
                    old(self).mngs@[i].state
                }),
    {
        let mut i: usize = 0;
        let n = self.mngs.len();
        while i < n
            invariant
                hist.wf(),
                n == self.mngs@.len(),
                self.mngs@.len() == old(self).mngs@.len(),
                self.rentry == old(self).rentry,
                self.merged_trigger == old(self).merged_trigger,
                self.to_trigger == old(self).to_trigger,
                i <= n,
                forall|j: int| i <= j < n ==> self.mngs@[j] == old(self).mngs@[j],
                forall|j: int|
                    0 <= j < i ==> self.mngs@[j].unit_id == old(self).mngs@[j].unit_id
                        && self.mngs@[j].state == (if hist.has_table(mount_mng_table()) && (
                        mount_rec_of(
                            hist.table_at(mount_mng_table()),
                            old(self).mngs@[j].unit_id@,
                        ) is Some) {
                        mount_state_mapped(
                            hist.table_at(mount_mng_table()),
                            old(self).mngs@[j].unit_id@,
                            old(self).mngs@[j].state,
                        )
                    } else {
                        old(self).mngs@[j].state
                    }),
            decreases n - i,
        {
            let re = &self.rentry;
            match re.mng_get(hist, &self.mngs[i].unit_id) {
                Some(state) => {
                    self.mngs[i].state = state;
                }
                None => {
                }
            }
            i = i + 1;
        }
    }

    /// Every mount unit inserts its state as it stands in memory: with
    /// distinct ids and the table registered, each record afterwards
    /// mirrors its state machine exactly.
    fn db_insert(&self, hist: &mut ReliHistory)
        ensures
            forall|nn: Seq<char>| old(hist).has_table(nn) == final(hist).has_table(nn),
            forall|nn: Seq<char>|
                old(hist).has_table(nn) ==> final(hist).idx_of(nn) == old(hist).idx_of(nn),
            forall|i: int|
                0 <= i < old(hist).tables@.len() && i != old(hist).idx_of(mount_mng_table())
                    ==> final(hist).tables@[i] == old(hist).tables@[i],
            !old(hist).has_table(mount_mng_table()) ==> *final(hist) == *old(hist),
            mount_ids_unique(self.mngs@) && old(hist).has_table(mount_mng_table()) ==> forall|
                j: int,
            | 0 <= j < self.mngs@.len() ==> mng_persisted(#[trigger] self.mngs@[j], *final(hist)),
    {
        let ghost cond = mount_ids_unique(self.mngs@) && old(hist).has_table(mount_mng_table());
        let mut i: usize = 0;
        let n = self.mngs.len();
        while i < n
            invariant
                hist.wf(),
                crate::history::same_names(hist.tables@, old(hist).tables@),
                forall|nn: Seq<char>| old(hist).has_table(nn) == hist.has_table(nn),
                forall|nn: Seq<char>|
                    old(hist).has_table(nn) ==> hist.idx_of(nn) == old(hist).idx_of(nn),
                forall|t: int|
                    0 <= t < old(hist).tables@.len() && t != old(hist).idx_of(mount_mng_table())
                        ==> hist.tables@[t] == old(hist).tables@[t],
                !old(hist).has_table(mount_mng_table()) ==> *hist == *old(hist),
                n == self.mngs@.len(),
                i <= n,
                cond == (mount_ids_unique(self.mngs@) && old(hist).has_table(mount_mng_table())),
                cond ==> forall|j: int|
                    0 <= j < i ==> mng_persisted(#[trigger] self.mngs@[j], *hist),
            decreases n - i,
        {
            let ghost g0 = *hist;
            self.rentry.mng_insert(hist, &self.mngs[i].unit_id, self.mngs[i].state);
            proof {
                if cond {
                    let me = self.mngs@[i as int];
                    assert(hist.table_at(mount_mng_table()).read_of(me.unit_id@) == Some(
                        RecordView::MountMng(me.state),
                    ));
                    assert forall|j: int| 0 <= j < i + 1 implies mng_persisted(
                        #[trigger] self.mngs@[j],
                        *hist,
                    ) by {
                        if j < i {
                            assert(self.mngs@[j].unit_id@ != me.unit_id@);
                            assert(hist.table_at(mount_mng_table()).read_of(
                                self.mngs@[j].unit_id@,
                            ) == g0.table_at(mount_mng_table()).read_of(self.mngs@[j].unit_id@));
                        }
                    }
                }
            }
            i = i + 1;
        }
    }
}

/// The unit name a mount point maps to: every path separator becomes a
/// dash, the `.mount` suffix is appended, and — save for the root mount
/// point itself — the first character is dropped.
pub open spec fn spec_mount_unit_name(p: Seq<char>) -> Seq<char> {
    let full = p.map(|i: int, c: char| (if c == '/' { '-' } else { c })) + ".mount"@;
    if full == "-.mount"@ {
        full
    } else {
        full.drop_first()
    }
}

/// The unit name of a mount point.
pub fn mount_point_to_unit_name(mount_point: &str) -> (r: String)
    ensures
        r@ == spec_mount_unit_name(mount_point@),
{
    let pv = str_chars(mount_point);
    let mut full: Vec<char> = Vec::new();
    let mut i: usize = 0;
    while i < pv.len()
        invariant
            pv@ == mount_point@,
            i <= pv@.len(),
            full@.len() == i,
            forall|j: int| 0 <= j < i ==> full@[j] == (if pv@[j] == '/' { '-' } else { pv@[j] }),
        decreases pv.len() - i,
    {
        let c = pv[i];
        if c == '/' {
            full.push('-');
        } else {
            full.push(c);
        }
        i = i + 1;
    }
    let mut suffix = str_chars(".mount");
    full.append(&mut suffix);
    proof {
        assert(full@ =~= mount_point@.map(|j: int, c: char| (if c == '/' { '-' } else { c }))
            + ".mount"@);
    }
    let target = str_chars("-.mount");
    if chars_equal(&full, &target) {
        chars_to_string(&full)
    } else {
        proof {
            reveal_strlit(".mount");
            assert(full@.len() >= 1);
        }
        let tail = sub_chars(&full, 1, full.len());
        proof {
            assert(tail@ =~= full@.drop_first());
        }
        chars_to_string(&tail)
    }
}

/// One mount point of a mountinfo snapshot, as the excluded parser hands
/// it over.
#[derive(Debug)]
pub struct MountPointInfo {
    /// Where the mount sits.
    pub mount_point: String,
    /// The filesystem type.
    pub fstype: String,
}

/// Whether a snapshot entry takes part in reconciliation; autofs entries
/// belong to automount units and are left alone.
pub open spec fn snap_live(e: MountPointInfo) -> bool {
    e.fstype@ != "autofs"@
}

/// The unit name of a snapshot entry.
pub open spec fn snap_name(e: MountPointInfo) -> Seq<char> {
    spec_mount_unit_name(e.mount_point@)
}

/// No live entry before `j` carries the same unit name as entry `k`.
pub open spec fn first_live_before(snap: Seq<MountPointInfo>, k: int, j: int) -> bool {
    forall|p: int| 0 <= p < j && snap_live(snap[p]) ==> snap_name(snap[p]) != snap_name(snap[k])
}

/// Whether `n` is among the previously active units.
pub open spec fn active_contains(active: Seq<String>, n: Seq<char>) -> bool {
    exists|i: int| 0 <= i < active.len() && active[i]@ == n
}

/// Whether entry `k` leads to a start: it is live, and it is not the first
/// sighting of a unit that is already active.
pub open spec fn should_start(active: Seq<String>, snap: Seq<MountPointInfo>, k: int) -> bool {
    snap_live(snap[k]) && !(active_contains(active, snap_name(snap[k])) && first_live_before(
        snap,
        k,
        k,
    ))
}

/// The units started by the first `k` snapshot entries, in order.
pub open spec fn starts_prefix(active: Seq<String>, snap: Seq<MountPointInfo>, k: int) -> Seq<
    Seq<char>,
>
    decreases k,
{
    if k <= 0 {
        Seq::empty()
    } else if should_start(active, snap, k - 1) {
        starts_prefix(active, snap, k - 1).push(snap_name(snap[k - 1]))
    } else {
        starts_prefix(active, snap, k - 1)
    }
}

/// Whether some live entry among the first `t` names the unit `n`.
pub open spec fn seen_before(snap: Seq<MountPointInfo>, n: Seq<char>, t: int) -> bool {
    exists|k: int| 0 <= k < t && snap_live(snap[k]) && snap_name(snap[k]) == n
}

/// The units stopped among the first `i` previously active ones, in order:
/// those no snapshot entry names any more.
pub open spec fn stops_prefix(active: Seq<String>, snap: Seq<MountPointInfo>, i: int) -> Seq<
    Seq<char>,
>
    decreases i,
{
    if i <= 0 {
        Seq::empty()
    } else if !seen_before(snap, active[i - 1]@, snap.len() as int) {
        stops_prefix(active, snap, i - 1).push(active[i - 1]@)
    } else {
        stops_prefix(active, snap, i - 1)
    }
}

/// Reconcile the previously active mount units against a fresh mountinfo
/// snapshot: every live mount point whose unit is not already active is
/// started, every active unit no longer present is stopped, and a unit
/// both active and present is left untouched.
pub fn reconcile_mounts(active: &Vec<String>, snapshot: &Vec<MountPointInfo>) -> (r: (
    Vec<String>,
    Vec<String>,
))
    ensures
        r.0.deep_view() == starts_prefix(active@, snapshot@, snapshot@.len() as int),
        r.1.deep_view() == stops_prefix(active@, snapshot@, active@.len() as int),
{
    let autofs = "autofs".to_owned();
    let mut starts: Vec<String> = Vec::new();
    let mut k: usize = 0;
    while k < snapshot.len()
        invariant
            autofs@ == "autofs"@,
            k <= snapshot@.len(),
            starts.deep_view() =~= starts_prefix(active@, snapshot@, k as int),
        decreases snapshot.len() - k,
    {
        if snapshot[k].fstype == autofs {
        } else {
            let name = mount_point_to_unit_name(snapshot[k].mount_point.as_str());
            let mut first = true;
            let mut j: usize = 0;
            while j < k
                invariant
                    autofs@ == "autofs"@,
                    k < snapshot@.len(),
                    j <= k,
                    name@ == snap_name(snapshot@[k as int]),
                    first == first_live_before(snapshot@, k as int, j as int),
                decreases k - j,
            {
                if !(snapshot[j].fstype == autofs) {
                    let nj = mount_point_to_unit_name(snapshot[j].mount_point.as_str());
                    if nj == name {
                        first = false;
                    }
                }
                j = j + 1;
            }
            let mut in_active = false;
            let mut a: usize = 0;
            while a < active.len()
                invariant
                    a <= active@.len(),
                    in_active == (exists|p: int| 0 <= p < a && active@[p]@ == name@),
                    name@ == snap_name(snapshot@[k as int]),
                decreases active.len() - a,
            {
                if active[a] == name {
                    in_active = true;
                }
                a = a + 1;
            }
            proof {
                assert(in_active == active_contains(active@, snap_name(snapshot@[k as int])));
            }
            if !(in_active && first) {
                starts.push(name);
                proof {
                    assert(starts.deep_view() =~= starts_prefix(
                        active@,
                        snapshot@,
                        k as int + 1,
                    ));
                }
            }
        }
        k = k + 1;
    }
    let mut stops: Vec<String> = Vec::new();
    let mut i: usize = 0;
    while i < active.len()
        invariant
            autofs@ == "autofs"@,
            i <= active@.len(),
            stops.deep_view() =~= stops_prefix(active@, snapshot@, i as int),
        decreases active.len() - i,
    {
        let mut seen = false;
        let mut t: usize = 0;
        while t < snapshot.len()
            invariant
                autofs@ == "autofs"@,
                i < active@.len(),
                t <= snapshot@.len(),
                seen == seen_before(snapshot@, active@[i as int]@, t as int),
            decreases snapshot.len() - t,
        {
            if !(snapshot[t].fstype == autofs) {
                let nt = mount_point_to_unit_name(snapshot[t].mount_point.as_str());
                if nt == active[i] {
                    seen = true;
                }
            }
            t = t + 1;
        }
        if !seen {
            stops.push(active[i].clone());
            proof {
                assert(stops.deep_view() =~= stops_prefix(active@, snapshot@, i as int + 1));
            }
        }
        i = i + 1;
    }
    (starts, stops)
}

/// Begin one monitor dispatch: the coordinator's frame marker and the
/// mount manager's own marker go down — each durable at once — and the
/// decided start and stop lists are handed back with both markers still
/// set.  The caller performs each action bracketed by `set_last_unit` /
/// `clear_last_unit` and calls `monitor_dispatch_end` only after the last
/// action is done, so an abrupt stop at any point of the dispatch leaves a
/// marker for the compensation phases to find.
pub fn monitor_dispatch_begin(
    reli: &mut Reliability,
    re: &MountRe,
    active: &Vec<String>,
    snapshot: &Vec<MountPointInfo>,
) -> (r: (Vec<String>, Vec<String>))
    requires
        old(reli).history.wf(),
    ensures
        final(reli).history.wf(),
        final(reli).last_frame == Some((FRAME_SUB_MANAGER, Some(3u32), None::<u32>)),
        final(reli).last_unit == old(reli).last_unit,
        final(reli).enable == old(reli).enable,
        old(reli).history.has_table(mount_frame_table()) ==> mount_frame_of(
            final(reli).history.table_at(mount_frame_table()),
        ) == Some(MountReFrame::Monitor),
        old(reli).history.has_table(crate::reli::last_frame_table()) ==> crate::reli::marker_frame_of(
            final(reli).history.table_at(crate::reli::last_frame_table()),
        ) == Some((FRAME_SUB_MANAGER, Some(3u32), None::<u32>)),
        r.0.deep_view() == starts_prefix(active@, snapshot@, snapshot@.len() as int),
        r.1.deep_view() == stops_prefix(active@, snapshot@, active@.len() as int),
{
    let mount_tag = crate::records::UnitType::UnitMount.tag();
    reli.set_last_frame2(FRAME_SUB_MANAGER, mount_tag);
    let ghost h1 = reli.history;
    re.set_last_frame(&mut reli.history, MountReFrame::Monitor);
    proof {
        lemma_marker_tables_distinct();
        if old(reli).history.has_table(crate::reli::last_frame_table()) {
            let fi = h1.idx_of(crate::reli::last_frame_table());
            let mi = h1.idx_of(mount_frame_table());
            assert(h1.tables@[fi].name@ == crate::reli::last_frame_table());
            if h1.has_table(mount_frame_table()) {
                assert(h1.tables@[mi].name@ == mount_frame_table());
                assert(fi != mi);
                assert(reli.history.tables@[fi] == h1.tables@[fi]);
                assert(reli.history.idx_of(crate::reli::last_frame_table()) == fi);
            }
            assert(reli.history.table_at(crate::reli::last_frame_table()) == h1.table_at(
                crate::reli::last_frame_table(),
            ));
        }
    }
    reconcile_mounts(active, snapshot)
}

/// End one monitor dispatch: every decided action has been performed (or
/// deliberately given up), so both frame markers are cleared, durably;
/// nothing is left to compensate.
pub fn monitor_dispatch_end(reli: &mut Reliability, re: &MountRe)
    requires
        old(reli).history.wf(),
    ensures
        final(reli).history.wf(),
        final(reli).last_frame is None,
        final(reli).last_unit == old(reli).last_unit,
        final(reli).enable == old(reli).enable,
        old(reli).history.has_table(mount_frame_table()) && old(reli).history.table_at(
            mount_frame_table(),
        ).switch != Some(true) ==> mount_frame_of(
            final(reli).history.table_at(mount_frame_table()),
        ) is None,
{
    let ghost h0 = reli.history;
    re.clear_last_frame(&mut reli.history);
    let ghost h1 = reli.history;
    reli.clear_last_frame();
    proof {
        lemma_marker_tables_distinct();
        if old(reli).history.has_table(mount_frame_table()) {
            let mi = h0.idx_of(mount_frame_table());
            assert(h0.tables@[mi].name@ == mount_frame_table());
            if h1.has_table(crate::reli::last_frame_table()) {
                let fi = h1.idx_of(crate::reli::last_frame_table());
                assert(h1.tables@[fi].name@ == crate::reli::last_frame_table());
                assert(fi != mi);
                assert(reli.history.tables@[mi] == h1.tables@[mi]);
                assert(reli.history.idx_of(mount_frame_table()) == mi);
            }
            assert(reli.history.table_at(mount_frame_table()) == h1.table_at(
                mount_frame_table(),
            ));
        }
    }
}

/// The mount marker table and the coordinator's frame marker table are
/// distinct namespaces.
proof fn lemma_marker_tables_distinct()
    ensures
        mount_frame_table() != crate::reli::last_frame_table(),
{
    reveal_strlit("mountm-frame");
    reveal_strlit("last-frame");
    assert("mountm-frame"@.len() == 12);
    assert("last-frame"@.len() == 10);
    assert("mountm-frame"@ != "last-frame"@);
}

/// Law: a unit both previously active and present in the snapshot is left
/// untouched — neither started nor stopped — provided the snapshot names
/// it at no more than one live mount point.  A unit that appears at two
/// live mount points is started again at its second sighting, so such
/// inputs are left out here.
pub proof fn lemma_reconcile_untouched(
    active: Seq<String>,
    snap: Seq<MountPointInfo>,
    n: Seq<char>,
)
    requires
        active_contains(active, n),
        seen_before(snap, n, snap.len() as int),
        forall|p: int, q: int|
            0 <= p < q < snap.len() && snap_live(snap[p]) && snap_live(snap[q]) && snap_name(
                #[trigger] snap[p],
            ) == n ==> snap_name(#[trigger] snap[q]) != n,
    ensures
        !starts_prefix(active, snap, snap.len() as int).contains(n),
        !stops_prefix(active, snap, active.len() as int).contains(n),
{
    lemma_starts_skip_present_active(active, snap, n, snap.len() as int);
    lemma_stops_skip_seen(active, snap, n, active.len() as int);
}

proof fn lemma_starts_skip_present_active(
    active: Seq<String>,
    snap: Seq<MountPointInfo>,
    n: Seq<char>,
    k: int,
)
    requires
        active_contains(active, n),
        forall|p: int, q: int|
            0 <= p < q < snap.len() && snap_live(snap[p]) && snap_live(snap[q]) && snap_name(
                #[trigger] snap[p],
            ) == n ==> snap_name(#[trigger] snap[q]) != n,
        0 <= k <= snap.len(),
    ensures
        !starts_prefix(active, snap, k).contains(n),
    decreases k,
{
    if k > 0 {
        lemma_starts_skip_present_active(active, snap, n, k - 1);
        let prev = starts_prefix(active, snap, k - 1);
        if should_start(active, snap, k - 1) {
            if snap_name(snap[k - 1]) == n {
                assert(!first_live_before(snap, k - 1, k - 1));
                let p = choose|p: int|
                    0 <= p < k - 1 && snap_live(snap[p]) && snap_name(snap[p]) == snap_name(
                        snap[k - 1],
                    );
                assert(snap_name(snap[p]) == n && snap_name(snap[k - 1]) == n);
                assert(false);
            }
            let cur = prev.push(snap_name(snap[k - 1]));
            if cur.contains(n) {
                let t = choose|t: int| 0 <= t < cur.len() && cur[t] == n;
                if t < prev.len() {
                    assert(prev.contains(n));
                } else {
                    assert(snap_name(snap[k - 1]) == n);
                }
                assert(false);
            }
        }
    }
}

proof fn lemma_stops_skip_seen(
    active: Seq<String>,
    snap: Seq<MountPointInfo>,
    n: Seq<char>,
    i: int,
)
    requires
        seen_before(snap, n, snap.len() as int),
        0 <= i <= active.len(),
    ensures
        !stops_prefix(active, snap, i).contains(n),
    decreases i,
{
    if i > 0 {
        lemma_stops_skip_seen(active, snap, n, i - 1);
        let prev = stops_prefix(active, snap, i - 1);
        if !seen_before(snap, active[i - 1]@, snap.len() as int) {
            let cur = prev.push(active[i - 1]@);
            if cur.contains(n) {
                let t = choose|t: int| 0 <= t < cur.len() && cur[t] == n;
                if t < prev.len() {
                    assert(prev.contains(n));
                } else {
                    assert(active[i - 1]@ == n);
                }
                assert(false);
            }
        }
    }
}



} // verus!
