//! The station contract: any component that takes part in crash recovery
//! implements it, and the reliability coordinator drives every hook in a
//! fixed order during `recover`.
//!
//! A composite station fans each hook out to all of its parts, so the
//! coordinator needs only one root station; the library's own closed set
//! of stations builds that composite and records each member in the
//! registry below, keeping fan-out and registration in step.  Because the
//! two compensation phases are separate hooks, every part finishes the
//! first phase before any part runs the second, exactly as the protocol
//! demands.  Unimplemented hooks default to no-ops.

use crate::history::{same_names, ReliHistory};
use vstd::prelude::*;

verus! {

/// What kind of component a station is, recorded at registration.
#[derive(Clone, Copy, Debug, PartialEq, Eq, Structural)]
pub enum ReStationKind {
    /// A unit instance or the collection of them.
    Unit,
    /// A unit-type manager or another singleton component.
    Manager,
}

/// The last-operation marker: the frame tags and the unit the interrupted
/// action concerned.
pub type LastFrame = Option<(u32, Option<u32>, Option<u32>)>;

/// The recovery hooks of one station.  Every hook that touches the history
/// leaves it well formed and registers no table of its own: registration is
/// over before recovery begins.
pub trait ReStation {
    /// Recreate external, non-persisted resources; no data implications.
    fn input_rebuild(&mut self, hist: &mut ReliHistory)
        requires
            old(hist).wf(),
        ensures
            final(hist).wf(),
            same_names(final(hist).tables@, old(hist).tables@),
    {
    }

    /// First compensation phase: merge or mark state from the marker of the
    /// interrupted action, without externally visible effects.
    fn db_compensate_last(
        &mut self,
        hist: &mut ReliHistory,
        lframe: LastFrame,
        lunit: Option<&String>,
    )
        requires
            old(hist).wf(),
        ensures
            final(hist).wf(),
            same_names(final(hist).tables@, old(hist).tables@),
    {
    }

    /// Second compensation phase: re-run the externally visible part of the
    /// interrupted action.
    fn do_compensate_last(
        &mut self,
        hist: &mut ReliHistory,
        lframe: LastFrame,
        lunit: Option<&String>,
    )
        requires
            old(hist).wf(),
        ensures
            final(hist).wf(),
            same_names(final(hist).tables@, old(hist).tables@),
    {
    }

    /// Load the station's in-memory fields from its persisted records; when
    /// `reload` is set, fields that survive a reload are skipped.
    fn db_map(&mut self, hist: &ReliHistory, reload: bool)
        requires
            hist.wf(),
    {
    }

    /// Insert the station's current in-memory state into its records.
    fn db_insert(&self, hist: &mut ReliHistory)
        requires
            old(hist).wf(),
        ensures
            final(hist).wf(),
            same_names(final(hist).tables@, old(hist).tables@),
    {
    }

    /// One-time registration of the station's event sources, once after
    /// attach.
    fn register_ex(&mut self) {
    }
}

/// One registered station: its name and kind.  The stations themselves live
/// with their owners; the registry records that they exist, so that fan-out
/// can be checked for exhaustiveness.
#[derive(Debug)]
pub struct StationEntry {
    /// The registration name.
    pub name: String,
    /// The registered kind.
    pub kind: ReStationKind,
}

/// Whether some entry carries the name.
pub open spec fn station_names_contain(s: Seq<StationEntry>, n: Seq<char>) -> bool {
    exists|i: int| 0 <= i < s.len() && s[i].name@ == n
}

/// The bookkeeping of registered stations.
#[derive(Debug)]
pub struct ReliStation {
    /// All registrations, in order.
    pub stations: Vec<StationEntry>,
}

impl ReliStation {
    /// An empty registry.
    pub fn new() -> (r: ReliStation)
        ensures
            r.stations@.len() == 0,
    {
        ReliStation { stations: Vec::new() }
    }

    /// Record a station under its name; registering the same name again
    /// only updates the kind, and a fresh name is appended.
    pub fn station_register(&mut self, name: &String, kind: ReStationKind)
        ensures
            exists|i: int|
                0 <= i < final(self).stations@.len() && final(self).stations@[i].name@ == name@
                    && (#[trigger] final(self).stations@[i]).kind == kind,
            !station_names_contain(old(self).stations@, name@) ==> ({
                &&& final(self).stations@.len() == old(self).stations@.len() + 1
                &&& final(self).stations@[old(self).stations@.len() as int].name@ == name@
                &&& final(self).stations@[old(self).stations@.len() as int].kind == kind
                &&& forall|j: int|
                    0 <= j < old(self).stations@.len() ==> final(self).stations@[j]
                        == old(self).stations@[j]
            }),
            station_names_contain(old(self).stations@, name@) ==> final(self).stations@.len()
                == old(self).stations@.len(),
    {
        let mut i: usize = 0;
        let n = self.stations.len();
        while i < n
            invariant
                n == self.stations@.len(),
                *self == *old(self),
                i <= n,
                forall|j: int| 0 <= j < i ==> self.stations@[j].name@ != name@,
            decreases n - i,
        {
            if self.stations[i].name == *name {
                self.stations[i].kind = kind;
                proof {
                    assert(final(self).stations@[i as int].name@ == name@);
                }
                return;
            }
            i = i + 1;
        }
        self.stations.push(StationEntry { name: name.clone(), kind });
        proof {
            let t = self.stations@;
            assert(t[t.len() - 1].name@ == name@ && t[t.len() - 1].kind == kind);
        }
    }

    /// Drop every registration: the repeating-protection clear.
    pub fn clear(&mut self)
        ensures
            final(self).stations@.len() == 0,
    {
        self.stations = Vec::new();
    }
}

} // verus!
