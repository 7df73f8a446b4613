//! The library's station set, closed at build time: the unit collection and
//! the mount manager, composed into the one root station that recovery fans
//! out to.  Constructing the set registers each member with the
//! coordinator's station registry, so the registered entries and the
//! fan-out cover exactly the same components; because the compensation
//! phases are separate hooks, every member finishes phase one before any
//! member runs phase two.

use crate::history::ReliHistory;
use crate::mount::{
    mng_persisted, mount_frame_of, mount_frame_table, mount_ids_unique, mount_mng_table,
    mount_rec_of, mount_state_mapped, spec_compensate_mark, MountManager, MountRe,
};
use crate::records::RecordView;
use crate::reli::Reliability;
use crate::station::{LastFrame, ReStation, ReStationKind};
use crate::unit::{
    unit_base_table, unit_ids_unique, unit_load_table, unit_mapped, unit_persisted,
    unit_pps_table, UnitDb, UnitRe,
};
use vstd::prelude::*;
use vstd::string::StringExecFns;

verus! {

/// The unit tables and the mount-state table are distinct namespaces.
proof fn lemma_station_tables_distinct()
    ensures
        unit_base_table() != mount_mng_table(),
        unit_load_table() != mount_mng_table(),
        unit_pps_table() != mount_mng_table(),
{
    reveal_strlit("unit-base");
    reveal_strlit("unit-load");
    reveal_strlit("unit-pps");
    reveal_strlit("mountmng");
    assert("unit-base"@.len() == 9);
    assert("unit-load"@.len() == 9);
    assert("unit-pps"@.len() == 8);
    assert("mountmng"@.len() == 8);
    assert("unit-pps"@[0] == 'u');
    assert("mountmng"@[0] == 'm');
    assert("unit-base"@ != "mountmng"@);
    assert("unit-load"@ != "mountmng"@);
    assert("unit-pps"@ != "mountmng"@);
}

/// The closed set of the library's stations, as one composite.
#[derive(Debug)]
pub struct CoreStation {
    /// The unit collection.
    pub units: UnitDb,
    /// The mount manager.
    pub mounts: MountManager,
}

impl CoreStation {
    /// Build the station set and record each member in the coordinator's
    /// registry: recovery's fan-out reaches exactly what is registered.
    pub fn new(reli: &mut Reliability) -> (r: CoreStation)
        requires
            old(reli).history.wf(),
        ensures
            final(reli).history.wf(),
            UnitRe::registered(final(reli).history),
            MountRe::registered(final(reli).history),
            r.units.wf(),
            r.units.units@.len() == 0,
            r.mounts.mngs@.len() == 0,
            r.mounts.merged_trigger is None,
            r.mounts.to_trigger is None,
            forall|n: Seq<char>|
                old(reli).history.has_table(n) ==> final(reli).history.has_table(n),
            old(reli).station.stations@.len() == 0 ==> ({
                &&& final(reli).station.stations@.len() == 2
                &&& final(reli).station.stations@[0].name@ == "units"@
                &&& final(reli).station.stations@[0].kind == ReStationKind::Unit
                &&& final(reli).station.stations@[1].name@ == "mount-manager"@
                &&& final(reli).station.stations@[1].kind == ReStationKind::Manager
            }),
    {
        let units = UnitDb::new(reli);
        let mounts = MountManager::new(reli);
        reli.station_register(&"units".to_owned(), ReStationKind::Unit);
        let ghost mid = reli.station.stations@;
        reli.station_register(&"mount-manager".to_owned(), ReStationKind::Manager);
        proof {
            reveal_strlit("units");
            reveal_strlit("mount-manager");
            assert("units"@.len() == 5);
            assert("mount-manager"@.len() == 13);
            assert("units"@ != "mount-manager"@);
            if old(reli).station.stations@.len() == 0 {
                assert(mid.len() == 1 && mid[0].name@ == "units"@);
                assert(!crate::station::station_names_contain(mid, "mount-manager"@));
            }
        }
        CoreStation { units, mounts }
    }
}

impl ReStation for CoreStation {
    /// No member holds external resources of its own; re-arming the
    /// monitor's event source is the reactor driver's concern.
    fn input_rebuild(&mut self, hist: &mut ReliHistory)
        ensures
            *final(hist) == *old(hist),
            *final(self) == *old(self),
    {
        self.units.input_rebuild(hist);
        self.mounts.input_rebuild(hist);
    }

    /// Phase one for every member: the units have nothing to merge, the
    /// mount manager marks the named unit's trigger records.
    fn db_compensate_last(
        &mut self,
        hist: &mut ReliHistory,
        lframe: LastFrame,
        lunit: Option<&String>,
    )
        ensures
            *final(hist) == *old(hist),
            final(self).units == old(self).units,
            final(self).mounts.rentry == old(self).mounts.rentry,
            final(self).mounts.mngs == old(self).mounts.mngs,
            final(self).mounts.to_trigger == old(self).mounts.to_trigger,
            final(self).mounts.merged_view() == spec_compensate_mark(
                old(self).mounts.merged_view(),
                if old(hist).has_table(mount_frame_table()) {
                    mount_frame_of(old(hist).table_at(mount_frame_table()))
                } else {
                    None
                },
                match lunit {
                    Some(u) => Some(u@),
                    None => None,
                },
            ),
    {
        self.units.db_compensate_last(hist, lframe, lunit);
        self.mounts.db_compensate_last(hist, lframe, lunit);
    }

    /// Phase two for every member: the units have nothing to re-run, the
    /// mount manager notes the named unit for re-triggering.
    fn do_compensate_last(
        &mut self,
        hist: &mut ReliHistory,
        lframe: LastFrame,
        lunit: Option<&String>,
    )
        ensures
            *final(hist) == *old(hist),
            final(self).units == old(self).units,
            final(self).mounts.rentry == old(self).mounts.rentry,
            final(self).mounts.mngs == old(self).mounts.mngs,
            final(self).mounts.merged_trigger == old(self).mounts.merged_trigger,
            final(self).mounts.trigger_view() == spec_compensate_mark(
                old(self).mounts.trigger_view(),
                if old(hist).has_table(mount_frame_table()) {
                    mount_frame_of(old(hist).table_at(mount_frame_table()))
                } else {
                    None
                },
                match lunit {
                    Some(u) => Some(u@),
                    None => None,
                },
            ),
    {
        self.units.do_compensate_last(hist, lframe, lunit);
        self.mounts.do_compensate_last(hist, lframe, lunit);
    }

    /// Every member maps its records back: unit load states and queue
    /// memberships, and every mount unit's state.
    fn db_map(&mut self, hist: &ReliHistory, reload: bool)
        ensures
            final(self).units.rentry == old(self).units.rentry,
            final(self).units.units@.len() == old(self).units.units@.len(),
            forall|i: int|
                0 <= i < old(self).units.units@.len() ==> unit_mapped(
                    old(self).units.units@[i],
                    final(self).units.units@[i],
                    *hist,
                    reload,
                ),
            final(self).mounts.rentry == old(self).mounts.rentry,
            final(self).mounts.merged_trigger == old(self).mounts.merged_trigger,
            final(self).mounts.to_trigger == old(self).mounts.to_trigger,
            final(self).mounts.mngs@.len() == old(self).mounts.mngs@.len(),
            forall|i: int|
                0 <= i < old(self).mounts.mngs@.len() ==> final(self).mounts.mngs@[i].unit_id
                    == old(self).mounts.mngs@[i].unit_id && final(self).mounts.mngs@[i].state == (
                if hist.has_table(mount_mng_table()) && (mount_rec_of(
                    hist.table_at(mount_mng_table()),
                    old(self).mounts.mngs@[i].unit_id@,
                ) is Some) {
                    mount_state_mapped(
                        hist.table_at(mount_mng_table()),
                        old(self).mounts.mngs@[i].unit_id@,
                        old(self).mounts.mngs@[i].state,
                    )
                } else {
                    old(self).mounts.mngs@[i].state
                }),
    {
        self.units.db_map(hist, reload);
        self.mounts.db_map(hist, reload);
    }

    /// Every member inserts its state: afterwards, with distinct ids and
    /// the tables registered, every unit's and every mount unit's records
    /// mirror the state held in memory.
    fn db_insert(&self, hist: &mut ReliHistory)
        ensures
            unit_ids_unique(self.units.units@) && old(hist).has_table(unit_base_table()) && old(
                hist,
            ).has_table(unit_load_table()) && old(hist).has_table(unit_pps_table()) ==> forall|
                j: int,
            |
                0 <= j < self.units.units@.len() ==> unit_persisted(
                    #[trigger] self.units.units@[j],
                    *final(hist),
                ),
            mount_ids_unique(self.mounts.mngs@) && old(hist).has_table(mount_mng_table())
                ==> forall|j: int|
                0 <= j < self.mounts.mngs@.len() ==> mng_persisted(
                    #[trigger] self.mounts.mngs@[j],
                    *final(hist),
                ),
    {
        self.units.db_insert(hist);
        let ghost h1 = *hist;
        self.mounts.db_insert(hist);
        proof {
            lemma_station_tables_distinct();
            if unit_ids_unique(self.units.units@) && h1.has_table(unit_base_table())
                && h1.has_table(unit_load_table()) && h1.has_table(unit_pps_table())
                && h1.has_table(mount_mng_table()) {
                let bi = h1.idx_of(unit_base_table());
                let li = h1.idx_of(unit_load_table());
                let pi = h1.idx_of(unit_pps_table());
                let mi = h1.idx_of(mount_mng_table());
                assert(h1.tables@[bi].name@ == unit_base_table());
                assert(h1.tables@[li].name@ == unit_load_table());
                assert(h1.tables@[pi].name@ == unit_pps_table());
                assert(h1.tables@[mi].name@ == mount_mng_table());
                assert(bi != mi && li != mi && pi != mi);
                assert(hist.tables@[bi] == h1.tables@[bi]);
                assert(hist.tables@[li] == h1.tables@[li]);
                assert(hist.tables@[pi] == h1.tables@[pi]);
                assert(hist.idx_of(unit_base_table()) == bi);
                assert(hist.idx_of(unit_load_table()) == li);
                assert(hist.idx_of(unit_pps_table()) == pi);
                assert(hist.table_at(unit_base_table()) == h1.table_at(unit_base_table()));
                assert(hist.table_at(unit_load_table()) == h1.table_at(unit_load_table()));
                assert(hist.table_at(unit_pps_table()) == h1.table_at(unit_pps_table()));
            }
            if !h1.has_table(mount_mng_table()) {
                assert(*hist == h1);
            }
        }
    }

    /// One-time event-source registration of every member.
    fn register_ex(&mut self) {
        self.units.register_ex();
        self.mounts.register_ex();
    }
}

} // verus!
