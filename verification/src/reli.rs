//! The reliability coordinator: the single point every component calls to
//! persist or recover state.
//!
//! It owns the history registry and the station bookkeeping, keeps the
//! transient last-operation marker, and drives the mandatory boot sequence
//! `recover`: import, input rebuild, compensation, data map, and the final
//! make-consistent flush.  The home directory holds two on-disk generations
//! `a` and `b`; a flag file selects the current one, and preparing those
//! directories is the caller's concern before construction.

use crate::error::Error;
use crate::history::{same_names, updated_at, ReliHistory};
use crate::records::{Record, RecordView};
use crate::station::{LastFrame, ReStation, ReStationKind, ReliStation};
use crate::store::StoreModel;
use vstd::prelude::*;
use vstd::string::StringExecFns;

verus! {

/// The name of the coordinator's singleton last-unit marker table.
pub open spec fn last_unit_table() -> Seq<char> {
    "last-unit"@
}

/// The name of the coordinator's singleton last-frame marker table.
pub open spec fn last_frame_table() -> Seq<char> {
    "last-frame"@
}

fn lu_tname() -> (r: String)
    ensures
        r@ == last_unit_table(),
{
    "last-unit".to_owned()
}

fn lf_tname() -> (r: String)
    ensures
        r@ == last_frame_table(),
{
    "last-frame".to_owned()
}

fn marker_key() -> (r: String)
    ensures
        r@ == "0"@,
{
    "0".to_owned()
}

/// The unit the marker table names, if any.
pub open spec fn marker_unit_of(m: StoreModel) -> Option<Seq<char>> {
    match m.read_of("0"@) {
        Some(RecordView::LastUnit(u)) => Some(u),
        _ => None,
    }
}

/// The frame the marker table holds, if any.
pub open spec fn marker_frame_of(m: StoreModel) -> LastFrame {
    match m.read_of("0"@) {
        Some(RecordView::LastFrame(a, b, c)) => Some((a, b, c)),
        _ => None,
    }
}

/// Configuration of a reliability instance: sizing hints for the durable
/// engine underneath; the in-memory model keeps them only to hand on.
#[derive(Clone, Copy, Debug, PartialEq, Eq, Structural)]
pub struct ReliConf {
    /// The requested map size, if any.
    pub map_size: Option<usize>,
    /// The requested maximum number of tables, if any.
    pub max_dbs: Option<u32>,
}

impl ReliConf {
    /// A configuration with nothing requested.
    pub fn new() -> (r: ReliConf)
        ensures
            r.map_size is None,
            r.max_dbs is None,
    {
        ReliConf { map_size: None, max_dbs: None }
    }

    /// Request a map size.
    pub fn set_map_size(&mut self, map_size: usize)
        ensures
            final(self).map_size == Some(map_size),
            final(self).max_dbs == old(self).max_dbs,
    {
        self.map_size = Some(map_size);
    }

    /// Request a maximum number of tables.
    pub fn set_max_dbs(&mut self, max_dbs: u32)
        ensures
            final(self).max_dbs == Some(max_dbs),
            final(self).map_size == old(self).map_size,
    {
        self.max_dbs = Some(max_dbs);
    }
}

/// The reliability instance.
#[derive(Debug)]
pub struct Reliability {
    /// Whether recovery data is being recorded.
    pub enable: bool,
    /// Whether the `b` generation was current when the instance opened.
    pub b_exist: bool,
    /// The home directory the instance was opened with.
    pub hdir: String,
    /// The transient marker: the unit the in-flight action concerns.
    pub last_unit: Option<String>,
    /// The transient marker: which action is in flight.
    pub last_frame: LastFrame,
    /// All durable tables, by name.
    pub history: ReliHistory,
    /// The station bookkeeping.
    pub station: ReliStation,
}

impl Reliability {
    /// A fresh instance over a prepared home directory.  The caller has
    /// created `<hdir>/reliability.mdb/{a,b}` and read the flag file; an
    /// unrecoverable failure there is fatal before this point is reached.
    pub fn new(conf: &ReliConf, hdir: String, b_exist: bool) -> (r: Reliability)
        ensures
            !r.enable,
            r.b_exist == b_exist,
            r.hdir@ == hdir@,
            r.last_unit is None,
            r.last_frame is None,
            r.history.wf(),
            r.history.has_table(last_unit_table()),
            r.history.has_table(last_frame_table()),
            r.history.table_at(last_unit_table()) == StoreModel::empty_model(),
            r.history.table_at(last_frame_table()) == StoreModel::empty_model(),
            r.station.stations@.len() == 0,
    {
        let _ = conf;
        let mut reli = Reliability {
            enable: false,
            b_exist,
            hdir,
            last_unit: None,
            last_frame: None,
            history: ReliHistory::new(),
            station: ReliStation::new(),
        };
        reli.history.db_register(&lu_tname());
        reli.history.db_register(&lf_tname());
        reli
    }

    /// Set the enable flag.
    pub fn set_enable(&mut self, enable: bool)
        ensures
            *final(self) == (Reliability { enable, ..*old(self) }),
    {
        self.enable = enable;
    }

    /// The enable flag.
    pub fn enable(&self) -> (r: bool)
        ensures
            r == self.enable,
    {
        self.enable
    }

    /// Write a marker record and push its table to the durable tier at
    /// once: a marker is created transactionally around a compensatable
    /// action, so it must be durable the moment it is set.
    fn marker_put(&mut self, name: &String, rec: Record)
        requires
            old(self).history.wf(),
        ensures
            final(self).history.wf(),
            *final(self) == (Reliability { history: final(self).history, ..*old(self) }),
            old(self).history.has_table(name@) ==> updated_at(
                old(self).history,
                final(self).history,
                name@,
                old(self).history.table_at(name@).do_insert("0"@, rec@).do_export(),
            ),
            !old(self).history.has_table(name@) ==> final(self).history == old(self).history,
    {
        self.history.table_insert(name, &marker_key(), rec);
        self.history.table_export(name);
    }

    /// Remove a marker record and push its table to the durable tier at
    /// once: clearing is the other half of the transactional bracket.
    fn marker_clear(&mut self, name: &String)
        requires
            old(self).history.wf(),
        ensures
            final(self).history.wf(),
            *final(self) == (Reliability { history: final(self).history, ..*old(self) }),
            old(self).history.has_table(name@) ==> updated_at(
                old(self).history,
                final(self).history,
                name@,
                old(self).history.table_at(name@).do_remove("0"@).do_export(),
            ),
            !old(self).history.has_table(name@) ==> final(self).history == old(self).history,
    {
        self.history.table_remove(name, &marker_key());
        self.history.table_export(name);
    }

    /// Set the last-unit marker: the named unit's action is in flight;
    /// persisted, so an abrupt stop leaves it to be found at start-up.
    pub fn set_last_unit(&mut self, unit_id: &str)
        requires
            old(self).history.wf(),
        ensures
            final(self).history.wf(),
            final(self).last_unit matches Some(u) && u@ == unit_id@,
            final(self).last_frame == old(self).last_frame,
            final(self).enable == old(self).enable,
            final(self).b_exist == old(self).b_exist,
            final(self).hdir == old(self).hdir,
            final(self).station == old(self).station,
            old(self).history.has_table(last_unit_table()) ==> updated_at(
                old(self).history,
                final(self).history,
                last_unit_table(),
                old(self).history.table_at(last_unit_table()).do_insert(
                    "0"@,
                    RecordView::LastUnit(unit_id@),
                ).do_export(),
            ),
            !old(self).history.has_table(last_unit_table()) ==> final(self).history == old(
                self,
            ).history,
    {
        self.last_unit = Some(unit_id.to_owned());
        self.marker_put(&lu_tname(), Record::LastUnit(unit_id.to_owned()));
    }

    /// Clear the last-unit marker: the action completed; committed as one
    /// barrier.
    pub fn clear_last_unit(&mut self)
        requires
            old(self).history.wf(),
        ensures
            final(self).history.wf(),
            final(self).last_unit is None,
            final(self).last_frame == old(self).last_frame,
            final(self).enable == old(self).enable,
            final(self).b_exist == old(self).b_exist,
            final(self).hdir == old(self).hdir,
            final(self).station == old(self).station,
            old(self).history.has_table(last_unit_table()) ==> updated_at(
                old(self).history,
                final(self).history,
                last_unit_table(),
                old(self).history.table_at(last_unit_table()).do_remove("0"@).do_export(),
            ),
            !old(self).history.has_table(last_unit_table()) ==> final(self).history == old(
                self,
            ).history,
    {
        self.last_unit = None;
        self.marker_clear(&lu_tname());
        self.history.commit();
    }

    /// Set the last-frame marker from all three tags; persisted, so an
    /// abrupt stop leaves it to be found at start-up.
    pub fn set_last_frame(&mut self, f1: u32, f2: Option<u32>, f3: Option<u32>)
        requires
            old(self).history.wf(),
        ensures
            final(self).history.wf(),
            final(self).last_frame == Some((f1, f2, f3)),
            final(self).last_unit == old(self).last_unit,
            final(self).enable == old(self).enable,
            final(self).b_exist == old(self).b_exist,
            final(self).hdir == old(self).hdir,
            final(self).station == old(self).station,
            old(self).history.has_table(last_frame_table()) ==> updated_at(
                old(self).history,
                final(self).history,
                last_frame_table(),
                old(self).history.table_at(last_frame_table()).do_insert(
                    "0"@,
                    RecordView::LastFrame(f1, f2, f3),
                ).do_export(),
            ),
            !old(self).history.has_table(last_frame_table()) ==> final(self).history == old(
                self,
            ).history,
    {
        self.last_frame = Some((f1, f2, f3));
        self.marker_put(&lf_tname(), Record::LastFrame(f1, f2, f3));
    }

    /// Set the last-frame marker from one tag.
    pub fn set_last_frame1(&mut self, f1: u32)
        requires
            old(self).history.wf(),
        ensures
            final(self).history.wf(),
            final(self).last_frame == Some((f1, None::<u32>, None::<u32>)),
            final(self).last_unit == old(self).last_unit,
            final(self).enable == old(self).enable,
            final(self).b_exist == old(self).b_exist,
            final(self).hdir == old(self).hdir,
            final(self).station == old(self).station,
            old(self).history.has_table(last_frame_table()) ==> updated_at(
                old(self).history,
                final(self).history,
                last_frame_table(),
                old(self).history.table_at(last_frame_table()).do_insert(
                    "0"@,
                    RecordView::LastFrame(f1, None, None),
                ).do_export(),
            ),
            !old(self).history.has_table(last_frame_table()) ==> final(self).history == old(
                self,
            ).history,
    {
        self.set_last_frame(f1, None, None);
    }

    /// Set the last-frame marker from two tags.
    pub fn set_last_frame2(&mut self, f1: u32, f2: u32)
        requires
            old(self).history.wf(),
        ensures
            final(self).history.wf(),
            final(self).last_frame == Some((f1, Some(f2), None::<u32>)),
            final(self).last_unit == old(self).last_unit,
            final(self).enable == old(self).enable,
            final(self).b_exist == old(self).b_exist,
            final(self).hdir == old(self).hdir,
            final(self).station == old(self).station,
            old(self).history.has_table(last_frame_table()) ==> updated_at(
                old(self).history,
                final(self).history,
                last_frame_table(),
                old(self).history.table_at(last_frame_table()).do_insert(
                    "0"@,
                    RecordView::LastFrame(f1, Some(f2), None),
                ).do_export(),
            ),
            !old(self).history.has_table(last_frame_table()) ==> final(self).history == old(
                self,
            ).history,
    {
        self.set_last_frame(f1, Some(f2), None);
    }

    /// Clear the last-frame marker: the action completed; committed as one
    /// barrier.
    pub fn clear_last_frame(&mut self)
        requires
            old(self).history.wf(),
        ensures
            final(self).history.wf(),
            final(self).last_frame is None,
            final(self).last_unit == old(self).last_unit,
            final(self).enable == old(self).enable,
            final(self).b_exist == old(self).b_exist,
            final(self).hdir == old(self).hdir,
            final(self).station == old(self).station,
            old(self).history.has_table(last_frame_table()) ==> updated_at(
                old(self).history,
                final(self).history,
                last_frame_table(),
                old(self).history.table_at(last_frame_table()).do_remove("0"@).do_export(),
            ),
            !old(self).history.has_table(last_frame_table()) ==> final(self).history == old(
                self,
            ).history,
    {
        self.last_frame = None;
        self.marker_clear(&lf_tname());
        self.history.commit();
    }

    /// Restore the markers from their imported tables: what is found here
    /// names the action that did not complete.
    fn last_restore(&mut self)
        requires
            old(self).history.wf(),
        ensures
            final(self).history == old(self).history,
            final(self).enable == old(self).enable,
            final(self).b_exist == old(self).b_exist,
            final(self).hdir == old(self).hdir,
            final(self).station == old(self).station,
            old(self).history.has_table(last_unit_table()) ==> (match marker_unit_of(
                old(self).history.table_at(last_unit_table()),
            ) {
                Some(u) => final(self).last_unit matches Some(s) && s@ == u,
                None => final(self).last_unit is None,
            }),
            !old(self).history.has_table(last_unit_table()) ==> final(self).last_unit is None,
            old(self).history.has_table(last_frame_table()) ==> final(self).last_frame
                == marker_frame_of(old(self).history.table_at(last_frame_table())),
            !old(self).history.has_table(last_frame_table()) ==> final(self).last_frame is None,
    {
        let lu = match self.history.table_get(&lu_tname(), &marker_key()) {
            Some(Record::LastUnit(u)) => Some(u.clone()),
            _ => None,
        };
        self.last_unit = lu;
        let lf = match self.history.table_get(&lf_tname(), &marker_key()) {
            Some(Record::LastFrame(a, b, c)) => Some((*a, *b, *c)),
            _ => None,
        };
        self.last_frame = lf;
    }

    /// The last-unit marker.
    pub fn last_unit(&self) -> (r: Option<String>)
        ensures
            match r {
                Some(u) => self.last_unit matches Some(m) && m@ == u@,
                None => self.last_unit is None,
            },
    {
        match &self.last_unit {
            Some(u) => Some(u.clone()),
            None => None,
        }
    }

    /// The last-frame marker.
    pub fn last_frame(&self) -> (r: LastFrame)
        ensures
            r == self.last_frame,
    {
        self.last_frame
    }

    /// Register a durable table under `name`; every component that needs
    /// durability does this once at start-up, before `recover` runs.
    pub fn history_db_register(&mut self, name: &String)
        requires
            old(self).history.wf(),
        ensures
            final(self).history.wf(),
            final(self).history.has_table(name@),
            final(self).history.table_at(name@) == StoreModel::empty_model(),
            *final(self) == (Reliability { history: final(self).history, ..*old(self) }),
            forall|n: Seq<char>|
                old(self).history.has_table(n) ==> final(self).history.has_table(n),
    {
        let ghost h0 = self.history;
        self.history.db_register(name);
        proof {
            assert forall|n: Seq<char>| h0.has_table(n) implies self.history.has_table(n) by {
                let i = choose|i: int| 0 <= i < h0.tables@.len() && h0.tables@[i].name@ == n;
                if n == name@ {
                } else {
                    assert(self.history.tables@[i] == h0.tables@[i]);
                }
            }
        }
    }

    /// Set a file descriptor's close-on-exec flag and record it; the
    /// in-memory model records nothing and always succeeds.
    pub fn fd_cloexec(&self, fd: i32, cloexec: bool) -> (r: Result<(), Error>)
        ensures
            r is Ok,
    {
        let _ = fd;
        let _ = cloexec;
        Ok(())
    }

    /// Take a recorded file descriptor away; the in-memory model hands the
    /// descriptor back unchanged.
    pub fn fd_take(&self, fd: i32) -> (r: i32)
        ensures
            r == fd,
    {
        fd
    }

    /// Record a station under `name`; registration must complete before
    /// `recover` runs.
    pub fn station_register(&mut self, name: &String, kind: ReStationKind)
        ensures
            *final(self) == (Reliability { station: final(self).station, ..*old(self) }),
            exists|i: int|
                0 <= i < final(self).station.stations@.len()
                    && final(self).station.stations@[i].name@ == name@
                    && (#[trigger] final(self).station.stations@[i]).kind == kind,
            !crate::station::station_names_contain(old(self).station.stations@, name@) ==> ({
                &&& final(self).station.stations@.len() == old(self).station.stations@.len() + 1
                &&& final(self).station.stations@[old(self).station.stations@.len() as int].name@
                    == name@
                &&& final(self).station.stations@[old(self).station.stations@.len() as int].kind
                    == kind
                &&& forall|j: int|
                    0 <= j < old(self).station.stations@.len() ==> final(self).station.stations@[j]
                        == old(self).station.stations@[j]
            }),
    {
        self.station.station_register(name, kind);
    }

    /// The mandatory boot sequence, re-entrant across process restarts:
    /// import durable state, restore the markers, rebuild external inputs,
    /// compensate the interrupted action the markers name, map data into
    /// memory, and make everything consistent again — at the end the
    /// durable tier of every table equals its committed cache.  When
    /// `reload` is set, only reload-variant fields are mapped and the
    /// buffer generation is flushed first.  The one station handed in is
    /// the root of the fan-out; the library's own closed station set, which
    /// registers exactly its members, composes them all.
    pub fn recover<S: ReStation>(&mut self, station: &mut S, reload: bool)
        requires
            old(self).history.wf(),
        ensures
            final(self).history.wf(),
            final(self).history.switch is None,
            same_names(final(self).history.tables@, old(self).history.tables@),
            final(self).enable == old(self).enable,
            final(self).b_exist == old(self).b_exist,
            final(self).hdir == old(self).hdir,
            old(self).history.has_table(last_frame_table()) ==> final(self).last_frame
                == marker_frame_of(old(self).history.table_at(last_frame_table()).do_import()),
            old(self).history.has_table(last_unit_table()) ==> (match marker_unit_of(
                old(self).history.table_at(last_unit_table()).do_import(),
            ) {
                Some(u) => final(self).last_unit matches Some(s) && s@ == u,
                None => final(self).last_unit is None,
            }),
            forall|i: int|
                0 <= i < final(self).history.tables@.len() ==> (#[trigger] final(self).history.tables@[i]).table@.db
                    == final(self).history.tables@[i].table@.cache,
    {
        self.history.import();
        proof {
            crate::history::lemma_same_names_lookup(old(self).history, self.history);
        }
        self.last_restore();
        self.input_rebuild(station);
        self.db_compensate(station);
        self.db_map(station, reload);
        self.make_consistent(station, reload);
    }

    /// Compact the durable store; the in-memory model has nothing to
    /// compact.
    pub fn compact_body(&self) -> (r: Result<(), Error>)
        ensures
            r is Ok,
    {
        Ok(())
    }

    /// Drop the data of every table, keeping all registrations.
    pub fn data_clear(&mut self)
        requires
            old(self).history.wf(),
        ensures
            final(self).history.wf(),
            same_names(final(self).history.tables@, old(self).history.tables@),
            *final(self) == (Reliability { history: final(self).history, ..*old(self) }),
            forall|i: int|
                0 <= i < old(self).history.tables@.len() ==> final(self).history.tables@[i].table@
                    == old(self).history.tables@[i].table@.do_data_clear(),
    {
        self.history.data_clear();
    }

    /// Drop every table and station registration: the repeating-protection
    /// clear.
    pub fn clear(&mut self)
        ensures
            final(self).history.wf(),
            final(self).history.tables@.len() == 0,
            final(self).station.stations@.len() == 0,
            *final(self) == (Reliability {
                history: final(self).history,
                station: final(self).station,
                ..*old(self)
            }),
    {
        self.history.clear();
        self.station.clear();
    }

    /// Whether last-marker data is to be ignored: it is, while recording is
    /// not enabled.
    pub fn last_ignore(&self) -> (r: bool)
        ensures
            r == !self.enable,
    {
        !self.enable
    }

    /// Debug hook: enable the recover process; compiled out of this build.
    pub fn debug_enable(&self)
    {
    }

    /// Debug hook: clear data short of the enable flag; compiled out of
    /// this build.
    pub fn debug_clear(&self)
    {
    }

    /// Debug hook: panic on request; compiled out of this build.
    pub fn debug_panic(&self)
    {
    }

    /// Debug hook: sleep on request; compiled out of this build.
    pub fn debug_sleep(&self)
    {
    }

    /// Step two of recovery: route writes to the buffer, let every station
    /// rebuild its external connections, then route back to the cache.
    fn input_rebuild<S: ReStation>(&mut self, station: &mut S)
        requires
            old(self).history.wf(),
        ensures
            final(self).history.wf(),
            same_names(final(self).history.tables@, old(self).history.tables@),
            *final(self) == (Reliability { history: final(self).history, ..*old(self) }),
    {
        self.history.switch_set(Some(true));
        station.input_rebuild(&mut self.history);
        self.history.switch_set(Some(false));
    }

    /// Step three of recovery: hand the last-operation marker to every
    /// station, first phase before second, then commit.
    fn db_compensate<S: ReStation>(&mut self, station: &mut S)
        requires
            old(self).history.wf(),
        ensures
            final(self).history.wf(),
            same_names(final(self).history.tables@, old(self).history.tables@),
            *final(self) == (Reliability { history: final(self).history, ..*old(self) }),
    {
        let lframe = self.last_frame;
        station.db_compensate_last(&mut self.history, lframe, self.last_unit.as_ref());
        station.do_compensate_last(&mut self.history, lframe, self.last_unit.as_ref());
        self.history.commit();
    }

    /// Step four of recovery: let every station map its persisted records
    /// into memory, with writes meanwhile routed to the buffer.
    fn db_map<S: ReStation>(&mut self, station: &mut S, reload: bool)
        requires
            old(self).history.wf(),
        ensures
            final(self).history.wf(),
            same_names(final(self).history.tables@, old(self).history.tables@),
            *final(self) == (Reliability { history: final(self).history, ..*old(self) }),
    {
        self.history.switch_set(Some(true));
        station.db_map(&self.history, reload);
        self.history.switch_set(Some(false));
    }

    /// Step five of recovery: flush the buffer first on a reload, have every
    /// station insert its current state, commit, then flush the cache
    /// generation unconditionally and release buffer routing.
    fn make_consistent<S: ReStation>(&mut self, station: &mut S, reload: bool)
        requires
            old(self).history.wf(),
        ensures
            final(self).history.wf(),
            final(self).history.switch is None,
            same_names(final(self).history.tables@, old(self).history.tables@),
            *final(self) == (Reliability { history: final(self).history, ..*old(self) }),
            forall|i: int|
                0 <= i < final(self).history.tables@.len() ==> (#[trigger] final(self).history.tables@[i]).table@.db
                    == final(self).history.tables@[i].table@.cache,
    {
        if reload {
            self.db_flush(station, true);
        }
        station.db_insert(&mut self.history);
        self.history.commit();
        self.db_flush(station, false);
    }

    /// Flush one generation to the durable tier: the buffer (with every
    /// station's state freshly inserted) when `reload` is set, else the
    /// cache, after which buffer routing is released.
    fn db_flush<S: ReStation>(&mut self, station: &mut S, reload: bool)
        requires
            old(self).history.wf(),
        ensures
            final(self).history.wf(),
            same_names(final(self).history.tables@, old(self).history.tables@),
            !reload ==> final(self).history.switch is None,
            !reload ==> forall|i: int|
                0 <= i < final(self).history.tables@.len() ==> (#[trigger] final(self).history.tables@[i]).table@.db
                    == final(self).history.tables@[i].table@.cache,
            *final(self) == (Reliability { history: final(self).history, ..*old(self) }),
    {
        if reload {
            self.history.switch_set(Some(true));
            station.db_insert(&mut self.history);
            self.history.flush(true);
            self.history.switch_set(Some(false));
        } else {
            self.history.flush(false);
            self.history.switch_set(None);
        }
    }
}

/// The debug switch; in this build it is always on.
pub fn reli_debug_get_switch() -> (r: bool)
    ensures
        r,
{
    true
}

/// The subdirectory the next generation will use: the one that is not
/// current.
pub fn subdir_next_get(b_exist: bool) -> (r: String)
    ensures
        b_exist ==> r@ == "a"@,
        !b_exist ==> r@ == "b"@,
{
    if b_exist {
        "a".to_owned()
    } else {
        "b".to_owned()
    }
}

/// The subdirectory the current generation uses, selected by the flag file.
pub fn subdir_cur_get(b_exist: bool) -> (r: String)
    ensures
        b_exist ==> r@ == "b"@,
        !b_exist ==> r@ == "a"@,
{
    if b_exist {
        "b".to_owned()
    } else {
        "a".to_owned()
    }
}

/// The path of the flag file that marks `b` as the current generation.
pub fn bflag_path_get(hpath: &str) -> (r: String)
    ensures
        r@ == hpath@ + "/b.effect"@,
{
    hpath.to_owned().concat("/b.effect")
}

/// The path of the history store under a home directory.
pub fn hpath_path_get(hdir: &str) -> (r: String)
    ensures
        r@ == hdir@ + "/reliability.mdb"@,
{
    hdir.to_owned().concat("/reliability.mdb")
}

} // verus!
