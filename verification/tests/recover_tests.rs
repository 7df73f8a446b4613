use sysmaster_core::core_station::CoreStation;
use sysmaster_core::history::{NamedTable, ReliHistory};
use sysmaster_core::records::{UnitLoadState, UnitType};
use sysmaster_core::reli::{ReliConf, Reliability};
use sysmaster_core::station::{ReStation, ReStationKind};
use sysmaster_core::store::KvTable;
use sysmaster_core::unit::{UeBase, UnitDb, PPS_QUEUE_LOAD};

fn fresh_reli() -> Reliability {
    Reliability::new(&ReliConf::new(), String::from("/tmp/relihome"), false)
}

/// Carry only the durable tier of every table over into a fresh registry,
/// as an abrupt stop would.
fn crash_restart(reli: Reliability) -> ReliHistory {
    let mut tables: Vec<NamedTable> = Vec::new();
    for nt in reli.history.tables {
        tables.push(
            NamedTable {
                name: nt.name,
                table: KvTable {
                    db: nt.table.db,
                    cache: Vec::new(),
                    buffer: Vec::new(),
                    switch: None,
                },
            },
        );
    }
    ReliHistory { tables, switch: None }
}

#[test]
fn unit_reenqueued_after_recover() {
    // First life: attach a unit, enqueue it for loading, persist, stop.
    let mut reli = fresh_reli();
    let mut db = UnitDb::new(&mut reli);
    let idx = db.attach_unit(&mut reli.history, String::from("foo.service"), UnitType::UnitService);
    {
        let base = UeBase {
            id: db.units[idx].base.id.clone(),
            unit_type: db.units[idx].base.unit_type,
        };
        let unit = &mut db.units[idx];
        unit.load.set_in_load_queue(&db.rentry, &mut reli.history, &base, true);
    }
    assert!(db.units[idx].load.in_load_queue());
    reli.history.flush(false);

    // Second life: fresh components over the surviving durable state.
    let mut reli2 = fresh_reli();
    let mut db2 = UnitDb::new(&mut reli2);
    reli2.history = crash_restart(reli);
    let idx2 = db2.attach_unit(
        &mut reli2.history,
        String::from("foo.service"),
        UnitType::UnitService,
    );
    assert!(!db2.units[idx2].load.in_load_queue());

    reli2.recover(&mut db2, false);
    assert!(db2.units[idx2].load.in_load_queue());
    assert!(!db2.units[idx2].load.in_target_dep_queue());
}

#[test]
fn load_state_survives_recover() {
    let mut reli = fresh_reli();
    let mut db = UnitDb::new(&mut reli);
    let idx = db.attach_unit(&mut reli.history, String::from("bar.service"), UnitType::UnitService);
    {
        let base = UeBase {
            id: db.units[idx].base.id.clone(),
            unit_type: db.units[idx].base.unit_type,
        };
        let unit = &mut db.units[idx];
        unit.load.set_load_state(&db.rentry, &mut reli.history, &base, UnitLoadState::Loaded);
    }
    reli.history.flush(false);

    let mut reli2 = fresh_reli();
    let mut db2 = UnitDb::new(&mut reli2);
    reli2.history = crash_restart(reli);
    let idx2 = db2.attach_unit(
        &mut reli2.history,
        String::from("bar.service"),
        UnitType::UnitService,
    );
    assert_eq!(db2.units[idx2].load.load_state(), UnitLoadState::Stub);
    reli2.recover(&mut db2, false);
    assert_eq!(db2.units[idx2].load.load_state(), UnitLoadState::Loaded);
}

#[test]
fn pending_work_survives_a_second_crash_after_recover() {
    // The make-consistent step must write the re-enqueued membership back,
    // so a second crash still finds it.
    let mut reli = fresh_reli();
    let mut db = UnitDb::new(&mut reli);
    let idx = db.attach_unit(&mut reli.history, String::from("foo.service"), UnitType::UnitService);
    {
        let base = UeBase {
            id: db.units[idx].base.id.clone(),
            unit_type: db.units[idx].base.unit_type,
        };
        let unit = &mut db.units[idx];
        unit.load.set_in_load_queue(&db.rentry, &mut reli.history, &base, true);
    }
    reli.history.flush(false);

    let mut reli2 = fresh_reli();
    let mut db2 = UnitDb::new(&mut reli2);
    reli2.history = crash_restart(reli);
    let _ = db2.attach_unit(
        &mut reli2.history,
        String::from("foo.service"),
        UnitType::UnitService,
    );
    reli2.recover(&mut db2, false);

    let mut reli3 = fresh_reli();
    let mut db3 = UnitDb::new(&mut reli3);
    reli3.history = crash_restart(reli2);
    let idx3 = db3.attach_unit(
        &mut reli3.history,
        String::from("foo.service"),
        UnitType::UnitService,
    );
    reli3.recover(&mut db3, false);
    assert!(db3.units[idx3].load.in_load_queue());
}

#[test]
fn recover_releases_buffer_routing() {
    let mut reli = fresh_reli();
    let mut db = UnitDb::new(&mut reli);
    reli.recover(&mut db, false);
    assert_eq!(reli.history.switch(), None);
    reli.recover(&mut db, true);
    assert_eq!(reli.history.switch(), None);
}

#[test]
fn station_registry_bookkeeping() {
    let mut reli = fresh_reli();
    reli.station_register(&String::from("unit"), ReStationKind::Unit);
    reli.station_register(&String::from("mount"), ReStationKind::Manager);
    reli.station_register(&String::from("unit"), ReStationKind::Manager);
    assert_eq!(reli.station.stations.len(), 2);
    reli.clear();
    assert_eq!(reli.station.stations.len(), 0);
    assert_eq!(reli.history.tables.len(), 0);
}

#[test]
fn core_station_registers_its_members() {
    let mut reli = fresh_reli();
    let root = CoreStation::new(&mut reli);
    assert_eq!(reli.station.stations.len(), 2);
    assert_eq!(reli.station.stations[0].name, "units");
    assert_eq!(reli.station.stations[0].kind, ReStationKind::Unit);
    assert_eq!(reli.station.stations[1].name, "mount-manager");
    assert_eq!(reli.station.stations[1].kind, ReStationKind::Manager);
    assert!(root.units.units.is_empty());
    assert!(root.mounts.mngs.is_empty());
}

#[test]
fn recover_fans_out_to_every_registered_station() {
    // A unit's load-queue membership and a mount unit's state both survive
    // a crash through the one composite the registry describes.
    let mut reli = fresh_reli();
    let mut root = CoreStation::new(&mut reli);
    let idx = root.units.attach_unit(
        &mut reli.history,
        String::from("foo.service"),
        UnitType::UnitService,
    );
    {
        let base = UeBase {
            id: root.units.units[idx].base.id.clone(),
            unit_type: root.units.units[idx].base.unit_type,
        };
        let unit = &mut root.units.units[idx];
        unit.load.set_in_load_queue(&root.units.rentry, &mut reli.history, &base, true);
    }
    root.mounts.mngs.push(sysmaster_core::mount::MountMng::new(String::from("a.mount")));
    let _ = root.mounts.mngs[0].set_state_update(
        &root.mounts.rentry,
        &mut reli.history,
        sysmaster_core::records::MountState::Mounted,
        true,
    );
    reli.history.flush(false);

    let mut reli2 = fresh_reli();
    let mut root2 = CoreStation::new(&mut reli2);
    reli2.history = crash_restart(reli);
    let idx2 = root2.units.attach_unit(
        &mut reli2.history,
        String::from("foo.service"),
        UnitType::UnitService,
    );
    root2.mounts.mngs.push(sysmaster_core::mount::MountMng::new(String::from("a.mount")));
    reli2.recover(&mut root2, false);
    assert!(root2.units.units[idx2].load.in_load_queue());
    assert_eq!(root2.mounts.mngs[0].state(), sysmaster_core::records::MountState::Mounted);
}

#[test]
fn pps_mask_bit_operations() {
    let mut reli = fresh_reli();
    let db = UnitDb::new(&mut reli);
    let id = String::from("x.service");
    db.rentry.pps_insert(&mut reli.history, &id);
    assert!(!db.rentry.pps_contains(&reli.history, &id, PPS_QUEUE_LOAD));
    db.rentry.pps_set(&mut reli.history, &id, PPS_QUEUE_LOAD);
    assert!(db.rentry.pps_contains(&reli.history, &id, PPS_QUEUE_LOAD));
    db.rentry.pps_clear(&mut reli.history, &id, PPS_QUEUE_LOAD);
    assert!(!db.rentry.pps_contains(&reli.history, &id, PPS_QUEUE_LOAD));
}
