use sysmaster_core::history::{NamedTable, ReliHistory};
use sysmaster_core::mount::{
    monitor_dispatch_begin, monitor_dispatch_end, mount_point_to_unit_name, reconcile_mounts,
    MountManager, MountMng, MountPointInfo, MountRe,
};
use sysmaster_core::records::{MountReFrame, MountState, UnitActiveState};
use sysmaster_core::reli::{ReliConf, Reliability};
use sysmaster_core::station::ReStation;
use sysmaster_core::store::KvTable;

fn fresh_reli() -> Reliability {
    Reliability::new(&ReliConf::new(), String::from("/tmp/relihome"), false)
}

#[test]
fn test_monitor() {
}

#[test]
fn test_mount_set_state() {
    let mut tm = MountMng::new(String::from("tmp.mount"));
    let _ = tm.set_state(MountState::Mounted, false);
    assert_eq!(tm.state(), MountState::Mounted)
}

#[test]
fn test_mount_enter_dead() {
    let mut tm = MountMng::new(String::from("tmp.mount"));
    let _ = tm.enter_dead(false);
    assert_eq!(tm.state(), MountState::Dead)
}

#[test]
fn test_mount_enter_mounted() {
    let mut tm = MountMng::new(String::from("tmp.mount"));
    let _ = tm.enter_mounted(false);
    assert_eq!(tm.state(), MountState::Mounted)
}

#[test]
fn mount_state_projection() {
    let tm = MountMng::new(String::from("tmp.mount"));
    assert_eq!(tm.mount_state_to_unit_state(), UnitActiveState::InActive);
    let mut tm2 = MountMng::new(String::from("tmp.mount"));
    let change = tm2.enter_mounted(true).unwrap();
    assert_eq!(change.old_state, UnitActiveState::InActive);
    assert_eq!(change.new_state, UnitActiveState::Active);
    assert_eq!(tm2.get_state(), "Mounted");
}

#[test]
fn mount_start_check_rejected_when_limited() {
    let mut reli = fresh_reli();
    let re = MountRe::new(&mut reli);
    let mut tm = MountMng::new(String::from("tmp.mount"));
    let _ = tm.enter_mounted(false);
    let (res, change) = tm.start_check(&re, &mut reli.history, false);
    assert!(res.is_err());
    assert_eq!(tm.state(), MountState::Dead);
    assert!(change.is_some());
    // The rejected start is a notified transition, so it was persisted.
    assert_eq!(re.mng_get(&reli.history, &String::from("tmp.mount")), Some(MountState::Dead));
    let mut tm2 = MountMng::new(String::from("tmp.mount"));
    let (res2, change2) = tm2.start_check(&re, &mut reli.history, true);
    assert_eq!(res2, Ok(false));
    assert!(change2.is_none());
}

#[test]
fn notified_transition_is_persisted() {
    let mut reli = fresh_reli();
    let re = MountRe::new(&mut reli);
    let mut tm = MountMng::new(String::from("a.mount"));
    let change = tm.set_state_update(&re, &mut reli.history, MountState::Mounted, true);
    assert!(change.is_some());
    assert_eq!(re.mng_get(&reli.history, &String::from("a.mount")), Some(MountState::Mounted));
    // Without notify, nothing is persisted.
    let _ = tm.set_state_update(&re, &mut reli.history, MountState::Dead, false);
    assert_eq!(re.mng_get(&reli.history, &String::from("a.mount")), Some(MountState::Mounted));
}

#[test]
fn mount_point_names() {
    assert_eq!(mount_point_to_unit_name("/"), "-.mount");
    assert_eq!(mount_point_to_unit_name("/home/a"), "home-a.mount");
    assert_eq!(mount_point_to_unit_name("/a"), "a.mount");
}

fn info(mp: &str, fstype: &str) -> MountPointInfo {
    MountPointInfo { mount_point: String::from(mp), fstype: String::from(fstype) }
}

#[test]
fn reconcile_starts_new_stops_gone_keeps_common() {
    let active = vec![String::from("a.mount"), String::from("b.mount")];
    let snapshot = vec![info("/a", "ext4"), info("/c", "ext4")];
    let (starts, stops) = reconcile_mounts(&active, &snapshot);
    assert_eq!(starts, vec![String::from("c.mount")]);
    assert_eq!(stops, vec![String::from("b.mount")]);
}

#[test]
fn reconcile_skips_autofs() {
    let active: Vec<String> = Vec::new();
    let snapshot = vec![info("/a", "autofs"), info("/b", "ext4")];
    let (starts, stops) = reconcile_mounts(&active, &snapshot);
    assert_eq!(starts, vec![String::from("b.mount")]);
    assert!(stops.is_empty());
}

#[test]
fn compensation_runs_twice_same_state() {
    let mut reli = fresh_reli();
    let mut mgr = MountManager::new(&mut reli);
    mgr.rentry.set_last_frame(&mut reli.history, MountReFrame::Monitor);
    let unit = String::from("a.mount");
    let lframe = Some((4u32, Some(3u32), None));

    mgr.db_compensate_last(&mut reli.history, lframe, Some(&unit));
    mgr.do_compensate_last(&mut reli.history, lframe, Some(&unit));
    let once_merge = mgr.merged_trigger.clone();
    let once_trigger = mgr.to_trigger.clone();

    mgr.db_compensate_last(&mut reli.history, lframe, Some(&unit));
    mgr.do_compensate_last(&mut reli.history, lframe, Some(&unit));
    assert_eq!(mgr.merged_trigger, once_merge);
    assert_eq!(mgr.to_trigger, once_trigger);
    assert_eq!(mgr.merged_trigger, Some(String::from("a.mount")));
    assert_eq!(mgr.to_trigger, Some(String::from("a.mount")));
}

#[test]
fn compensation_without_marker_does_nothing() {
    let mut reli = fresh_reli();
    let mut mgr = MountManager::new(&mut reli);
    let unit = String::from("a.mount");
    mgr.db_compensate_last(&mut reli.history, None, Some(&unit));
    assert_eq!(mgr.merged_trigger, None);
}

#[test]
fn dispatch_brackets_actions_with_markers() {
    let mut reli = fresh_reli();
    let re = MountRe::new(&mut reli);
    let active = vec![String::from("a.mount")];
    let snapshot = vec![info("/a", "ext4"), info("/b", "ext4")];
    let (starts, stops) = monitor_dispatch_begin(&mut reli, &re, &active, &snapshot);
    assert_eq!(starts, vec![String::from("b.mount")]);
    assert!(stops.is_empty());
    // Both frame markers stay set while the actions are performed.
    assert_eq!(reli.last_frame(), Some((4, Some(3), None)));
    assert_eq!(re.last_frame(&reli.history), Some(MountReFrame::Monitor));
    for unit in &starts {
        reli.set_last_unit(unit);
        assert_eq!(reli.last_unit(), Some(unit.clone()));
        reli.clear_last_unit();
    }
    monitor_dispatch_end(&mut reli, &re);
    assert_eq!(reli.last_frame(), None);
    assert_eq!(re.last_frame(&reli.history), None);
    assert_eq!(reli.last_unit(), None);
}

#[test]
fn crash_mid_action_is_compensated() {
    // A dispatch decides to start b.mount; the process stops abruptly
    // while that action is in flight.  No explicit flush runs: the markers
    // are durable the moment they are set.
    let mut reli = fresh_reli();
    let mgr = MountManager::new(&mut reli);
    let active: Vec<String> = Vec::new();
    let snapshot = vec![info("/b", "ext4")];
    let (starts, _stops) = monitor_dispatch_begin(&mut reli, &mgr.rentry, &active, &snapshot);
    assert_eq!(starts, vec![String::from("b.mount")]);
    reli.set_last_unit(&starts[0]);
    // Abrupt stop here, before the action completes and before any clear.
    let mut reli2 = fresh_reli();
    let mut mgr2 = MountManager::new(&mut reli2);
    reli2.history = crash_restart(reli);
    reli2.recover(&mut mgr2, false);
    assert_eq!(mgr2.merged_trigger, Some(String::from("b.mount")));
    assert_eq!(mgr2.to_trigger, Some(String::from("b.mount")));
}

#[test]
fn completed_dispatch_leaves_no_marker() {
    let mut reli = fresh_reli();
    let mgr = MountManager::new(&mut reli);
    let active: Vec<String> = Vec::new();
    let snapshot = vec![info("/b", "ext4")];
    let (starts, _stops) = monitor_dispatch_begin(&mut reli, &mgr.rentry, &active, &snapshot);
    for unit in &starts {
        reli.set_last_unit(unit);
        reli.clear_last_unit();
    }
    monitor_dispatch_end(&mut reli, &mgr.rentry);
    let mut reli2 = fresh_reli();
    let mut mgr2 = MountManager::new(&mut reli2);
    reli2.history = crash_restart(reli);
    reli2.recover(&mut mgr2, false);
    assert_eq!(reli2.last_unit(), None);
    assert_eq!(mgr2.merged_trigger, None);
    assert_eq!(mgr2.to_trigger, None);
}

fn crash_restart(reli: Reliability) -> ReliHistory {
    let mut tables: Vec<NamedTable> = Vec::new();
    for nt in reli.history.tables {
        tables.push(NamedTable {
            name: nt.name,
            table: KvTable {
                db: nt.table.db,
                cache: Vec::new(),
                buffer: Vec::new(),
                switch: None,
            },
        });
    }
    ReliHistory { tables, switch: None }
}

#[test]
fn marker_survives_crash_and_drives_compensation() {
    // First life: the monitor's action begins, both markers go down, the
    // store reaches the durable tier, and the process stops abruptly
    // before the action completes.
    let mut reli = fresh_reli();
    let mgr = MountManager::new(&mut reli);
    reli.set_last_unit("a.mount");
    reli.set_last_frame2(4, 3);
    mgr.rentry.set_last_frame(&mut reli.history, MountReFrame::Monitor);
    // No flush: every marker reaches the durable tier the moment it is set.

    // Second life: recovery restores the markers and hands them to the
    // stations; the mount manager owes a re-trigger of the named unit.
    let mut reli2 = fresh_reli();
    let mut mgr2 = MountManager::new(&mut reli2);
    reli2.history = crash_restart(reli);
    assert_eq!(reli2.last_unit(), None);
    reli2.recover(&mut mgr2, false);
    assert_eq!(reli2.last_unit(), Some(String::from("a.mount")));
    assert_eq!(reli2.last_frame(), Some((4, Some(3), None)));
    assert_eq!(mgr2.merged_trigger, Some(String::from("a.mount")));
    assert_eq!(mgr2.to_trigger, Some(String::from("a.mount")));
}

#[test]
fn completed_action_leaves_nothing_to_compensate() {
    let mut reli = fresh_reli();
    let mgr = MountManager::new(&mut reli);
    reli.set_last_unit("a.mount");
    reli.set_last_frame2(4, 3);
    mgr.rentry.set_last_frame(&mut reli.history, MountReFrame::Monitor);
    mgr.rentry.clear_last_frame(&mut reli.history);
    reli.clear_last_frame();
    reli.clear_last_unit();

    let mut reli2 = fresh_reli();
    let mut mgr2 = MountManager::new(&mut reli2);
    reli2.history = crash_restart(reli);
    reli2.recover(&mut mgr2, false);
    assert_eq!(reli2.last_unit(), None);
    assert_eq!(mgr2.merged_trigger, None);
    assert_eq!(mgr2.to_trigger, None);
}

#[test]
fn mount_state_persists_and_maps_back() {
    let mut reli = fresh_reli();
    let mut mgr = MountManager::new(&mut reli);
    mgr.mngs.push(MountMng::new(String::from("a.mount")));
    let _ = mgr.mngs[0].enter_mounted(false);
    mgr.db_insert(&mut reli.history);
    let _ = mgr.mngs[0].enter_dead(false);
    assert_eq!(mgr.mngs[0].state(), MountState::Dead);
    mgr.db_map(&reli.history, false);
    assert_eq!(mgr.mngs[0].state(), MountState::Mounted);
}
