use sysmaster_core::error::Error;
use sysmaster_core::records::{UeConfigInstall, UeConfigUnit, UnitLoadState, UnitType};
use sysmaster_core::reli::{
    bflag_path_get, hpath_path_get, reli_debug_get_switch, subdir_cur_get, subdir_next_get,
    ReliConf, Reliability,
};
use sysmaster_core::spawn::ServiceSpawn;
use sysmaster_core::uefile::{template_name_of, UnitFile, UnitFileData};
use sysmaster_core::unit::{unit_name_to_type, UnitDb, UnitRelations};

fn fresh_reli() -> Reliability {
    Reliability::new(&ReliConf::new(), String::from("/tmp/relihome"), false)
}

#[test]
fn reli_conf_setters() {
    let mut conf = ReliConf::new();
    conf.set_map_size(1024);
    conf.set_max_dbs(32);
    assert_eq!(conf.map_size, Some(1024));
    assert_eq!(conf.max_dbs, Some(32));
}

#[test]
fn reli_markers() {
    let mut reli = fresh_reli();
    assert_eq!(reli.last_unit(), None);
    assert_eq!(reli.last_frame(), None);
    reli.set_last_unit("a.service");
    reli.set_last_frame2(4, 3);
    assert_eq!(reli.last_unit(), Some(String::from("a.service")));
    assert_eq!(reli.last_frame(), Some((4, Some(3), None)));
    reli.set_last_frame1(7);
    assert_eq!(reli.last_frame(), Some((7, None, None)));
    reli.set_last_frame(1, Some(2), Some(3));
    assert_eq!(reli.last_frame(), Some((1, Some(2), Some(3))));
    reli.clear_last_unit();
    reli.clear_last_frame();
    assert_eq!(reli.last_unit(), None);
    assert_eq!(reli.last_frame(), None);
}

#[test]
fn reli_flags_and_fds() {
    let mut reli = fresh_reli();
    assert!(!reli.enable());
    assert!(reli.last_ignore());
    reli.set_enable(true);
    assert!(reli.enable());
    assert!(!reli.last_ignore());
    assert_eq!(reli.fd_take(9), 9);
    assert!(reli.fd_cloexec(9, true).is_ok());
    assert!(reli.compact_body().is_ok());
    reli.debug_enable();
    reli.debug_clear();
    reli.debug_panic();
    reli.debug_sleep();
    assert!(reli_debug_get_switch());
}

#[test]
fn generation_paths() {
    assert_eq!(subdir_cur_get(false), "a");
    assert_eq!(subdir_cur_get(true), "b");
    assert_eq!(subdir_next_get(false), "b");
    assert_eq!(subdir_next_get(true), "a");
    assert_eq!(hpath_path_get("/run/home"), "/run/home/reliability.mdb");
    assert_eq!(bflag_path_get("/run/home/reliability.mdb"), "/run/home/reliability.mdb/b.effect");
}

#[test]
fn error_names() {
    assert_eq!(Error::UnitActionECanceled.as_str(), "unit action canceled");
    assert_eq!(Error::NotFound.as_str(), "not found");
}

#[test]
fn unit_names_declare_types() {
    assert_eq!(unit_name_to_type("a.service"), UnitType::UnitService);
    assert_eq!(unit_name_to_type("a.socket"), UnitType::UnitSocket);
    assert_eq!(unit_name_to_type("a.target"), UnitType::UnitTarget);
    assert_eq!(unit_name_to_type("a.mount"), UnitType::UnitMount);
    assert_eq!(unit_name_to_type("a.device"), UnitType::UnitTypeInvalid);
}

#[test]
fn unit_entry_basics() {
    let mut reli = fresh_reli();
    let mut db = UnitDb::new(&mut reli);
    let idx = db.attach_unit(&mut reli.history, String::from("web.service"), UnitType::UnitService);
    assert_eq!(db.units[idx].base.id(), "web.service");
    assert_eq!(db.units[idx].base.unit_type(), UnitType::UnitService);
    assert_eq!(db.units[idx].load.load_state(), UnitLoadState::Stub);
    assert!(!db.units[idx].load.in_load_queue());
    assert!(!db.units[idx].load.in_target_dep_queue());
    let again = db.attach_unit(&mut reli.history, String::from("web.service"), UnitType::UnitService);
    assert_eq!(again, idx);
    assert_eq!(db.find_unit(&String::from("web.service")), Some(idx));
    assert_eq!(db.find_unit(&String::from("nope.service")), None);
}

#[test]
fn unit_config_description_and_deps() {
    let mut reli = fresh_reli();
    let mut db = UnitDb::new(&mut reli);
    let idx = db.attach_unit(&mut reli.history, String::from("web.service"), UnitType::UnitService);
    let unit = &mut db.units[idx];
    assert_eq!(unit.load.get_description(), None);
    let mut conf = UeConfigUnit::new();
    conf.description = String::from("a web server");
    conf.wants = vec![String::from("net.target")];
    conf.after = vec![String::from("net.target")];
    let deps = unit.load.load_unit_confs(conf, UeConfigInstall::new());
    assert_eq!(deps.len(), 10);
    assert_eq!(deps[0].relation, UnitRelations::UnitWants);
    assert_eq!(deps[0].units, vec![String::from("net.target")]);
    assert_eq!(deps[1].relation, UnitRelations::UnitAfter);
    assert_eq!(deps[9].relation, UnitRelations::UnitConflicts);
    assert!(deps[9].units.is_empty());
    assert_eq!(unit.load.get_description(), Some(String::from("a web server")));
    assert_eq!(unit.load.get_documentation(), None);
}

#[test]
fn unit_start_limit_gate() {
    let mut reli = fresh_reli();
    let mut db = UnitDb::new(&mut reli);
    let idx = db.attach_unit(&mut reli.history, String::from("web.service"), UnitType::UnitService);
    let unit = &mut db.units[idx];
    unit.limit.init_from_config(3, 1);
    assert!(unit.test_start_limit());
    assert!(!unit.test_start_limit());
    assert!(unit.limit.hit());
}

#[test]
fn rentry_records_roundtrip() {
    let mut reli = fresh_reli();
    let db = UnitDb::new(&mut reli);
    let id = String::from("web.service");
    db.rentry.base_insert(&mut reli.history, &id, UnitType::UnitService);
    assert_eq!(db.rentry.base_get(&reli.history, &id), Some(UnitType::UnitService));
    db.rentry.load_insert(&mut reli.history, &id, UnitLoadState::Loaded);
    assert_eq!(db.rentry.load_get(&reli.history, &id), Some(UnitLoadState::Loaded));
    db.rentry.cgroup_insert(&mut reli.history, &id, "/sys/fs/cgroup/web");
    assert_eq!(
        db.rentry.cgroup_get(&reli.history, &id),
        Some(String::from("/sys/fs/cgroup/web"))
    );
    db.rentry.child_insert(&mut reli.history, &id, &vec![10, 20]);
    assert_eq!(db.rentry.child_get(&reli.history, &id), vec![10, 20]);
    let mut conf = UeConfigUnit::new();
    conf.description = String::from("d");
    db.rentry.conf_insert(&mut reli.history, &id, &conf, &UeConfigInstall::new());
    let (got_unit, _got_install) = db.rentry.conf_get(&reli.history, &id).unwrap();
    assert_eq!(got_unit.description, "d");
}

#[test]
fn service_spawn_bookkeeping() {
    let mut sp = ServiceSpawn::new(30);
    assert_eq!(sp.watchdog_timer(), 30);
    assert_eq!(sp.get_socket_fd(), -1);
    assert_eq!(sp.get_runtime_directory(), None);
    sp.set_socket_fd(42);
    assert_eq!(sp.collect_socket_fds(vec![1, 2]), vec![42]);
    sp.set_socket_fd(-1);
    assert_eq!(sp.collect_socket_fds(vec![1, 2]), vec![1, 2]);
}

#[test]
fn unit_file_maps_and_template_fallback() {
    let mut data = UnitFileData::new();
    data.build_id_fragment(
        &String::from("getty@tty1.service"),
        Vec::new(),
        vec![String::from("/lib/units/getty@.service")],
    );
    assert_eq!(
        data.get_unit_id_fragment_pathbuf(&String::from("getty@tty1.service")),
        vec![String::from("/lib/units/getty@.service")]
    );
    data.build_id_fragment(
        &String::from("web.service"),
        vec![String::from("/lib/units/web.service")],
        Vec::new(),
    );
    assert_eq!(
        data.get_unit_id_fragment_pathbuf(&String::from("web.service")),
        vec![String::from("/lib/units/web.service")]
    );
    data.build_id_dropin(&String::from("web.service"), "wants", vec![String::from("a.service")]);
    data.build_id_dropin(&String::from("web.service"), "requires", vec![String::from("b.service")]);
    assert_eq!(
        data.get_unit_wants_symlink_units(&String::from("web.service")),
        vec![String::from("a.service")]
    );
    assert_eq!(
        data.get_unit_requires_symlink_units(&String::from("web.service")),
        vec![String::from("b.service")]
    );
    assert!(data.get_unit_wants_symlink_units(&String::from("other.service")).is_empty());
}

#[test]
fn lookup_path_change_detection() {
    let mut data = UnitFileData::new();
    assert!(data.lookup_paths_updated(&vec![1u128, 2u128]));
    assert!(!data.lookup_paths_updated(&vec![1u128, 2u128]));
    assert!(data.lookup_paths_updated(&vec![1u128, 3u128]));
}

#[test]
fn template_names() {
    assert_eq!(template_name_of("getty@tty1.service"), Some(String::from("getty@.service")));
    assert_eq!(template_name_of("web.service"), None);
}

#[test]
fn unit_file_component_rebuilds_on_change() {
    let mut file = UnitFile::new();
    file.build_name_map(
        String::from("web.service"),
        false,
        &vec![5u128],
        vec![String::from("/lib/units/web.service")],
        Vec::new(),
        Vec::new(),
        Vec::new(),
    );
    assert_eq!(
        file.get_unit_id_fragment_pathbuf(&String::from("web.service")),
        vec![String::from("/lib/units/web.service")]
    );
}
