use sysmaster_core::records::{Record, UnitLoadState};
use sysmaster_core::store::KvTable;

fn load_rec(s: UnitLoadState) -> Record {
    Record::Load(s)
}

fn reopen(t: KvTable) -> KvTable {
    let mut fresh = KvTable { db: t.db, cache: Vec::new(), buffer: Vec::new(), switch: None };
    fresh.import();
    fresh
}

fn get_load(t: &KvTable, key: &str) -> Option<UnitLoadState> {
    match t.get(&String::from(key)) {
        Some(Record::Load(s)) => Some(*s),
        _ => None,
    }
}

#[test]
fn crash_before_flush_yields_prior_state() {
    let mut t = KvTable::new();
    t.insert(&String::from("a"), load_rec(UnitLoadState::Loaded));
    t.flush(false);

    // A batch of writes over both generations, stopped before any flush.
    t.insert(&String::from("a"), load_rec(UnitLoadState::Error));
    t.switch_set(Some(true));
    t.insert(&String::from("b"), load_rec(UnitLoadState::Stub));
    t.switch_set(Some(false));
    t.insert(&String::from("c"), load_rec(UnitLoadState::Merged));
    t.switch_set(None);

    let reopened = reopen(t);
    assert_eq!(get_load(&reopened, "a"), Some(UnitLoadState::Loaded));
    assert_eq!(get_load(&reopened, "b"), None);
    assert_eq!(get_load(&reopened, "c"), None);
}

#[test]
fn crash_after_flush_yields_new_state_in_full() {
    let mut t = KvTable::new();
    t.insert(&String::from("a"), load_rec(UnitLoadState::Loaded));
    t.insert(&String::from("b"), load_rec(UnitLoadState::Stub));
    t.flush(false);

    let reopened = reopen(t);
    assert_eq!(get_load(&reopened, "a"), Some(UnitLoadState::Loaded));
    assert_eq!(get_load(&reopened, "b"), Some(UnitLoadState::Stub));
}

#[test]
fn interleavings_never_mix_generations() {
    // Several scripted interleavings of writes and switches; each run must
    // reopen to exactly the pre-batch state.
    let scripts: Vec<Vec<(&str, bool)>> = vec![
        vec![("x", false), ("y", true)],
        vec![("x", true), ("y", false), ("z", true)],
        vec![("x", false), ("y", false)],
        vec![("x", true), ("y", true), ("x", false)],
    ];
    for script in scripts {
        let mut t = KvTable::new();
        t.insert(&String::from("base"), load_rec(UnitLoadState::Loaded));
        t.flush(false);
        for (key, to_buffer) in script {
            t.switch_set(Some(to_buffer));
            t.insert(&String::from(key), load_rec(UnitLoadState::Error));
        }
        let reopened = reopen(t);
        assert_eq!(get_load(&reopened, "base"), Some(UnitLoadState::Loaded));
        assert_eq!(get_load(&reopened, "x"), None);
        assert_eq!(get_load(&reopened, "y"), None);
        assert_eq!(get_load(&reopened, "z"), None);
    }
}

#[test]
fn buffer_flush_switches_generation() {
    let mut t = KvTable::new();
    t.insert(&String::from("a"), load_rec(UnitLoadState::Loaded));
    t.flush(false);

    // Work in progress goes to the buffer, then the buffer generation is
    // flushed: a fresh recovery pass must read the just-flushed data.
    t.switch_set(Some(true));
    t.insert(&String::from("a"), load_rec(UnitLoadState::Merged));
    t.flush(true);

    let reopened = reopen(t);
    assert_eq!(get_load(&reopened, "a"), Some(UnitLoadState::Merged));
}

#[test]
fn buffer_overlays_cache_while_routed() {
    let mut t = KvTable::new();
    t.insert(&String::from("a"), load_rec(UnitLoadState::Loaded));
    t.switch_set(Some(true));
    t.insert(&String::from("a"), load_rec(UnitLoadState::Error));
    assert_eq!(get_load(&t, "a"), Some(UnitLoadState::Error));
    t.switch_set(Some(false));
    assert_eq!(get_load(&t, "a"), Some(UnitLoadState::Loaded));
}

#[test]
fn remove_and_data_clear() {
    let mut t = KvTable::new();
    t.insert(&String::from("a"), load_rec(UnitLoadState::Loaded));
    t.remove(&String::from("a"));
    assert_eq!(get_load(&t, "a"), None);
    t.insert(&String::from("a"), load_rec(UnitLoadState::Loaded));
    t.data_clear();
    assert_eq!(get_load(&t, "a"), None);
}

#[test]
fn export_pushes_cache_to_durable() {
    let mut t = KvTable::new();
    t.insert(&String::from("a"), load_rec(UnitLoadState::NotFound));
    t.export();
    let reopened = reopen(t);
    assert_eq!(get_load(&reopened, "a"), Some(UnitLoadState::NotFound));
}
