use schema_migrations::controller::baseline_for;
use schema_migrations::infer::get_legacy_version;
use schema_migrations::infer::infer_from_flags;
use schema_migrations::infer::probe_entries;
use schema_migrations::registry::MIGRATION_COUNT;

#[test]
fn no_marker_means_version_zero() {
    assert_eq!(infer_from_flags(&vec![]), 0);
    assert_eq!(infer_from_flags(&vec![false; 15]), 0);
}

#[test]
fn newest_marker_wins() {
    assert_eq!(infer_from_flags(&vec![true]), 1);
    assert_eq!(infer_from_flags(&vec![true, false]), 1);
    assert_eq!(infer_from_flags(&vec![true, true, true]), 3);
    let mut all = vec![true; 15];
    assert_eq!(infer_from_flags(&all), 15);
    all[14] = false;
    assert_eq!(infer_from_flags(&all), 14);
}

#[test]
fn a_present_marker_is_a_floor_even_with_gaps_below() {
    assert_eq!(infer_from_flags(&vec![false, true]), 2);
    assert_eq!(infer_from_flags(&vec![false, false, true, false]), 3);
}

#[test]
fn probe_table_stays_in_lockstep_with_registry() {
    let probes = probe_entries();
    assert_eq!(probes.len(), MIGRATION_COUNT);
    for (i, probe) in probes.iter().enumerate() {
        assert_eq!(probe.version, i + 1);
        assert!(!probe.table.is_empty());
        assert!(!probe.column.is_empty());
    }
    assert_eq!((probes[0].table, probes[0].column), ("encounter", "id"));
    assert_eq!((probes[14].table, probes[14].column), ("entity", "spec"));
}

#[test]
fn fresh_store_infers_zero() {
    let conn = rusqlite::Connection::open_in_memory().unwrap();
    assert_eq!(get_legacy_version(&conn), Ok(0));
}

#[test]
fn untracked_store_adopts_inferred_baseline() {
    assert_eq!(baseline_for(0, 7), 7);
    assert_eq!(baseline_for(0, 0), 0);
}

#[test]
fn tracked_store_keeps_its_marker() {
    assert_eq!(baseline_for(3, 9), 3);
    assert_eq!(baseline_for(15, 0), 15);
}
