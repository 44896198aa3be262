use schema_migrations::controller::ensure_version_is_set;
use schema_migrations::infer::get_legacy_version;
use schema_migrations::registry::MigrationRegistry;
use schema_migrations::registry::MIGRATION_COUNT;

fn user_version(conn: &rusqlite::Connection) -> i64 {
    conn.query_row("PRAGMA user_version", [], |row| row.get(0))
        .unwrap()
}

fn schema_dump(conn: &rusqlite::Connection) -> Vec<(String, Option<String>)> {
    let mut stmt = conn
        .prepare("SELECT name, sql FROM sqlite_master ORDER BY name")
        .unwrap();
    let rows = stmt
        .query_map([], |row| Ok((row.get(0)?, row.get(1)?)))
        .unwrap();
    rows.map(|r| r.unwrap()).collect()
}

#[test]
fn validate_migrations_test() {
    assert!(MigrationRegistry::published().validate().is_ok());
}

#[test]
fn get_legacy_version_test() {
    for version in 0..=15 {
        let mut conn = rusqlite::Connection::open_in_memory().unwrap();
        let registry = MigrationRegistry::published();
        let steps: Vec<rusqlite_migration::M> = registry
            .steps()
            .iter()
            .map(|m| rusqlite_migration::M::up(m.sql))
            .collect();
        let migrations = rusqlite_migration::Migrations::new(steps);
        migrations.to_version(&mut conn, version).unwrap();
        assert_eq!(get_legacy_version(&conn), Ok(version), "on v={version}");
    }
}

#[test]
fn registry_shape_test() {
    let registry = MigrationRegistry::published();
    assert_eq!(registry.latest_version(), MIGRATION_COUNT);
    assert_eq!(registry.steps().len(), 15);
    for (i, step) in registry.steps().iter().enumerate() {
        assert_eq!(step.position, i + 1);
    }
}

#[test]
fn brand_new_store_runs_everything_once() {
    let conn = rusqlite::Connection::open_in_memory().unwrap();
    let registry = MigrationRegistry::published();

    assert_eq!(user_version(&conn), 0);
    ensure_version_is_set(&conn).unwrap();
    assert_eq!(user_version(&conn), 0, "an empty store infers version 0");

    assert_eq!(registry.apply(&conn, 0), Ok(15));
    assert_eq!(user_version(&conn), 15);

    ensure_version_is_set(&conn).unwrap();
    assert_eq!(user_version(&conn), 15);
    assert_eq!(registry.apply(&conn, 15), Ok(15));
    assert_eq!(user_version(&conn), 15);
}

#[test]
fn legacy_store_at_version_one_resumes_from_one() {
    let conn = rusqlite::Connection::open_in_memory().unwrap();
    let registry = MigrationRegistry::published();

    assert_eq!(registry.apply_to(&conn, 0, 1), Ok(1));
    conn.pragma_update(None, "user_version", 0).unwrap();

    assert_eq!(get_legacy_version(&conn), Ok(1));
    ensure_version_is_set(&conn).unwrap();
    assert_eq!(user_version(&conn), 1);

    assert_eq!(registry.apply(&conn, 1), Ok(15));
    assert_eq!(user_version(&conn), 15);
}

#[test]
fn second_apply_is_a_noop_with_identical_schema() {
    let conn = rusqlite::Connection::open_in_memory().unwrap();
    let registry = MigrationRegistry::published();

    assert_eq!(registry.apply(&conn, 0), Ok(15));
    let first = schema_dump(&conn);

    assert_eq!(registry.apply(&conn, 15), Ok(15));
    let second = schema_dump(&conn);

    assert_eq!(first, second);
    assert_eq!(user_version(&conn), 15);
}

#[test]
fn interrupted_apply_resumes_to_the_same_schema() {
    let interrupted = rusqlite::Connection::open_in_memory().unwrap();
    let registry = MigrationRegistry::published();

    assert_eq!(registry.apply_to(&interrupted, 0, 7), Ok(7));
    assert_eq!(user_version(&interrupted), 7);
    let resumed_from = user_version(&interrupted) as usize;
    assert_eq!(registry.apply(&interrupted, resumed_from), Ok(15));

    let straight = rusqlite::Connection::open_in_memory().unwrap();
    assert_eq!(registry.apply(&straight, 0), Ok(15));

    assert_eq!(schema_dump(&interrupted), schema_dump(&straight));
    assert_eq!(user_version(&interrupted), 15);
}

#[test]
fn failing_step_reports_its_position_and_leaves_marker() {
    let conn = rusqlite::Connection::open_in_memory().unwrap();
    let registry = MigrationRegistry::published();

    conn.execute_batch("CREATE TABLE encounter (id INTEGER PRIMARY KEY);")
        .unwrap();
    let err = registry.apply(&conn, 0).unwrap_err();
    assert_eq!(err.position, 1);
    assert_eq!(user_version(&conn), 0);
}

#[test]
fn failing_step_rolls_back_as_one_unit() {
    let conn = rusqlite::Connection::open_in_memory().unwrap();
    let registry = MigrationRegistry::published();

    // Step 1 creates `encounter` and then dies on `entity`, which already
    // exists: the whole batch must roll back, leaving no half-applied step.
    conn.execute_batch("CREATE TABLE entity (name TEXT);").unwrap();
    let err = registry.apply(&conn, 0).unwrap_err();
    assert_eq!(err.position, 1);

    let leftovers: i64 = conn
        .query_row(
            "SELECT count(*) FROM sqlite_master WHERE name = 'encounter'",
            [],
            |row| row.get(0),
        )
        .unwrap();
    assert_eq!(leftovers, 0);
    assert_eq!(user_version(&conn), 0);
}

#[test]
fn marker_never_decreases_across_startup_sequences() {
    let conn = rusqlite::Connection::open_in_memory().unwrap();
    let registry = MigrationRegistry::published();
    let mut last = user_version(&conn);

    for _ in 0..3 {
        ensure_version_is_set(&conn).unwrap();
        let after_ensure = user_version(&conn);
        assert!(after_ensure >= last);
        let current = after_ensure as usize;
        registry.apply(&conn, current).unwrap();
        let after_apply = user_version(&conn);
        assert!(after_apply >= after_ensure);
        last = after_apply;
    }
    assert_eq!(last, 15);
}
