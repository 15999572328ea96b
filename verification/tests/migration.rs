use portus_runtime::migration::{migration_plan, MigrationInfo};

#[test]
fn migration_plan_is_ordered_and_marks_backup_boundary() {
    let plan = migration_plan();
    assert_eq!(
        plan,
        vec![
            MigrationInfo { version: 1, backup_required: false },
            MigrationInfo { version: 2, backup_required: true },
            MigrationInfo { version: 3, backup_required: true },
            MigrationInfo { version: 4, backup_required: true },
            MigrationInfo { version: 5, backup_required: true },
            MigrationInfo { version: 6, backup_required: true },
            MigrationInfo { version: 7, backup_required: true },
            MigrationInfo { version: 8, backup_required: true },
        ]
    );
}

use portus_runtime::migration::{
    check_read_only_version, classify_readiness, integrity_result, pending_migrations,
    schema_version_from_history, DatabaseReadiness, SchemaError, LATEST_SCHEMA_VERSION,
};

#[test]
fn migration_history_gap_is_reported_without_repair() {
    assert!(matches!(schema_version_from_history(false, &vec![]), Ok(0)));
    assert!(matches!(schema_version_from_history(true, &vec![1, 2, 3]), Ok(3)));
    assert!(matches!(
        schema_version_from_history(true, &vec![1, 3]),
        Err(SchemaError::InvalidMigrationHistory { expected: 2, found: 3 })
    ));
}

#[test]
fn pending_migrations_back_up_existing_databases_only() {
    let fresh = pending_migrations(0).unwrap();
    assert_eq!(fresh.len(), 8);
    assert!(fresh.iter().all(|s| !s.backup_first));
    let old = pending_migrations(1).unwrap();
    assert_eq!(old.len(), 7);
    assert_eq!(old[0].version, 2);
    assert!(old.iter().all(|s| s.backup_first));
    assert!(pending_migrations(LATEST_SCHEMA_VERSION).unwrap().is_empty());
    assert!(matches!(
        pending_migrations(9),
        Err(SchemaError::UnsupportedSchemaVersion { found: 9, latest: 8 })
    ));
}

#[test]
fn read_only_and_readiness_checks() {
    assert!(matches!(check_read_only_version(0), Err(SchemaError::ReadOnlySchemaMissing)));
    assert!(check_read_only_version(8).is_ok());
    assert!(integrity_result("ok").is_ok());
    assert!(matches!(integrity_result("row 4 missing"), Err(SchemaError::IntegrityFailure(_))));
    assert_eq!(classify_readiness(&Ok(8), true), DatabaseReadiness::Ready);
    assert_eq!(classify_readiness(&Ok(8), false), DatabaseReadiness::IntegrityFailure);
    assert_eq!(classify_readiness(&Ok(9), true), DatabaseReadiness::UnsupportedSchema);
}
