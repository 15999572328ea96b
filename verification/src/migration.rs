//! Schema versioning: the ordered migration plan, reading the applied version
//! out of the migration history, choosing which migrations an open applies, and
//! classifying database readiness.
use vstd::prelude::*;
use vstd::string::StringSliceAdditionalSpecFns;
use crate::text::{ascii_bytes, str_equal};

verus! {

pub const LATEST_SCHEMA_VERSION: u32 = 8;

#[derive(Clone, Copy, Debug, PartialEq, Eq, Structural)]
pub struct MigrationInfo {
    pub version: u32,
    pub backup_required: bool,
}

/// Errors of schema handling that the state layer reports.
#[derive(Debug)]
pub enum SchemaError {
    UnsupportedSchemaVersion { found: u32, latest: u32 },
    InvalidMigrationHistory { expected: u32, found: u32 },
    IntegrityFailure(String),
    ReadOnlySchemaMissing,
}

#[derive(Clone, Copy, Debug, PartialEq, Eq, Structural)]
pub enum DatabaseReadiness {
    Ready,
    IntegrityFailure,
    UnsupportedSchema,
}

/// Migration `i` (0-based) installs version `i + 1`; every migration after the
/// first rewrites existing data and so needs a backup first.
pub open spec fn plan_entry(i: int) -> MigrationInfo {
    MigrationInfo { version: (i + 1) as u32, backup_required: i > 0 }
}

pub open spec fn plan_spec() -> Seq<MigrationInfo> {
    Seq::new(LATEST_SCHEMA_VERSION as nat, |i: int| plan_entry(i))
}

/// The ordered list of schema migrations.
pub fn migration_plan() -> (r: Vec<MigrationInfo>)
    ensures
        r@ == plan_spec(),
{
    let mut v: Vec<MigrationInfo> = Vec::new();
    let mut version: u32 = 1;
    while version <= LATEST_SCHEMA_VERSION
        invariant
            1 <= version <= LATEST_SCHEMA_VERSION + 1,
            v@.len() == version - 1,
            forall|i: int| 0 <= i < v@.len() ==> #[trigger] v@[i] == plan_entry(i),
        decreases LATEST_SCHEMA_VERSION + 1 - version,
    {
        v.push(MigrationInfo { version, backup_required: version > 1 });
        version = version + 1;
    }
    assert(v@ =~= plan_spec());
    v
}

/// Law: the plan starts at version 1, each step adds exactly one version, it
/// ends at the latest version, and only the very first migration runs without
/// a backup.
pub proof fn law_migration_plan_is_contiguous()
    ensures
        plan_spec().len() == LATEST_SCHEMA_VERSION,
        plan_spec()[0].version == 1,
        !plan_spec()[0].backup_required,
        plan_spec().last().version == LATEST_SCHEMA_VERSION,
        forall|i: int|
            0 < i < plan_spec().len() ==> (#[trigger] plan_spec()[i]).version == plan_spec()[i
                - 1].version + 1 && plan_spec()[i].backup_required,
{
}

/// The version the `i`-th (0-based) history row must hold; the count saturates
/// at `u32::MAX` as the stored versions do.
pub open spec fn expected_at(i: int) -> int {
    if i + 1 > u32::MAX {
        u32::MAX as int
    } else {
        i + 1
    }
}

/// The first position at or after `i` whose row breaks the sequence.
pub open spec fn first_gap(v: Seq<u32>, i: int) -> Option<int>
    decreases v.len() - i,
{
    if i < 0 || i >= v.len() {
        None
    } else if v[i] != expected_at(i) {
        Some(i)
    } else {
        first_gap(v, i + 1)
    }
}

/// The applied version read out of the sorted migration history: rows must be
/// exactly `1, 2, 3, ...`.
pub open spec fn history_version(table_exists: bool, v: Seq<u32>) -> Result<u32, SchemaError> {
    if !table_exists {
        Ok(0u32)
    } else {
        match first_gap(v, 0) {
            None => Ok((expected_at(v.len() as int) - 1) as u32),
            Some(i) => Err(
                SchemaError::InvalidMigrationHistory { expected: expected_at(i) as u32, found: v[i] },
            ),
        }
    }
}

pub open spec fn schema_error_eq(a: Result<u32, SchemaError>, b: Result<u32, SchemaError>) -> bool {
    match (a, b) {
        (Ok(x), Ok(y)) => x == y,
        (
            Err(SchemaError::InvalidMigrationHistory { expected: e1, found: f1 }),
            Err(SchemaError::InvalidMigrationHistory { expected: e2, found: f2 }),
        ) => e1 == e2 && f1 == f2,
        _ => false,
    }
}

/// Reads the applied schema version from the ascending list of recorded
/// migration versions; `table_exists` says whether the history table exists.
pub fn schema_version_from_history(table_exists: bool, versions: &Vec<u32>) -> (r: Result<
    u32,
    SchemaError,
>)
    ensures
        schema_error_eq(r, history_version(table_exists, versions@)),
{
    if !table_exists {
        return Ok(0);
    }
    let mut expected: u32 = 1;
    let mut i: usize = 0;
    while i < versions.len()
        invariant
            table_exists,
            i <= versions@.len(),
            expected == expected_at(i as int),
            first_gap(versions@, 0) == first_gap(versions@, i as int),
        decreases versions@.len() - i,
    {
        if versions[i] != expected {
            assert(first_gap(versions@, i as int) == Some(i as int));
            return Err(SchemaError::InvalidMigrationHistory { expected, found: versions[i] });
        }
        assert(first_gap(versions@, i as int) == first_gap(versions@, i + 1));
        expected = expected.saturating_add(1);
        i = i + 1;
    }
    assert(first_gap(versions@, i as int) is None);
    Ok(expected - 1)
}

/// One migration an open will apply, and whether it is preceded by a backup.
#[derive(Clone, Copy, Debug, PartialEq, Eq, Structural)]
pub struct MigrationStep {
    pub version: u32,
    pub backup_first: bool,
}

/// The migrations that bring a database at `current` to the latest version; a
/// fresh database (version 0) needs no backups.
pub open spec fn pending_spec(current: u32) -> Seq<MigrationStep> {
    Seq::new(
        (LATEST_SCHEMA_VERSION - current) as nat,
        |i: int|
            MigrationStep {
                version: (current + i + 1) as u32,
                backup_first: plan_entry(current + i).backup_required && current > 0,
            },
    )
}

/// Chooses the migrations to apply to a database at schema version `current`.
pub fn pending_migrations(current: u32) -> (r: Result<Vec<MigrationStep>, SchemaError>)
    ensures
        current > LATEST_SCHEMA_VERSION ==> (r matches Err(
            SchemaError::UnsupportedSchemaVersion { found, latest },
        ) && found == current && latest == LATEST_SCHEMA_VERSION),
        current <= LATEST_SCHEMA_VERSION ==> (r matches Ok(v) && v@ == pending_spec(current)),
{
    if current > LATEST_SCHEMA_VERSION {
        return Err(
            SchemaError::UnsupportedSchemaVersion { found: current, latest: LATEST_SCHEMA_VERSION },
        );
    }
    let plan = migration_plan();
    let mut v: Vec<MigrationStep> = Vec::new();
    let mut i: usize = 0;
    while i < plan.len()
        invariant
            current <= LATEST_SCHEMA_VERSION,
            plan@ == plan_spec(),
            i <= plan@.len(),
            v@ == pending_spec(current).take(if i <= current { 0 } else { i - current }),
        decreases plan@.len() - i,
    {
        let info = plan[i];
        if info.version > current {
            let s = MigrationStep { version: info.version, backup_first: info.backup_required && current > 0 };
            proof {
                assert(pending_spec(current)[i - current] == s);
                assert(pending_spec(current).take(i + 1 - current) =~= pending_spec(current).take(
                    i - current,
                ).push(s));
            }
            v.push(s);
        }
        i = i + 1;
    }
    assert(v@ =~= pending_spec(current));
    Ok(v)
}

/// Law: from any supported version the pending migrations run in order, one
/// version at a time, and end at the latest version; backups are taken exactly
/// when an existing database is rewritten.
pub proof fn law_pending_migrations_reach_latest(current: u32)
    requires
        current <= LATEST_SCHEMA_VERSION,
    ensures
        pending_spec(current).len() == LATEST_SCHEMA_VERSION - current,
        current < LATEST_SCHEMA_VERSION ==> pending_spec(current)[0].version == current + 1
            && pending_spec(current).last().version == LATEST_SCHEMA_VERSION,
        forall|i: int|
            0 < i < pending_spec(current).len() ==> (#[trigger] pending_spec(current)[i]).version
                == pending_spec(current)[i - 1].version + 1,
        forall|i: int|
            0 <= i < pending_spec(current).len() ==> ((#[trigger] pending_spec(current)[i]).backup_first
                <==> current > 0),
{
}

/// A read-only open needs an initialised schema no newer than supported.
pub fn check_read_only_version(version: u32) -> (r: Result<(), SchemaError>)
    ensures
        version == 0 ==> r matches Err(SchemaError::ReadOnlySchemaMissing),
        version > LATEST_SCHEMA_VERSION ==> (r matches Err(
            SchemaError::UnsupportedSchemaVersion { found, latest },
        ) && found == version && latest == LATEST_SCHEMA_VERSION),
        1 <= version <= LATEST_SCHEMA_VERSION ==> r is Ok,
{
    if version == 0 {
        return Err(SchemaError::ReadOnlySchemaMissing);
    }
    if version > LATEST_SCHEMA_VERSION {
        return Err(
            SchemaError::UnsupportedSchemaVersion { found: version, latest: LATEST_SCHEMA_VERSION },
        );
    }
    Ok(())
}

/// Interprets the answer of `PRAGMA quick_check`: only `ok` passes.
pub fn integrity_result(answer: &str) -> (r: Result<(), SchemaError>)
    ensures
        r is Ok <==> answer.spec_bytes() == ascii_bytes("ok"@),
        r matches Err(SchemaError::IntegrityFailure(m)) || r is Ok,
        r matches Err(SchemaError::IntegrityFailure(m)) ==> m@ == answer@,
{
    proof {
        reveal_strlit("ok");
        assert(vstd::string::is_ascii("ok"));
        broadcast use vstd::string::is_ascii_spec_bytes;
        assert("ok".spec_bytes() =~= ascii_bytes("ok"@));
    }
    if str_equal(answer, "ok") {
        Ok(())
    } else {
        Err(SchemaError::IntegrityFailure(answer.to_owned()))
    }
}

/// Readiness of an open database: `version` is the schema version read (or the
/// error reading it); `integrity_ok` is the result of the integrity check.
pub open spec fn readiness_spec(version: Result<u32, SchemaError>, integrity_ok: bool) -> DatabaseReadiness {
    match version {
        Ok(v) => if v <= LATEST_SCHEMA_VERSION {
            if integrity_ok {
                DatabaseReadiness::Ready
            } else {
                DatabaseReadiness::IntegrityFailure
            }
        } else {
            DatabaseReadiness::UnsupportedSchema
        },
        Err(SchemaError::UnsupportedSchemaVersion { .. }) => DatabaseReadiness::UnsupportedSchema,
        Err(_) => DatabaseReadiness::IntegrityFailure,
    }
}

pub fn classify_readiness(version: &Result<u32, SchemaError>, integrity_ok: bool) -> (r: DatabaseReadiness)
    ensures
        r == readiness_spec(*version, integrity_ok),
{
    match version {
        Ok(v) => if *v <= LATEST_SCHEMA_VERSION {
            if integrity_ok {
                DatabaseReadiness::Ready
            } else {
                DatabaseReadiness::IntegrityFailure
            }
        } else {
            DatabaseReadiness::UnsupportedSchema
        },
        Err(SchemaError::UnsupportedSchemaVersion { .. }) => DatabaseReadiness::UnsupportedSchema,
        Err(_) => DatabaseReadiness::IntegrityFailure,
    }
}

pub const DEFAULT_BUSY_TIMEOUT_MS: u64 = 5000;

/// How the state database is opened: how long to wait on a busy database and
/// whether to create its directory.
#[derive(Clone, Copy, Debug, PartialEq, Eq, Structural)]
pub struct StateOpenOptions {
    pub busy_timeout_ms: u64,
    pub create_parent: bool,
}

impl Default for StateOpenOptions {
    fn default() -> (r: StateOpenOptions)
        ensures
            r.busy_timeout_ms == DEFAULT_BUSY_TIMEOUT_MS,
            r.create_parent,
    {
        StateOpenOptions { busy_timeout_ms: DEFAULT_BUSY_TIMEOUT_MS, create_parent: true }
    }
}

} // verus!
