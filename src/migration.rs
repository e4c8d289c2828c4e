use vstd::prelude::*;

verus! {

/// Why a schema upgrade was refused.
#[derive(Debug, Clone, Copy, PartialEq, Eq, Structural)]
pub enum MigrationError {
    /// The starting version has no migration registered for it.
    InvalidSchemaVersion,
    /// The target version lies before the start or past the last migration.
    InvalidSchemaRange,
}

/// The first schema migration: creates the registry's tables.
#[derive(Debug, Clone, Copy, PartialEq, Eq, Structural)]
pub struct V0;

/// The schema version a database reports: the version row marked current, or
/// zero where there is none. A stored integer is read as its 64-bit pattern.
pub fn current_schema_version(stored: Option<i64>) -> (r: u64)
    ensures
        r == match stored {
            None => 0u64,
            Some(v) => v as u64,
        },
{
    match stored {
        None => 0,
        Some(v) => v as u64,
    }
}

/// The schema version reached once all `n_migrations` migrations have run.
pub fn target_schema_version(n_migrations: usize) -> (r: u64)
    ensures
        r == n_migrations,
{
    n_migrations as u64
}

/// The indices of the migrations that take a schema from version `from` to
/// version `to`, in the order in which they run.
pub fn upgrade_steps(n_migrations: usize, from: u64, to: u64) -> (r: Result<Vec<usize>, MigrationError>)
    ensures
        from >= n_migrations ==> r == Err::<Vec<usize>, MigrationError>(
            MigrationError::InvalidSchemaVersion,
        ),
        from < n_migrations && (to < from || to > n_migrations) ==> r == Err::<
            Vec<usize>,
            MigrationError,
        >(MigrationError::InvalidSchemaRange),
        from < n_migrations && from <= to <= n_migrations ==> (r matches Ok(steps) && steps@.len()
            == to - from && forall|i: int| 0 <= i < steps@.len() ==> #[trigger] steps@[i] == from + i),
{
    if from >= n_migrations as u64 {
        return Err(MigrationError::InvalidSchemaVersion);
    }
    if to < from || to > n_migrations as u64 {
        return Err(MigrationError::InvalidSchemaRange);
    }
    let mut steps: Vec<usize> = Vec::new();
    let mut i: u64 = from;
    while i < to
        invariant
            from <= i <= to <= n_migrations,
            steps@.len() == i - from,
            forall|k: int| 0 <= k < steps@.len() ==> #[trigger] steps@[k] == from + k,
        decreases to - i,
    {
        steps.push(i as usize);
        i = i + 1;
    }
    Ok(steps)
}

} // verus!
