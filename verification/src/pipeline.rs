use vstd::prelude::*;

verus! {

/// The two mutually exclusive run modes of one invocation.
#[derive(Clone, Copy, PartialEq, Eq, Structural, Debug)]
pub enum RunMode {
    /// Provision the database and the tables, then seed the reference
    /// data.
    Setup,
    /// Ingest one batch of occupancy snapshots.
    Collect,
}

/// Mode selection: the setup flag selects provisioning and seeding;
/// without it one snapshot batch is collected.
pub fn select_mode(setup_flag: bool) -> (m: RunMode)
    ensures
        m == (if setup_flag {
            RunMode::Setup
        } else {
            RunMode::Collect
        }),
{
    if setup_flag {
        RunMode::Setup
    } else {
        RunMode::Collect
    }
}

/// The database name used when none is configured.
pub fn default_database_name() -> (s: &'static str)
    ensures
        s@ == "do_parking"@,
{
    "do_parking"
}

/// The rule applied when an inserted record's key already exists in
/// storage.
#[derive(Clone, Copy, PartialEq, Eq, Structural, Debug)]
pub enum ConflictPolicy {
    /// Replace every non-key column with the incoming record's values:
    /// the latest write wins.
    MergeAllColumns,
    /// Keep the existing row untouched; the incoming record is
    /// discarded.
    DoNothing,
}

/// Reference data merges on conflict: the latest write wins.
pub fn info_conflict_policy() -> (p: ConflictPolicy)
    ensures
        p == ConflictPolicy::MergeAllColumns,
{
    ConflictPolicy::MergeAllColumns
}

/// Time-series data ignores conflicts: once a `(garageId, sourceTime)`
/// row exists it is never altered, and a batch that inserts nothing is
/// a valid outcome, not an error.
pub fn stats_conflict_policy() -> (p: ConflictPolicy)
    ensures
        p == ConflictPolicy::DoNothing,
{
    ConflictPolicy::DoNothing
}

} // verus!
