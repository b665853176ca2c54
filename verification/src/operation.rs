//! Package operations and what the pacman backend does about each.
//!
//! Changing the system needs root privileges that the backend does not have.
//! It cleans the package cache, and it removes orphans where there are none
//! to remove; everything else it refuses.

use vstd::prelude::*;

verus! {

/// What can be asked of a backend.
#[derive(Debug, Clone, Copy, PartialEq, Eq, Hash, Structural)]
pub enum OperationKind {
    Install,
    Remove,
    RemoveWithDeps,
    Update,
    SystemUpgrade,
    SyncDatabases,
    CleanCache,
    RemoveOrphans,
}

/// How many versions of a package stay in the cache when it is cleaned.
pub const KEPT_VERSIONS: usize = 3;

/// What the backend does first about an operation.
#[derive(Debug)]
pub enum FirstStep {
    /// Nothing: the operation fails with this message.
    Refuse { message: String },
    /// Clean the package cache, keeping this many versions of each package.
    CleanCache { keep_versions: usize },
    /// List the orphans.
    ListOrphans,
}

/// How an operation ended.
#[derive(Debug)]
pub enum Outcome {
    /// It was done; no package was changed.
    Success,
    /// It was not done, for this reason.
    Failure { message: String },
}

/// The message with which an operation of kind `kind` is refused, where it
/// is.
pub open spec fn refusal(kind: OperationKind) -> Option<Seq<char>> {
    match kind {
        OperationKind::Install | OperationKind::Remove | OperationKind::RemoveWithDeps
        | OperationKind::Update | OperationKind::SystemUpgrade => Some(
            "Package operations require root privileges"@,
        ),
        OperationKind::SyncDatabases => Some("Database sync requires root privileges"@),
        OperationKind::CleanCache | OperationKind::RemoveOrphans => None,
    }
}

/// Decides what to do first about an operation.
pub fn first_step(kind: OperationKind) -> (r: FirstStep)
    ensures
        match r {
            FirstStep::Refuse { message } => refusal(kind) == Some(message@),
            FirstStep::CleanCache { keep_versions } => kind == OperationKind::CleanCache
                && keep_versions == KEPT_VERSIONS,
            FirstStep::ListOrphans => kind == OperationKind::RemoveOrphans,
        },
{
    match kind {
        OperationKind::Install
        | OperationKind::Remove
        | OperationKind::RemoveWithDeps
        | OperationKind::Update
        | OperationKind::SystemUpgrade => FirstStep::Refuse {
            message: String::from_str("Package operations require root privileges"),
        },
        OperationKind::SyncDatabases => FirstStep::Refuse {
            message: String::from_str("Database sync requires root privileges"),
        },
        OperationKind::CleanCache => FirstStep::CleanCache { keep_versions: KEPT_VERSIONS },
        OperationKind::RemoveOrphans => FirstStep::ListOrphans,
    }
}

/// How the removal of orphans ends once they are counted: well where there
/// is none, and otherwise not at all.
pub fn after_listing_orphans(orphans: usize) -> (r: Outcome)
    ensures
        orphans == 0 ==> r is Success,
        orphans > 0 ==> (r matches Outcome::Failure { message } && message@
            == "Removing orphans requires root privileges"@),
{
    if orphans == 0 {
        Outcome::Success
    } else {
        Outcome::Failure { message: String::from_str("Removing orphans requires root privileges") }
    }
}

} // verus!
