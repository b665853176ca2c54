//! Orphan package detection.

use crate::package::InstallReason;
use crate::record::PackageRecord;
use vstd::prelude::*;

verus! {

/// Detects orphan packages (installed as dependencies but no longer needed).
#[derive(Debug, Clone, Copy)]
pub struct OrphanDetector;

/// Whether `pkg` is an orphan: it was installed as a dependency, and no
/// installed package requires it or names it as optional.
pub open spec fn orphaned(pkg: PackageRecord) -> bool {
    pkg.reason == InstallReason::Dependency && pkg.required_by@.len() == 0
        && pkg.optional_for@.len() == 0
}

impl OrphanDetector {
    /// Creates a new orphan detector.
    pub fn new() -> (r: OrphanDetector) {
        OrphanDetector
    }

    /// Checks if a package is an orphan.
    ///
    /// A package is considered orphan if:
    /// - It was installed as a dependency (not explicitly)
    /// - No other installed package depends on it
    pub fn is_orphan(&self, pkg: &PackageRecord) -> (r: bool)
        ensures
            r == orphaned(*pkg),
    {
        // Must be installed as a dependency.
        if pkg.reason != InstallReason::Dependency {
            return false;
        }
        // Check if any other package requires this one.

        pkg.required_by.len() == 0 && pkg.optional_for.len() == 0
    }
}

impl Default for OrphanDetector {
    fn default() -> (r: OrphanDetector) {
        OrphanDetector::new()
    }
}

} // verus!
