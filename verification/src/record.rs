//! What the backends read of a package in a package database.

use crate::package::InstallReason;
use vstd::prelude::*;

verus! {

/// One package as a package database describes it.
#[derive(Debug, Clone)]
pub struct PackageRecord {
    /// Package name.
    pub name: String,
    /// Version string, `[epoch:]pkgver[-pkgrel]`.
    pub version: String,
    /// Description, where the database has one.
    pub desc: Option<String>,
    /// Homepage.
    pub url: Option<String>,
    /// License(s).
    pub licenses: Vec<String>,
    /// Package groups.
    pub groups: Vec<String>,
    /// Direct dependencies.
    pub depends: Vec<String>,
    /// Optional dependencies.
    pub optdepends: Vec<String>,
    /// Packages this provides.
    pub provides: Vec<String>,
    /// Packages this conflicts with.
    pub conflicts: Vec<String>,
    /// Packages this replaces.
    pub replaces: Vec<String>,
    /// Installed size in bytes, as the database holds it.
    pub isize: i64,
    /// Download size in bytes, as the database holds it.
    pub download_size: i64,
    /// Build date, in seconds since the Unix epoch.
    pub build_date: i64,
    /// Install date, in seconds since the Unix epoch.
    pub install_date: Option<i64>,
    /// Packager.
    pub packager: Option<String>,
    /// Architecture.
    pub arch: Option<String>,
    /// Why the package was installed.
    pub reason: InstallReason,
    /// The installed packages that require this one.
    pub required_by: Vec<String>,
    /// The installed packages that name this one as optional.
    pub optional_for: Vec<String>,
}

} // verus!
