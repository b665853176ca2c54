//! Transaction handling for package operations.
//!
//! Changing the installed packages needs root privileges, which this library
//! does not have: every operation is refused, and says so.

use crate::error::Error;
use crate::package::Package;
use vstd::prelude::*;

verus! {

/// Handles the operations that change the installed packages.
#[derive(Debug, Clone, Copy)]
pub struct TransactionHandler;

/// Whether `r` is the refusal that carries `message`.
pub open spec fn refused_with(r: Result<Vec<Package>, Error>, message: Seq<char>) -> bool {
    r matches Err(Error::PermissionDenied(text)) && text@ == message
}

impl TransactionHandler {
    /// Creates a new transaction handler.
    pub fn new() -> (r: TransactionHandler) {
        TransactionHandler
    }

    /// Installs `packages`: refused.
    pub fn install(&self, packages: &[String]) -> (r: Result<Vec<Package>, Error>)
        ensures
            refused_with(r, "Package installation requires root privileges"@),
    {
        Err(
            Error::PermissionDenied(
                String::from_str("Package installation requires root privileges"),
            ),
        )
    }

    /// Removes `packages`: refused.
    pub fn remove(&self, packages: &[String]) -> (r: Result<Vec<Package>, Error>)
        ensures
            refused_with(r, "Package removal requires root privileges"@),
    {
        Err(Error::PermissionDenied(String::from_str("Package removal requires root privileges")))
    }

    /// Upgrades `packages`: refused.
    pub fn upgrade(&self, packages: &[String]) -> (r: Result<Vec<Package>, Error>)
        ensures
            refused_with(r, "Package upgrade requires root privileges"@),
    {
        Err(Error::PermissionDenied(String::from_str("Package upgrade requires root privileges")))
    }

    /// Upgrades the whole system: refused.
    pub fn sysupgrade(&self) -> (r: Result<Vec<Package>, Error>)
        ensures
            refused_with(r, "System upgrade requires root privileges"@),
    {
        Err(Error::PermissionDenied(String::from_str("System upgrade requires root privileges")))
    }

    /// Synchronizes the package databases: refused.
    pub fn sync_dbs(&self) -> (r: Result<Vec<Package>, Error>)
        ensures
            refused_with(r, "Database sync requires root privileges"@),
    {
        Err(Error::PermissionDenied(String::from_str("Database sync requires root privileges")))
    }
}

impl Default for TransactionHandler {
    fn default() -> (r: TransactionHandler) {
        TransactionHandler::new()
    }
}

} // verus!
