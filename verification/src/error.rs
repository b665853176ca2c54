//! Error types for xPackageManager.

use vstd::prelude::*;

verus! {

/// Trusted: `std::io::Error`, carried through and never looked into.
#[verifier::external_type_specification]
#[verifier::external_body]
pub struct ExIoError(std::io::Error);

/// The main error type for xPackageManager operations.
#[derive(Debug)]
pub enum Error {
    PackageNotFound(String),
    AlreadyInstalled(String),
    DependencyError(String),
    TransactionError(String),
    DatabaseError(String),
    NetworkError(String),
    PermissionDenied(String),
    BackendUnavailable(String),
    Cancelled,
    ConfigError(String),
    IoError(std::io::Error),
    Other(String),
}

/// Trusted: calls `to_string` on a `std::io::Error`, which gives the text of
/// its `Display` form.  That text comes from the operating system, in the
/// words of the process's locale, or from whoever made the error, so nothing
/// is claimed of it: two calls on one error may differ.
#[verifier::external_body]
fn describe_io_error(e: &std::io::Error) -> (r: String) {
    e.to_string()
}

impl Error {
    /// The fixed words that introduce this kind of error.
    pub open spec fn prefix(&self) -> Seq<char> {
        match *self {
            Error::PackageNotFound(_) => "Package not found: "@,
            Error::AlreadyInstalled(_) => "Package already installed: "@,
            Error::DependencyError(_) => "Dependency resolution failed: "@,
            Error::TransactionError(_) => "Transaction failed: "@,
            Error::DatabaseError(_) => "Database error: "@,
            Error::NetworkError(_) => "Network error: "@,
            Error::PermissionDenied(_) => "Permission denied: "@,
            Error::BackendUnavailable(_) => "Backend not available: "@,
            Error::Cancelled => "Operation cancelled"@,
            Error::ConfigError(_) => "Invalid configuration: "@,
            Error::IoError(_) => "I/O error: "@,
            Error::Other(_) => Seq::empty(),
        }
    }

    /// What this error carries besides its kind, where that is a text of its
    /// own.  The text of an I/O error is the system's: it is no value of this
    /// library, and nothing is said of it here.
    pub open spec fn detail(&self) -> Seq<char>
        recommends
            !(self is IoError),
    {
        match *self {
            Error::PackageNotFound(s) => s@,
            Error::AlreadyInstalled(s) => s@,
            Error::DependencyError(s) => s@,
            Error::TransactionError(s) => s@,
            Error::DatabaseError(s) => s@,
            Error::NetworkError(s) => s@,
            Error::PermissionDenied(s) => s@,
            Error::BackendUnavailable(s) => s@,
            Error::Cancelled => Seq::empty(),
            Error::ConfigError(s) => s@,
            Error::IoError(_) => Seq::empty(),
            Error::Other(s) => s@,
        }
    }

    /// The message shown for this error: the words for its kind, then its
    /// detail.  For an I/O error what follows the words is the system's
    /// text, of which only its place is stated.
    pub fn to_string(&self) -> (r: String)
        ensures
            !(self is IoError) ==> r@ == self.prefix() + self.detail(),
            self is IoError ==> r@.len() >= self.prefix().len() && r@.subrange(
                0,
                self.prefix().len() as int,
            ) == self.prefix(),
    {
        match self {
            Error::PackageNotFound(s) => labelled("Package not found: ", s.as_str()),
            Error::AlreadyInstalled(s) => labelled("Package already installed: ", s.as_str()),
            Error::DependencyError(s) => labelled("Dependency resolution failed: ", s.as_str()),
            Error::TransactionError(s) => labelled("Transaction failed: ", s.as_str()),
            Error::DatabaseError(s) => labelled("Database error: ", s.as_str()),
            Error::NetworkError(s) => labelled("Network error: ", s.as_str()),
            Error::PermissionDenied(s) => labelled("Permission denied: ", s.as_str()),
            Error::BackendUnavailable(s) => labelled("Backend not available: ", s.as_str()),
            Error::Cancelled => {
                let out = String::from_str("Operation cancelled");
                out
            },
            Error::ConfigError(s) => labelled("Invalid configuration: ", s.as_str()),
            Error::IoError(e) => {
                let text = describe_io_error(e);
                labelled("I/O error: ", text.as_str())
            },
            Error::Other(s) => {
                let out = s.clone();
                out
            },
        }
    }
}

/// A label followed by a detail.
fn labelled(label: &str, detail: &str) -> (r: String)
    ensures
        r@ == label@ + detail@,
{
    let mut out = String::from_str(label);
    out.append(detail);
    out
}

} // verus!
