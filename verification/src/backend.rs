//! The pacman/libalpm backend.
//!
//! Reading the package databases is the caller's.  What is made of the
//! records read is decided here.

use crate::error::Error;
use crate::package::{version_parts, Package, PackageBackend, PackageStatus, PackageView, Version};
use crate::text::texts;
use vstd::prelude::*;

verus! {

/// Configuration for the ALPM backend.
#[derive(Debug, Clone)]
pub struct AlpmConfig {
    /// Root directory for package installation.
    pub root: String,
    /// Database path.
    pub dbpath: String,
    /// Cache directories.
    pub cache_dirs: Vec<String>,
    /// Hook directories.
    pub hook_dirs: Vec<String>,
    /// GPG directory.
    pub gpgdir: String,
    /// Log file path.
    pub logfile: String,
}

/// The mathematical value of an [`AlpmConfig`].
pub struct AlpmConfigView {
    pub root: Seq<char>,
    pub dbpath: Seq<char>,
    pub cache_dirs: Seq<Seq<char>>,
    pub hook_dirs: Seq<Seq<char>>,
    pub gpgdir: Seq<char>,
    pub logfile: Seq<char>,
}

impl View for AlpmConfig {
    type V = AlpmConfigView;

    open spec fn view(&self) -> AlpmConfigView {
        AlpmConfigView {
            root: self.root@,
            dbpath: self.dbpath@,
            cache_dirs: texts(self.cache_dirs@),
            hook_dirs: texts(self.hook_dirs@),
            gpgdir: self.gpgdir@,
            logfile: self.logfile@,
        }
    }
}

/// The paths of a stock Arch Linux system.
pub open spec fn default_config() -> AlpmConfigView {
    AlpmConfigView {
        root: "/"@,
        dbpath: "/var/lib/pacman"@,
        cache_dirs: seq!["/var/cache/pacman/pkg"@],
        hook_dirs: seq!["/etc/pacman.d/hooks"@, "/usr/share/libalpm/hooks"@],
        gpgdir: "/etc/pacman.d/gnupg"@,
        logfile: "/var/log/pacman.log"@,
    }
}

impl Default for AlpmConfig {
    fn default() -> (r: AlpmConfig)
        ensures
            r@ == default_config(),
    {
        let mut cache_dirs: Vec<String> = Vec::new();
        cache_dirs.push(String::from_str("/var/cache/pacman/pkg"));
        let mut hook_dirs: Vec<String> = Vec::new();
        hook_dirs.push(String::from_str("/etc/pacman.d/hooks"));
        hook_dirs.push(String::from_str("/usr/share/libalpm/hooks"));
        let r = AlpmConfig {
            root: String::from_str("/"),
            dbpath: String::from_str("/var/lib/pacman"),
            cache_dirs,
            hook_dirs,
            gpgdir: String::from_str("/etc/pacman.d/gnupg"),
            logfile: String::from_str("/var/log/pacman.log"),
        };
        proof {
            assert(r@.cache_dirs =~= default_config().cache_dirs);
            assert(r@.hook_dirs =~= default_config().hook_dirs);
        }
        r
    }
}

/// The pacman/libalpm backend.
#[derive(Debug, Clone)]
pub struct AlpmBackend {
    /// The paths that the backend works on.
    pub config: AlpmConfig,
}

/// What the backend says when its database is not there.
pub open spec fn missing_database(dbpath: Seq<char>) -> Seq<char> {
    "Database path does not exist: "@ + dbpath
}

impl AlpmBackend {
    /// Creates a new ALPM backend with default configuration.  `dbpath_exists`
    /// says whether the default database path is there.
    pub fn new(dbpath_exists: bool) -> (r: Result<AlpmBackend, Error>)
        ensures
            dbpath_exists ==> (r matches Ok(backend) && backend.config@ == default_config()),
            !dbpath_exists ==> (r matches Err(Error::DatabaseError(text)) && text@
                == missing_database(default_config().dbpath)),
    {
        AlpmBackend::with_config(AlpmConfig::default(), dbpath_exists)
    }

    /// Creates a new ALPM backend with custom configuration.  `dbpath_exists`
    /// says whether `config.dbpath` is there; without it no backend is made.
    pub fn with_config(config: AlpmConfig, dbpath_exists: bool) -> (r: Result<AlpmBackend, Error>)
        ensures
            dbpath_exists ==> (r matches Ok(backend) && backend.config == config),
            !dbpath_exists ==> (r matches Err(Error::DatabaseError(text)) && text@
                == missing_database(config.dbpath@)),
    {
        // Verify the database path exists.
        if !dbpath_exists {
            let mut text = String::from_str("Database path does not exist: ");
            text.append(config.dbpath.as_str());
            return Err(Error::DatabaseError(text));
        }
        Ok(AlpmBackend { config })
    }

    /// The identifier of this package source.
    pub fn source_id(&self) -> (r: &'static str)
        ensures
            r@ == "pacman"@,
    {
        "pacman"
    }

    /// The name shown for this package source.
    pub fn display_name(&self) -> (r: &'static str)
        ensures
            r@ == "Pacman"@,
    {
        "Pacman"
    }

    /// Converts the fields of an ALPM package to our Package type.
    pub fn convert_package(
        name: &str,
        version: &str,
        desc: &str,
        repo: &str,
        status: PackageStatus,
    ) -> (r: Package)
        ensures
            r@ == (PackageView {
                name: name@,
                version: version_parts(version@),
                description: desc@,
                backend: PackageBackend::Pacman,
                status,
                repository: repo@,
            }),
    {
        Package::new(name, Version::new(version), desc, PackageBackend::Pacman, status, repo)
    }
}

/// The names of the sync databases that the backend registers for its
/// queries, in order.
pub open spec fn repository_names() -> Seq<Seq<char>> {
    seq!["core"@, "extra"@, "multilib"@, "xerolinux"@, "chaotic-aur"@]
}

/// The sync databases to register before a query.
pub fn sync_repositories() -> (r: Vec<&'static str>)
    ensures
        r@.len() == 5,
        forall|i: int| 0 <= i < 5 ==> r@[i]@ == repository_names()[i],
{
    let mut repos: Vec<&'static str> = Vec::new();
    repos.push("core");
    repos.push("extra");
    repos.push("multilib");
    repos.push("xerolinux");
    repos.push("chaotic-aur");
    repos
}

} // verus!
