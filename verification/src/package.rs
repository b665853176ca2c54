//! Package and version types.

use crate::number::{parse_number, parse_u32};
use crate::split::find_char_from;
use crate::text::{from_chars, index_of, last_index_of, to_chars};
use crate::version_order::{order_versions, version_text_order, Order};
use std::cmp::Ordering;
use vstd::prelude::*;

verus! {

/// A package version, taken apart for comparison.
#[derive(Debug, Clone, Hash)]
pub struct Version {
    /// The full version string (e.g., "1.2.3-1").
    pub full: String,
    /// Epoch (if any).
    pub epoch: Option<u32>,
    /// Package version (upstream).
    pub pkgver: String,
    /// Package release number.
    pub pkgrel: String,
}

/// The mathematical value of a [`Version`].
pub struct VersionView {
    pub full: Seq<char>,
    pub epoch: Option<u32>,
    pub pkgver: Seq<char>,
    pub pkgrel: Seq<char>,
}

impl View for Version {
    type V = VersionView;

    open spec fn view(&self) -> VersionView {
        VersionView {
            full: self.full@,
            epoch: self.epoch,
            pkgver: self.pkgver@,
            pkgrel: self.pkgrel@,
        }
    }
}

/// The parts of a version string `[epoch:]pkgver[-pkgrel]`.
///
/// What stands before the first colon is the epoch, kept where it is a
/// number.  Of the rest, what follows the last hyphen is the release and what
/// precedes it the upstream version; with no hyphen the release is empty.
pub open spec fn version_parts(s: Seq<char>) -> VersionView {
    let colon = index_of(s, ':', 0);
    let epoch = if colon < s.len() {
        parse_u32(s.subrange(0, colon))
    } else {
        None
    };
    let rest = if colon < s.len() {
        s.subrange(colon + 1, s.len() as int)
    } else {
        s
    };
    let hyphen = last_index_of(rest, '-', rest.len() as int);
    if hyphen >= 0 {
        VersionView {
            full: s,
            epoch,
            pkgver: rest.subrange(0, hyphen),
            pkgrel: rest.subrange(hyphen + 1, rest.len() as int),
        }
    } else {
        VersionView { full: s, epoch, pkgver: rest, pkgrel: Seq::empty() }
    }
}

/// The index in `chars` of the last `c` at or after `from`, if there is one.
fn find_last_char(chars: &Vec<char>, from: usize, c: char) -> (r: Option<usize>)
    requires
        from <= chars@.len(),
    ensures
        ({
            let rest = chars@.subrange(from as int, chars@.len() as int);
            let found = last_index_of(rest, c, rest.len() as int);
            match r {
                Some(at) => found >= 0 && at == from + found && from <= at < chars@.len(),
                None => found == -1,
            }
        }),
{
    let ghost rest = chars@.subrange(from as int, chars@.len() as int);
    let mut i: usize = chars.len();
    while i > from
        invariant
            from <= i <= chars@.len(),
            rest == chars@.subrange(from as int, chars@.len() as int),
            last_index_of(rest, c, i - from) == last_index_of(rest, c, rest.len() as int),
        decreases i,
    {
        if chars[i - 1] == c {
            return Some(i - 1);
        }
        i = i - 1;
    }
    None
}

impl Version {
    /// Creates a new Version from a version string.
    pub fn new(version_str: &str) -> (r: Version)
        ensures
            r@ == version_parts(version_str@),
    {
        let chars = to_chars(version_str);
        let n: usize = chars.len();
        let colon: usize = find_char_from(&chars, ':', 0);
        let epoch: Option<u32> = if colon < n {
            parse_number(&chars, 0, colon)
        } else {
            None
        };
        let start: usize = if colon < n {
            colon + 1
        } else {
            0
        };
        proof {
            if colon >= n {
                assert(chars@.subrange(0, n as int) =~= chars@);
            }
        }
        let pkgver: String;
        let pkgrel: String;
        match find_last_char(&chars, start, '-') {
            Some(hyphen) => {
                pkgver = from_chars(&chars, start, hyphen);
                pkgrel = from_chars(&chars, hyphen + 1, n);
                proof {
                    let rest = chars@.subrange(start as int, n as int);
                    assert(pkgver@ =~= rest.subrange(0, hyphen - start));
                    assert(pkgrel@ =~= rest.subrange(hyphen - start + 1, rest.len() as int));
                }
            },
            None => {
                pkgver = from_chars(&chars, start, n);
                pkgrel = String::new();
            },
        }
        Version { full: String::from_str(version_str), epoch, pkgver, pkgrel }
    }

    /// The version as it was written.
    pub fn to_string(&self) -> (r: String)
        ensures
            r@ == self.full@,
    {
        self.full.clone()
    }
}

/// The standard form of an [`Order`].
pub open spec fn to_ordering(order: Order) -> Ordering {
    match order {
        Order::Less => Ordering::Less,
        Order::Equal => Ordering::Equal,
        Order::Greater => Ordering::Greater,
    }
}

/// The order of two epochs: a version with an epoch is newer than one
/// without, and two epochs compare as numbers.
pub open spec fn epoch_order(a: Option<u32>, b: Option<u32>) -> Order {
    match (a, b) {
        (Some(x), Some(y)) => if x < y {
            Order::Less
        } else if x > y {
            Order::Greater
        } else {
            Order::Equal
        },
        (Some(_), None) => Order::Greater,
        (None, Some(_)) => Order::Less,
        (None, None) => Order::Equal,
    }
}

/// The order of two versions: by epoch, then by upstream version, then by
/// release.  It is `None` where the part that would decide cannot be
/// compared.
pub open spec fn version_order(a: VersionView, b: VersionView) -> Option<Order> {
    match epoch_order(a.epoch, b.epoch) {
        Order::Equal => match version_text_order(a.pkgver, b.pkgver) {
            Some(Order::Equal) => version_text_order(a.pkgrel, b.pkgrel),
            decided => decided,
        },
        decided => Some(decided),
    }
}

/// The standard form of an order.
fn ordering_of(order: Order) -> (r: Ordering)
    ensures
        r == to_ordering(order),
{
    match order {
        Order::Less => Ordering::Less,
        Order::Equal => Ordering::Equal,
        Order::Greater => Ordering::Greater,
    }
}

/// Compares two epochs.
fn order_epochs(a: Option<u32>, b: Option<u32>) -> (r: Order)
    ensures
        r == epoch_order(a, b),
{
    match (a, b) {
        (Some(x), Some(y)) => {
            if x < y {
                Order::Less
            } else if x > y {
                Order::Greater
            } else {
                Order::Equal
            }
        },
        (Some(_), None) => Order::Greater,
        (None, Some(_)) => Order::Less,
        (None, None) => Order::Equal,
    }
}

/// Compares two version strings segment by segment, where that is defined.
pub fn try_vercmp(a: &str, b: &str) -> (r: Option<Ordering>)
    ensures
        r == match version_text_order(a@, b@) {
            Some(order) => Some(to_ordering(order)),
            None => None,
        },
{
    let left = to_chars(a);
    let right = to_chars(b);
    match order_versions(&left, &right) {
        Some(order) => Some(ordering_of(order)),
        None => None,
    }
}

/// Simple version comparison (alphanumeric segments).
pub fn vercmp(a: &str, b: &str) -> (r: Ordering)
    requires
        version_text_order(a@, b@) is Some,
    ensures
        Some(r) == match version_text_order(a@, b@) {
            Some(order) => Some(to_ordering(order)),
            None => None,
        },
{
    match try_vercmp(a, b) {
        Some(order) => order,
        None => vstd::pervasive::unreached(),
    }
}

impl Version {
    /// The order of `self` against `other`, where it is defined.
    pub fn try_cmp(&self, other: &Version) -> (r: Option<Ordering>)
        ensures
            r == match version_order(self@, other@) {
                Some(order) => Some(to_ordering(order)),
                None => None,
            },
    {
        match order_epochs(self.epoch, other.epoch) {
            Order::Equal => {},
            decided => {
                return Some(ordering_of(decided));
            },
        }
        let left = to_chars(self.pkgver.as_str());
        let right = to_chars(other.pkgver.as_str());
        match order_versions(&left, &right) {
            Some(Order::Equal) => {},
            Some(decided) => {
                return Some(ordering_of(decided));
            },
            None => {
                return None;
            },
        }
        try_vercmp(self.pkgrel.as_str(), other.pkgrel.as_str())
    }

    /// The order of `self` against `other`.
    pub fn cmp(&self, other: &Version) -> (r: Ordering)
        requires
            version_order(self@, other@) is Some,
        ensures
            Some(r) == match version_order(self@, other@) {
                Some(order) => Some(to_ordering(order)),
                None => None,
            },
    {
        match self.try_cmp(other) {
            Some(order) => order,
            None => vstd::pervasive::unreached(),
        }
    }
}

impl PartialEq for Version {
    fn eq(&self, other: &Self) -> (r: bool) {
        self.full == other.full && self.epoch == other.epoch && self.pkgver == other.pkgver
            && self.pkgrel == other.pkgrel
    }
}

impl vstd::std_specs::cmp::PartialEqSpecImpl for Version {
    open spec fn obeys_eq_spec() -> bool {
        true
    }

    open spec fn eq_spec(&self, other: &Self) -> bool {
        self@ == other@
    }
}

impl Eq for Version {

}

impl PartialOrd for Version {
    fn partial_cmp(&self, other: &Self) -> (r: Option<Ordering>) {
        self.try_cmp(other)
    }
}

impl vstd::std_specs::cmp::PartialOrdSpecImpl for Version {
    open spec fn obeys_partial_cmp_spec() -> bool {
        true
    }

    open spec fn partial_cmp_spec(&self, other: &Self) -> Option<Ordering> {
        match version_order(self@, other@) {
            Some(order) => Some(to_ordering(order)),
            None => None,
        }
    }
}

/// The source/backend a package comes from.
#[derive(Debug, Clone, Copy, PartialEq, Eq, Hash, Structural)]
pub enum PackageBackend {
    /// Pacman/libalpm (Arch repos + AUR).
    Pacman,
    /// Flatpak.
    Flatpak,
}

impl PackageBackend {
    /// The backend's name in lower case.
    pub fn to_string(&self) -> (r: String)
        ensures
            r@ == match *self {
                PackageBackend::Pacman => "pacman"@,
                PackageBackend::Flatpak => "flatpak"@,
            },
    {
        match self {
            PackageBackend::Pacman => String::from_str("pacman"),
            PackageBackend::Flatpak => String::from_str("flatpak"),
        }
    }
}

/// Installation status of a package.
#[derive(Debug, Clone, Copy, PartialEq, Eq, Hash, Structural)]
pub enum PackageStatus {
    /// Package is installed.
    Installed,
    /// Package is available but not installed.
    Available,
    /// Package is installed but an update is available.
    Upgradable,
    /// Package is orphaned (no longer needed by any other package).
    Orphan,
}

/// Core package representation.
#[derive(Debug, Clone)]
pub struct Package {
    /// Package name.
    pub name: String,
    /// Currently installed or available version.
    pub version: Version,
    /// Package description.
    pub description: String,
    /// Which backend this package belongs to.
    pub backend: PackageBackend,
    /// Current status.
    pub status: PackageStatus,
    /// Repository name (e.g., "extra", "flathub").
    pub repository: String,
}

/// The mathematical value of a [`Package`].
pub struct PackageView {
    pub name: Seq<char>,
    pub version: VersionView,
    pub description: Seq<char>,
    pub backend: PackageBackend,
    pub status: PackageStatus,
    pub repository: Seq<char>,
}

impl View for Package {
    type V = PackageView;

    open spec fn view(&self) -> PackageView {
        PackageView {
            name: self.name@,
            version: self.version@,
            description: self.description@,
            backend: self.backend,
            status: self.status,
            repository: self.repository@,
        }
    }
}

impl Package {
    /// Creates a new Package.
    pub fn new(
        name: &str,
        version: Version,
        description: &str,
        backend: PackageBackend,
        status: PackageStatus,
        repository: &str,
    ) -> (r: Package)
        ensures
            r@ == (PackageView {
                name: name@,
                version: version@,
                description: description@,
                backend,
                status,
                repository: repository@,
            }),
    {
        Package {
            name: String::from_str(name),
            version,
            description: String::from_str(description),
            backend,
            status,
            repository: String::from_str(repository),
        }
    }
}

/// Why a package was installed.
#[derive(Debug, Clone, Copy, PartialEq, Eq, Hash, Structural)]
pub enum InstallReason {
    /// Explicitly installed by user.
    Explicit,
    /// Installed as a dependency.
    Dependency,
}

/// Extended package information for details view.
#[derive(Debug, Clone)]
pub struct PackageInfo {
    /// Base package data.
    pub package: Package,
    /// Package URL/homepage.
    pub url: Option<String>,
    /// License(s).
    pub licenses: Vec<String>,
    /// Package groups.
    pub groups: Vec<String>,
    /// Direct dependencies.
    pub depends: Vec<String>,
    /// Optional dependencies.
    pub optdepends: Vec<String>,
    /// Packages this provides.
    pub provides: Vec<String>,
    /// Packages this conflicts with.
    pub conflicts: Vec<String>,
    /// Packages this replaces.
    pub replaces: Vec<String>,
    /// Installed size in bytes.
    pub installed_size: u64,
    /// Download size in bytes.
    pub download_size: u64,
    /// Build/package date, in seconds since the Unix epoch.
    pub build_date: Option<i64>,
    /// Install date (if installed), in seconds since the Unix epoch.
    pub install_date: Option<i64>,
    /// Packager.
    pub packager: Option<String>,
    /// Architecture.
    pub arch: String,
    /// Install reason (explicit or dependency).
    pub reason: Option<InstallReason>,
}

/// Search result from a backend.
#[derive(Debug, Clone)]
pub struct SearchResult {
    /// Package name.
    pub name: String,
    /// Package version.
    pub version: Version,
    /// Package description.
    pub description: String,
    /// Which backend this result is from.
    pub backend: PackageBackend,
    /// Repository name.
    pub repository: String,
    /// Whether this package is currently installed.
    pub installed: bool,
    /// Installed version (if different from available).
    pub installed_version: Option<Version>,
}

/// Information about an available update.
#[derive(Debug, Clone)]
pub struct UpdateInfo {
    /// Package name.
    pub name: String,
    /// Currently installed version.
    pub current_version: Version,
    /// New available version.
    pub new_version: Version,
    /// Which backend.
    pub backend: PackageBackend,
    /// Repository name.
    pub repository: String,
    /// Download size for the update.
    pub download_size: u64,
}

} // verus!
