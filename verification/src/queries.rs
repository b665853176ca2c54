//! What the pacman backend makes of the records it reads: the installed
//! packages, the orphans among them, search results, updates and package
//! details.

use crate::orphan::{orphaned, OrphanDetector};
use crate::package::{
    version_parts, Package, PackageBackend, PackageInfo, PackageStatus, PackageView, SearchResult,
    UpdateInfo, Version, VersionView,
};
use crate::record::PackageRecord;
use crate::text::{
    contains, copy_option_text, copy_texts, empty_text, find_from, lowercase, lowercase_text,
    option_text, texts, text_eq, text_or_empty, to_chars,
};
use crate::version_order::Order;
use vstd::prelude::*;

verus! {

/// The status of an installed package: an orphan, or simply installed.
pub open spec fn installed_status(pkg: PackageRecord) -> PackageStatus {
    if orphaned(pkg) {
        PackageStatus::Orphan
    } else {
        PackageStatus::Installed
    }
}

/// The package that a record of the local database stands for.
pub open spec fn installed_view(pkg: PackageRecord) -> PackageView {
    PackageView {
        name: pkg.name@,
        version: version_parts(pkg.version@),
        description: text_or_empty(pkg.desc),
        backend: PackageBackend::Pacman,
        status: installed_status(pkg),
        repository: "local"@,
    }
}

/// The package that a record of the sync database `repository` stands for.
pub open spec fn available_view(pkg: PackageRecord, repository: Seq<char>) -> PackageView {
    PackageView {
        name: pkg.name@,
        version: version_parts(pkg.version@),
        description: text_or_empty(pkg.desc),
        backend: PackageBackend::Pacman,
        status: PackageStatus::Available,
        repository,
    }
}

/// The values of a list of packages, in order.
pub open spec fn package_views(list: Seq<Package>) -> Seq<PackageView> {
    Seq::new(list.len(), |i: int| list[i]@)
}

/// The installed packages that `records` describe, one for each, in order.
pub open spec fn installed_of(records: Seq<PackageRecord>) -> Seq<PackageView> {
    Seq::new(records.len(), |i: int| installed_view(records[i]))
}

/// The orphans among `records`, in order.
pub open spec fn orphans_of(records: Seq<PackageRecord>) -> Seq<PackageView>
    decreases records.len(),
{
    if records.len() == 0 {
        Seq::empty()
    } else if orphaned(records.last()) {
        orphans_of(records.drop_last()).push(installed_view(records.last()))
    } else {
        orphans_of(records.drop_last())
    }
}

/// The description of a package, empty where it has none.
fn description_of(pkg: &PackageRecord) -> (r: &str)
    ensures
        r@ == text_or_empty(pkg.desc),
{
    match &pkg.desc {
        Some(text) => text.as_str(),
        None => empty_text(),
    }
}

/// The package that a record of the local database stands for.
pub fn installed_package(pkg: &PackageRecord) -> (r: Package)
    ensures
        r@ == installed_view(*pkg),
{
    let status = if OrphanDetector::new().is_orphan(pkg) {
        PackageStatus::Orphan
    } else {
        PackageStatus::Installed
    };
    Package::new(
        pkg.name.as_str(),
        Version::new(pkg.version.as_str()),
        description_of(pkg),
        PackageBackend::Pacman,
        status,
        "local",
    )
}

/// Lists the installed packages: one for each record of the local database,
/// in order, orphans marked as such.
pub fn list_installed(records: &Vec<PackageRecord>) -> (r: Vec<Package>)
    ensures
        package_views(r@) == installed_of(records@),
{
    let mut packages: Vec<Package> = Vec::new();
    let mut i: usize = 0;
    while i < records.len()
        invariant
            i <= records@.len(),
            packages@.len() == i,
            package_views(packages@) == installed_of(records@.subrange(0, i as int)),
        decreases records@.len() - i,
    {
        let ghost before = packages@;
        packages.push(installed_package(&records[i]));
        i = i + 1;
        assert forall|k: int| 0 <= k < i implies package_views(packages@)[k] == installed_of(
            records@.subrange(0, i as int),
        )[k] by {
            if k < i - 1 {
                assert(package_views(before)[k] == installed_of(records@.subrange(0, i - 1))[k]);
            }
        }
    }
    packages
}

/// Lists the orphans among the records of the local database, in order.
pub fn list_orphans(records: &Vec<PackageRecord>) -> (r: Vec<Package>)
    ensures
        package_views(r@) == orphans_of(records@),
{
    let mut orphans: Vec<Package> = Vec::new();
    let mut i: usize = 0;
    while i < records.len()
        invariant
            i <= records@.len(),
            package_views(orphans@) == orphans_of(records@.subrange(0, i as int)),
        decreases records@.len() - i,
    {
        proof {
            assert(records@.subrange(0, i + 1).drop_last() =~= records@.subrange(0, i as int));
        }
        if OrphanDetector::new().is_orphan(&records[i]) {
            orphans.push(installed_package(&records[i]));
        }
        i = i + 1;
    }
    assert(records@.subrange(0, i as int) =~= records@);
    orphans
}

/// One package of a sync database, with what the local database knows of it.
#[derive(Debug, Clone)]
pub struct Listing {
    /// The sync database that offers the package.
    pub repository: String,
    /// The package as that database describes it.
    pub package: PackageRecord,
    /// The version that is installed, where the package is installed.
    pub installed_version: Option<String>,
}

/// The mathematical value of a [`SearchResult`].
pub struct SearchResultView {
    pub name: Seq<char>,
    pub version: VersionView,
    pub description: Seq<char>,
    pub backend: PackageBackend,
    pub repository: Seq<char>,
    pub installed: bool,
    pub installed_version: Option<VersionView>,
}

impl View for SearchResult {
    type V = SearchResultView;

    open spec fn view(&self) -> SearchResultView {
        SearchResultView {
            name: self.name@,
            version: self.version@,
            description: self.description@,
            backend: self.backend,
            repository: self.repository@,
            installed: self.installed,
            installed_version: match self.installed_version {
                Some(v) => Some(v@),
                None => None,
            },
        }
    }
}

/// The values of a list of search results, in order.
pub open spec fn result_views(list: Seq<SearchResult>) -> Seq<SearchResultView> {
    Seq::new(list.len(), |i: int| list[i]@)
}

/// Whether a package answers a query: the query, in lower case, stands in the
/// lower-case form of its name or of its description.
pub open spec fn answers(pkg: PackageRecord, query_lower: Seq<char>) -> bool {
    contains(lowercase(pkg.name@), query_lower) || contains(
        lowercase(text_or_empty(pkg.desc)),
        query_lower,
    )
}

/// The search result that a listing gives.
pub open spec fn result_of(listing: Listing) -> SearchResultView {
    SearchResultView {
        name: listing.package.name@,
        version: version_parts(listing.package.version@),
        description: text_or_empty(listing.package.desc),
        backend: PackageBackend::Pacman,
        repository: listing.repository@,
        installed: listing.installed_version is Some,
        installed_version: match listing.installed_version {
            Some(v) => Some(version_parts(v@)),
            None => None,
        },
    }
}

/// The results of a search: the listings that answer the query, in order.
pub open spec fn found(listings: Seq<Listing>, query_lower: Seq<char>) -> Seq<SearchResultView>
    decreases listings.len(),
{
    if listings.len() == 0 {
        Seq::empty()
    } else if answers(listings.last().package, query_lower) {
        found(listings.drop_last(), query_lower).push(result_of(listings.last()))
    } else {
        found(listings.drop_last(), query_lower)
    }
}

/// Tests whether `needle` stands in the lower-case form of `hay`.
fn has_text(hay: &str, needle: &Vec<char>) -> (r: bool)
    ensures
        r == contains(lowercase(hay@), needle@),
{
    let lower = lowercase_text(hay);
    let chars = to_chars(lower.as_str());
    find_from(&chars, needle, 0).is_some()
}

/// Decides whether `pkg` answers the query whose lower-case form is
/// `query_lower`.
pub fn answers_query(pkg: &PackageRecord, query_lower: &Vec<char>) -> (r: bool)
    ensures
        r == answers(*pkg, query_lower@),
{
    has_text(pkg.name.as_str(), query_lower) || has_text(description_of(pkg), query_lower)
}

/// Searches the sync databases: returns, in order, a result for each listing
/// whose name or description holds the query, letter case aside.
pub fn search(listings: &Vec<Listing>, query: &str) -> (r: Vec<SearchResult>)
    ensures
        result_views(r@) == found(listings@, lowercase(query@)),
{
    let lower = lowercase_text(query);
    let query_lower = to_chars(lower.as_str());
    let mut results: Vec<SearchResult> = Vec::new();
    let mut i: usize = 0;
    while i < listings.len()
        invariant
            i <= listings@.len(),
            query_lower@ == lowercase(query@),
            result_views(results@) == found(listings@.subrange(0, i as int), query_lower@),
        decreases listings@.len() - i,
    {
        proof {
            assert(listings@.subrange(0, i + 1).drop_last() =~= listings@.subrange(0, i as int));
        }
        let listing = &listings[i];
        if answers_query(&listing.package, &query_lower) {
            let installed_version = match &listing.installed_version {
                Some(v) => Some(Version::new(v.as_str())),
                None => None,
            };
            results.push(
                SearchResult {
                    name: listing.package.name.clone(),
                    version: Version::new(listing.package.version.as_str()),
                    description: String::from_str(description_of(&listing.package)),
                    backend: PackageBackend::Pacman,
                    repository: listing.repository.clone(),
                    installed: listing.installed_version.is_some(),
                    installed_version,
                },
            );
        }
        i = i + 1;
    }
    assert(listings@.subrange(0, i as int) =~= listings@);
    results
}

/// A version of a package that a sync database offers, with how the package
/// manager ranks it against the installed one.
#[derive(Debug, Clone)]
pub struct Candidate {
    /// The sync database that offers it.
    pub repository: String,
    /// The version offered.
    pub version: String,
    /// Download size in bytes, as the database holds it.
    pub download_size: i64,
    /// The offered version against the installed one.
    pub order: Order,
}

/// The mathematical value of an [`UpdateInfo`].
pub struct UpdateView {
    pub name: Seq<char>,
    pub current_version: VersionView,
    pub new_version: VersionView,
    pub backend: PackageBackend,
    pub repository: Seq<char>,
    pub download_size: u64,
}

impl View for UpdateInfo {
    type V = UpdateView;

    open spec fn view(&self) -> UpdateView {
        UpdateView {
            name: self.name@,
            current_version: self.current_version@,
            new_version: self.new_version@,
            backend: self.backend,
            repository: self.repository@,
            download_size: self.download_size,
        }
    }
}

/// The index of the first candidate that is newer than the installed
/// version, or the number of candidates where none is.
pub open spec fn first_newer(candidates: Seq<Candidate>, from: int) -> int
    decreases candidates.len() - from,
{
    if 0 <= from < candidates.len() && candidates[from].order != Order::Greater {
        first_newer(candidates, from + 1)
    } else {
        from
    }
}

/// The update that a candidate is for the package `name` installed in
/// `local_version`.
pub open spec fn update_to(
    name: Seq<char>,
    local_version: Seq<char>,
    candidate: Candidate,
) -> UpdateView {
    UpdateView {
        name,
        current_version: version_parts(local_version),
        new_version: version_parts(candidate.version@),
        backend: PackageBackend::Pacman,
        repository: candidate.repository@,
        download_size: candidate.download_size as u64,
    }
}

/// Picks the update for an installed package: the first of the candidates,
/// in the order of the sync databases, that is newer than what is installed.
pub fn pick_update(name: &str, local_version: &str, candidates: &Vec<Candidate>) -> (r: Option<
    UpdateInfo,
>)
    ensures
        match r {
            Some(update) => first_newer(candidates@, 0) < candidates@.len() && update@
                == update_to(name@, local_version@, candidates@[first_newer(candidates@, 0)]),
            None => first_newer(candidates@, 0) >= candidates@.len(),
        },
{
    let mut i: usize = 0;
    while i < candidates.len()
        invariant
            i <= candidates@.len(),
            first_newer(candidates@, i as int) == first_newer(candidates@, 0),
        decreases candidates@.len() - i,
    {
        let candidate = &candidates[i];
        if candidate.order == Order::Greater {
            return Some(
                UpdateInfo {
                    name: String::from_str(name),
                    current_version: Version::new(local_version),
                    new_version: Version::new(candidate.version.as_str()),
                    backend: PackageBackend::Pacman,
                    repository: candidate.repository.clone(),
                    download_size: candidate.download_size as u64,
                },
            );
        }
        i = i + 1;
    }
    None
}

/// The address of the mirror that serves `repo`, for the repositories that
/// are known.
pub open spec fn mirror_of(repo: Seq<char>) -> Option<Seq<char>> {
    if repo == "core"@ || repo == "extra"@ || repo == "multilib"@ {
        Some("https://geo.mirror.pkgbuild.com/"@ + repo + "/os/x86_64"@)
    } else if repo == "chaotic-aur"@ {
        Some("https://geo-mirror.chaotic.cx/"@ + repo + "/x86_64"@)
    } else if repo == "xerolinux"@ {
        Some("https://repos.xerolinux.xyz/"@ + repo + "/x86_64"@)
    } else {
        None
    }
}

/// The address of the mirror from which the database of `repo` is fetched.
pub fn mirror_url(repo: &str) -> (r: Option<String>)
    ensures
        option_text(r) == mirror_of(repo@),
{
    if text_eq(repo, "core") || text_eq(repo, "extra") || text_eq(repo, "multilib") {
        let mut url = String::from_str("https://geo.mirror.pkgbuild.com/");
        url.append(repo);
        url.append("/os/x86_64");
        Some(url)
    } else if text_eq(repo, "chaotic-aur") {
        let mut url = String::from_str("https://geo-mirror.chaotic.cx/");
        url.append(repo);
        url.append("/x86_64");
        Some(url)
    } else if text_eq(repo, "xerolinux") {
        let mut url = String::from_str("https://repos.xerolinux.xyz/");
        url.append(repo);
        url.append("/x86_64");
        Some(url)
    } else {
        None
    }
}

/// Where a record comes from.
#[derive(Debug)]
pub enum Origin<'a> {
    /// The local database: the package is installed.
    Local,
    /// The sync database of this name: the package is available.
    Sync { repository: &'a str },
}

/// The details of a package, from its record and where that was found.
pub fn package_info(pkg: &PackageRecord, origin: Origin<'_>) -> (r: PackageInfo)
    ensures
        r.package@ == match origin {
            Origin::Local => installed_view(*pkg),
            Origin::Sync { repository } => available_view(*pkg, repository@),
        },
        option_text(r.url) == option_text(pkg.url),
        texts(r.licenses@) == texts(pkg.licenses@),
        texts(r.groups@) == texts(pkg.groups@),
        texts(r.depends@) == texts(pkg.depends@),
        texts(r.optdepends@) == texts(pkg.optdepends@),
        texts(r.provides@) == texts(pkg.provides@),
        texts(r.conflicts@) == texts(pkg.conflicts@),
        texts(r.replaces@) == texts(pkg.replaces@),
        r.installed_size == pkg.isize as u64,
        r.download_size == pkg.download_size as u64,
        r.build_date == Some(pkg.build_date),
        r.install_date == match origin {
            Origin::Local => pkg.install_date,
            Origin::Sync { .. } => None,
        },
        option_text(r.packager) == option_text(pkg.packager),
        r.arch@ == match pkg.arch {
            Some(arch) => arch@,
            None => "any"@,
        },
        r.reason == match origin {
            Origin::Local => Some(pkg.reason),
            Origin::Sync { .. } => None,
        },
{
    let package = match origin {
        Origin::Local => installed_package(pkg),
        Origin::Sync { repository } => Package::new(
            pkg.name.as_str(),
            Version::new(pkg.version.as_str()),
            description_of(pkg),
            PackageBackend::Pacman,
            PackageStatus::Available,
            repository,
        ),
    };
    let install_date = match origin {
        Origin::Local => pkg.install_date,
        Origin::Sync { .. } => None,
    };
    let reason = match origin {
        Origin::Local => Some(pkg.reason),
        Origin::Sync { .. } => None,
    };
    let arch = match &pkg.arch {
        Some(arch) => arch.clone(),
        None => String::from_str("any"),
    };
    PackageInfo {
        package,
        url: copy_option_text(&pkg.url),
        licenses: copy_texts(&pkg.licenses),
        groups: copy_texts(&pkg.groups),
        depends: copy_texts(&pkg.depends),
        optdepends: copy_texts(&pkg.optdepends),
        provides: copy_texts(&pkg.provides),
        conflicts: copy_texts(&pkg.conflicts),
        replaces: copy_texts(&pkg.replaces),
        installed_size: pkg.isize as u64,
        download_size: pkg.download_size as u64,
        build_date: Some(pkg.build_date),
        install_date,
        packager: copy_option_text(&pkg.packager),
        arch,
        reason,
    }
}

} // verus!
