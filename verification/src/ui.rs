//! The rows that the front end shows, and how packages, updates and local
//! package files become rows.

use crate::names::{humanized, humanize_package_name, TextMap};
use crate::paths::{file_name, file_name_of};
use crate::package::{Package, PackageBackend, PackageStatus, PackageView, SearchResult, UpdateInfo};
use crate::queries::{result_views, SearchResultView};
use crate::size::{format_size, size_text};
use crate::split::{pieces_of, runs, split_pieces};
use crate::text::{
    empty_text, ends_with, from_chars, last_index_of, lowercase, lowercase_text, matches_at,
    push_char, text_eq, to_chars,
};
use vstd::prelude::*;

verus! {

/// The number that stands for pacman in a row.
pub const BACKEND_PACMAN: i32 = 0;

/// The number that stands for Flatpak in a row.
pub const BACKEND_FLATPAK: i32 = 1;

/// The number that stands for a local package file in a row.
pub const BACKEND_LOCAL: i32 = 2;

/// The number that stands for a Plasma widget in a row.
pub const BACKEND_PLASMOID: i32 = 3;

/// The number that stands for firmware in a row.
pub const BACKEND_FIRMWARE: i32 = 4;

/// One row of a package list.
#[derive(Debug, Clone)]
pub struct PackageData {
    pub name: String,
    pub display_name: String,
    pub version: String,
    pub description: String,
    pub repository: String,
    pub backend: i32,
    pub installed: bool,
    pub has_update: bool,
    pub installed_size: String,
    pub licenses: String,
    pub url: String,
    pub dependencies: String,
    pub required_by: String,
    pub icon_name: String,
}

/// The mathematical value of a [`PackageData`].
pub struct RowView {
    pub name: Seq<char>,
    pub display_name: Seq<char>,
    pub version: Seq<char>,
    pub description: Seq<char>,
    pub repository: Seq<char>,
    pub backend: i32,
    pub installed: bool,
    pub has_update: bool,
    pub installed_size: Seq<char>,
    pub licenses: Seq<char>,
    pub url: Seq<char>,
    pub dependencies: Seq<char>,
    pub required_by: Seq<char>,
    pub icon_name: Seq<char>,
}

impl View for PackageData {
    type V = RowView;

    open spec fn view(&self) -> RowView {
        RowView {
            name: self.name@,
            display_name: self.display_name@,
            version: self.version@,
            description: self.description@,
            repository: self.repository@,
            backend: self.backend,
            installed: self.installed,
            has_update: self.has_update,
            installed_size: self.installed_size@,
            licenses: self.licenses@,
            url: self.url@,
            dependencies: self.dependencies@,
            required_by: self.required_by@,
            icon_name: self.icon_name@,
        }
    }
}

/// The values of a list of rows, in order.
pub open spec fn row_views(list: Seq<PackageData>) -> Seq<RowView> {
    Seq::new(list.len(), |i: int| list[i]@)
}

/// A row with the given main columns and nothing in the others.
pub open spec fn plain_row(
    name: Seq<char>,
    display_name: Seq<char>,
    version: Seq<char>,
    description: Seq<char>,
    repository: Seq<char>,
    backend: i32,
    installed: bool,
    has_update: bool,
) -> RowView {
    RowView {
        name,
        display_name,
        version,
        description,
        repository,
        backend,
        installed,
        has_update,
        installed_size: Seq::empty(),
        licenses: Seq::empty(),
        url: Seq::empty(),
        dependencies: Seq::empty(),
        required_by: Seq::empty(),
        icon_name: Seq::empty(),
    }
}

/// Builds a row with the given main columns and nothing in the others.
pub fn make_row(
    name: &str,
    display_name: &str,
    version: &str,
    description: &str,
    repository: &str,
    backend: i32,
    installed: bool,
    has_update: bool,
) -> (r: PackageData)
    ensures
        r@ == plain_row(
            name@,
            display_name@,
            version@,
            description@,
            repository@,
            backend,
            installed,
            has_update,
        ),
{
    PackageData {
        name: String::from_str(name),
        display_name: String::from_str(display_name),
        version: String::from_str(version),
        description: String::from_str(description),
        repository: String::from_str(repository),
        backend,
        installed,
        has_update,
        installed_size: String::new(),
        licenses: String::new(),
        url: String::new(),
        dependencies: String::new(),
        required_by: String::new(),
        icon_name: String::new(),
    }
}

/// The number that stands for a backend in a row.
pub open spec fn backend_number(backend: PackageBackend) -> i32 {
    match backend {
        PackageBackend::Pacman => BACKEND_PACMAN,
        PackageBackend::Flatpak => BACKEND_FLATPAK,
    }
}

/// Whether a status means that the package is on the system.
pub open spec fn counts_as_installed(status: PackageStatus) -> bool {
    status == PackageStatus::Installed || status == PackageStatus::Orphan
}

/// The number that stands for a backend.
fn number_of(backend: PackageBackend) -> (r: i32)
    ensures
        r == backend_number(backend),
{
    match backend {
        PackageBackend::Pacman => BACKEND_PACMAN,
        PackageBackend::Flatpak => BACKEND_FLATPAK,
    }
}

/// Tests whether a status means that the package is on the system.
fn is_installed(status: PackageStatus) -> (r: bool)
    ensures
        r == counts_as_installed(status),
{
    match status {
        PackageStatus::Installed => true,
        PackageStatus::Orphan => true,
        _ => false,
    }
}

/// Convert a Package to PackageData for the UI
pub fn package_to_ui(pkg: &Package, has_update: bool, desktop_map: &TextMap<String>) -> (r:
    PackageData)
    ensures
        r@ == plain_row(
            pkg@.name,
            humanized(pkg@.name, *desktop_map),
            pkg@.version.full,
            pkg@.description,
            pkg@.repository,
            backend_number(pkg.backend),
            counts_as_installed(pkg.status),
            has_update,
        ),
{
    let display_name = humanize_package_name(pkg.name.as_str(), desktop_map);
    make_row(
        pkg.name.as_str(),
        display_name.as_str(),
        pkg.version.full.as_str(),
        pkg.description.as_str(),
        pkg.repository.as_str(),
        number_of(pkg.backend),
        is_installed(pkg.status),
        has_update,
    )
}

/// A change of version as it is shown: the old one, an arrow, the new one.
pub open spec fn version_change(from: Seq<char>, to: Seq<char>) -> Seq<char> {
    from + " → "@ + to
}

/// Writes a change of version.
pub fn show_version_change(from: &str, to: &str) -> (r: String)
    ensures
        r@ == version_change(from@, to@),
{
    let mut out = String::from_str(from);
    out.append(" → ");
    out.append(to);
    out
}

/// Convert UpdateInfo to PackageData for the UI
pub fn update_to_ui(update: &UpdateInfo) -> (r: PackageData)
    ensures
        r@ == (RowView {
            installed_size: size_text(update.download_size),
            ..plain_row(
                update@.name,
                update@.name,
                version_change(update@.current_version.full, update@.new_version.full),
                version_change(update@.current_version.full, update@.new_version.full),
                update@.repository,
                backend_number(update.backend),
                true,
                true,
            )
        }),
{
    let version_str = show_version_change(
        update.current_version.full.as_str(),
        update.new_version.full.as_str(),
    );
    let mut row = make_row(
        update.name.as_str(),
        update.name.as_str(),
        version_str.as_str(),
        version_str.as_str(),
        update.repository.as_str(),
        number_of(update.backend),
        true,
        true,
    );
    row.installed_size = format_size(update.download_size);
    row
}

/// Whether `path` ends like an Arch Linux package file.
pub open spec fn arch_package_name(path: Seq<char>) -> bool {
    ends_with(path, ".pkg.tar.zst"@) || ends_with(path, ".pkg.tar.xz"@) || ends_with(
        path,
        ".pkg.tar.gz"@,
    ) || ends_with(path, ".pkg.tar"@)
}

/// Tests whether `chars` end with `suffix`.
fn has_suffix(chars: &Vec<char>, suffix: &str) -> (r: bool)
    ensures
        r == ends_with(chars@, suffix@),
{
    let pat = to_chars(suffix);
    if pat.len() > chars.len() {
        return false;
    }
    matches_at(chars, &pat, chars.len() - pat.len())
}

/// Check if a file path is a valid Arch Linux package
pub fn is_arch_package(path: &str) -> (r: bool)
    ensures
        r == arch_package_name(path@),
{
    let chars = to_chars(path);
    has_suffix(&chars, ".pkg.tar.zst") || has_suffix(&chars, ".pkg.tar.xz") || has_suffix(
        &chars,
        ".pkg.tar.gz",
    ) || has_suffix(&chars, ".pkg.tar")
}

/// The length of the package suffix that `name` ends in: that of the first
/// of `.pkg.tar.zst`, `.pkg.tar.xz`, `.pkg.tar.gz` and `.pkg.tar` that it
/// ends in, or -1 where it ends in none.
pub open spec fn suffix_length(name: Seq<char>) -> int {
    if ends_with(name, ".pkg.tar.zst"@) {
        ".pkg.tar.zst"@.len() as int
    } else if ends_with(name, ".pkg.tar.xz"@) {
        ".pkg.tar.xz"@.len() as int
    } else if ends_with(name, ".pkg.tar.gz"@) {
        ".pkg.tar.gz"@.len() as int
    } else if ends_with(name, ".pkg.tar"@) {
        ".pkg.tar"@.len() as int
    } else {
        -1
    }
}

/// The name and version that the base of a package file name
/// `name-version-release-architecture` gives.
///
/// The base is read from its end: what follows the last hyphen is the
/// architecture, before it stands the release, before that the version, and
/// what is left is the name.  With only two hyphens nothing is left and the
/// name is empty.  With fewer the whole base is the name and the version is
/// unknown.
pub open spec fn name_and_version(base: Seq<char>) -> (Seq<char>, Seq<char>) {
    let h1 = last_index_of(base, '-', base.len() as int);
    let h2 = last_index_of(base, '-', h1);
    let h3 = last_index_of(base, '-', h2);
    if h1 >= 0 && h2 >= 0 {
        let release = base.subrange(h2 + 1, h1);
        if h3 >= 0 {
            (base.subrange(0, h3), base.subrange(h3 + 1, h2) + seq!['-'] + release)
        } else {
            (Seq::empty(), base.subrange(0, h2) + seq!['-'] + release)
        }
    } else {
        (base, "unknown"@)
    }
}

/// The row for a local package file named `filename`, whose size is shown
/// as `size`.
pub open spec fn local_row(filename: Seq<char>, size: Seq<char>) -> Option<RowView> {
    let cut = suffix_length(filename);
    if cut < 0 {
        None
    } else {
        let parts = name_and_version(filename.subrange(0, filename.len() - cut));
        Some(
            RowView {
                installed_size: size,
                icon_name: "package"@,
                ..plain_row(
                    parts.0,
                    parts.0,
                    parts.1,
                    "Local package: "@ + filename,
                    "local"@,
                    BACKEND_LOCAL,
                    false,
                    false,
                )
            },
        )
    }
}

/// Finds the last hyphen of `chars[..end]` below an index.
fn last_hyphen(chars: &Vec<char>, end: usize, below: Option<usize>) -> (r: Option<usize>)
    requires
        end <= chars@.len(),
        match below {
            Some(b) => b < end,
            None => true,
        },
    ensures
        ({
            let base = chars@.subrange(0, end as int);
            let from = match below {
                Some(b) => b as int,
                None => end as int,
            };
            match r {
                Some(at) => at == last_index_of(base, '-', from) && at < from,
                None => last_index_of(base, '-', from) == -1,
            }
        }),
{
    let ghost base = chars@.subrange(0, end as int);
    let from: usize = match below {
        Some(b) => b,
        None => end,
    };
    let mut i: usize = from;
    while i > 0
        invariant
            i <= from <= end <= chars@.len(),
            from == (match below {
                Some(b) => b,
                None => end,
            }),
            base == chars@.subrange(0, end as int),
            last_index_of(base, '-', i as int) == last_index_of(base, '-', from as int),
        decreases i,
    {
        if chars[i - 1] == '-' {
            return Some(i - 1);
        }
        i = i - 1;
    }
    None
}

/// The length of `suffix`, where `chars` end with it.
fn suffix_of(chars: &Vec<char>, suffix: &str) -> (r: Option<usize>)
    ensures
        match r {
            Some(len) => ends_with(chars@, suffix@) && len == suffix@.len() && len <= chars@.len(),
            None => !ends_with(chars@, suffix@),
        },
{
    let pat = to_chars(suffix);
    if pat.len() > chars.len() {
        return None;
    }
    if matches_at(chars, &pat, chars.len() - pat.len()) {
        Some(pat.len())
    } else {
        None
    }
}

/// The length of the package suffix that `chars` end with.
fn package_suffix(chars: &Vec<char>) -> (r: Option<usize>)
    ensures
        match r {
            Some(len) => len == suffix_length(chars@) && len <= chars@.len(),
            None => suffix_length(chars@) < 0,
        },
{
    if let Some(len) = suffix_of(chars, ".pkg.tar.zst") {
        return Some(len);
    }
    if let Some(len) = suffix_of(chars, ".pkg.tar.xz") {
        return Some(len);
    }
    if let Some(len) = suffix_of(chars, ".pkg.tar.gz") {
        return Some(len);
    }
    suffix_of(chars, ".pkg.tar")
}

/// A version and a release joined by a hyphen.
fn joined_version(chars: &Vec<char>, from: usize, to: usize, release: &str) -> (r: String)
    requires
        from <= to <= chars@.len(),
    ensures
        r@ == chars@.subrange(from as int, to as int) + seq!['-'] + release@,
{
    let mut v = from_chars(chars, from, to);
    v.append("-");
    v.append(release);
    proof {
        reveal_strlit("-");
    }
    v
}

/// Reads the name and the version off the base `chars[..end]` of a package
/// file name.
fn split_name_version(chars: &Vec<char>, end: usize) -> (r: (String, String))
    requires
        end <= chars@.len(),
    ensures
        (r.0@, r.1@) == name_and_version(chars@.subrange(0, end as int)),
{
    let first = last_hyphen(chars, end, None);
    let h1: usize = match first {
        Some(at) => at,
        None => {
            return (from_chars(chars, 0, end), String::from_str("unknown"));
        },
    };
    let second = last_hyphen(chars, end, Some(h1));
    let h2: usize = match second {
        Some(at) => at,
        None => {
            return (from_chars(chars, 0, end), String::from_str("unknown"));
        },
    };
    let release = from_chars(chars, h2 + 1, h1);
    match last_hyphen(chars, end, Some(h2)) {
        Some(h3) => {
            let name = from_chars(chars, 0, h3);
            let version = joined_version(chars, h3 + 1, h2, release.as_str());
            (name, version)
        },
        None => {
            let version = joined_version(chars, 0, h2, release.as_str());
            (String::new(), version)
        },
    }
}

/// The row for a local package file, from its file name and, where it could
/// be read, its size in bytes.  There is none where the name does not end
/// like a package file.
pub fn local_package_info(filename: &str, size: Option<u64>) -> (r: Option<PackageData>)
    ensures
        match r {
            Some(row) => local_row(filename@, shown_size(size)) == Some(row@),
            None => local_row(filename@, shown_size(size)) is None,
        },
{
    let chars = to_chars(filename);
    let cut: usize = match package_suffix(&chars) {
        Some(len) => len,
        None => {
            return None;
        },
    };
    let parts = split_name_version(&chars, chars.len() - cut);
    let size_shown = match size {
        Some(bytes) => format_size(bytes),
        None => String::from_str("Unknown"),
    };
    let mut description = String::from_str("Local package: ");
    description.append(filename);
    let mut row = make_row(
        parts.0.as_str(),
        parts.0.as_str(),
        parts.1.as_str(),
        description.as_str(),
        "local",
        BACKEND_LOCAL,
        false,
        false,
    );
    row.installed_size = size_shown;
    row.icon_name = String::from_str("package");
    Some(row)
}

/// The text that shows a size which may not be known.
pub open spec fn shown_size(size: Option<u64>) -> Seq<char> {
    match size {
        Some(bytes) => size_text(bytes),
        None => "Unknown"@,
    }
}

/// The row for the local package file at `path`: that of its file name,
/// where the file exists and the path has a file name.
pub open spec fn local_file_row(path: Seq<char>, exists: bool, size: Option<u64>) -> Option<
    RowView,
> {
    if !exists {
        None
    } else {
        match file_name_of(path) {
            Some(filename) => local_row(filename, shown_size(size)),
            None => None,
        }
    }
}

/// Extract package info from a local package file.  `exists` says whether
/// the file is there, and `size` is its size in bytes where that could be
/// read.
pub fn get_local_package_info(path: &str, exists: bool, size: Option<u64>) -> (r: Option<
    PackageData,
>)
    ensures
        match r {
            Some(row) => local_file_row(path@, exists, size) == Some(row@),
            None => local_file_row(path@, exists, size) is None,
        },
{
    if !exists {
        return None;
    }
    match file_name(path) {
        Some(filename) => local_package_info(filename.as_str(), size),
        None => None,
    }
}

/// A copy of a row.
pub fn copy_row(row: &PackageData) -> (r: PackageData)
    ensures
        r@ == row@,
{
    PackageData {
        name: row.name.clone(),
        display_name: row.display_name.clone(),
        version: row.version.clone(),
        description: row.description.clone(),
        repository: row.repository.clone(),
        backend: row.backend,
        installed: row.installed,
        has_update: row.has_update,
        installed_size: row.installed_size.clone(),
        licenses: row.licenses.clone(),
        url: row.url.clone(),
        dependencies: row.dependencies.clone(),
        required_by: row.required_by.clone(),
        icon_name: row.icon_name.clone(),
    }
}

/// A text with a space for every underscore and every hyphen.
pub open spec fn spaced(text: Seq<char>) -> Seq<char> {
    Seq::new(
        text.len(),
        |i: int|
            if text[i] == '_' || text[i] == '-' {
                ' '
            } else {
                text[i]
            },
    )
}

/// The name shown for a Flatpak application of which only the identifier is
/// known: what follows the last dot, with spaces for underscores and
/// hyphens.
pub open spec fn fallback_name(app_id: Seq<char>) -> Seq<char> {
    spaced(pieces_of(app_id, seq!['.']).last())
}

/// Makes a readable name from the identifier of a Flatpak application.
pub fn flatpak_fallback_name(app_id: &str) -> (r: String)
    ensures
        r@ == fallback_name(app_id@),
{
    let chars = to_chars(app_id);
    let mut seps: Vec<char> = Vec::new();
    seps.push('.');
    let mut parts = split_pieces(&chars, &seps);
    let last = match parts.pop() {
        Some(part) => part,
        None => Vec::new(),
    };
    let mut out = String::new();
    let mut i: usize = 0;
    while i < last.len()
        invariant
            i <= last@.len(),
            out@ == spaced(last@).subrange(0, i as int),
        decreases last@.len() - i,
    {
        let c = if last[i] == '_' || last[i] == '-' {
            ' '
        } else {
            last[i]
        };
        push_char(&mut out, c);
        i = i + 1;
    }
    out
}

/// The row for a Flatpak application.  The table gives its name and its
/// summary under its identifier in lower case; without an entry the name
/// is made from the identifier and the summary is empty.
pub open spec fn flatpak_row(
    pkg: PackageView,
    has_update: bool,
    table: TextMap<(String, String)>,
) -> RowView {
    let key = lowercase(pkg.name);
    plain_row(
        pkg.name,
        if table.pairs().dom().contains(key) {
            table.pairs()[key].0
        } else {
            fallback_name(pkg.name)
        },
        pkg.version.full,
        if table.pairs().dom().contains(key) {
            table.pairs()[key].1
        } else {
            Seq::empty()
        },
        pkg.repository,
        BACKEND_FLATPAK,
        counts_as_installed(pkg.status),
        has_update,
    )
}

/// Convert a Flatpak package to PackageData for the UI
pub fn flatpak_to_ui(pkg: &Package, has_update: bool, name_map: &TextMap<(String, String)>) -> (r:
    PackageData)
    ensures
        r@ == flatpak_row(pkg@, has_update, *name_map),
{
    // Try case-insensitive lookup
    let key = lowercase_text(pkg.name.as_str());
    match name_map.pair_at(key.as_str()) {
        Some(pair) => make_row(
            pkg.name.as_str(),
            pair.0.as_str(),
            pkg.version.full.as_str(),
            pair.1.as_str(),
            pkg.repository.as_str(),
            BACKEND_FLATPAK,
            is_installed(pkg.status),
            has_update,
        ),
        None => {
            // Fallback: extract readable name from app ID
            let display_name = flatpak_fallback_name(pkg.name.as_str());
            make_row(
                pkg.name.as_str(),
                display_name.as_str(),
                pkg.version.full.as_str(),
                empty_text(),
                pkg.repository.as_str(),
                BACKEND_FLATPAK,
                is_installed(pkg.status),
                has_update,
            )
        },
    }
}

/// The row for a search result from pacman.
pub open spec fn pacman_result_row(result: SearchResultView, table: TextMap<String>) -> RowView {
    plain_row(
        result.name,
        humanized(result.name, table),
        result.version.full,
        result.description,
        result.repository,
        BACKEND_PACMAN,
        result.installed,
        false,
    )
}

/// The row for a search result from Flatpak.
pub open spec fn flatpak_result_row(result: SearchResultView) -> RowView {
    plain_row(
        result.name,
        result.name,
        result.version.full,
        result.description,
        result.repository,
        BACKEND_FLATPAK,
        result.installed,
        false,
    )
}

/// The most rows that a search shows.
pub const SEARCH_LIMIT: usize = 100;

/// The rows of a search before they are cut: those of pacman's results,
/// then those of Flatpak's.
pub open spec fn all_result_rows(
    pacman: Seq<SearchResultView>,
    flatpak: Seq<SearchResultView>,
    table: TextMap<String>,
) -> Seq<RowView> {
    Seq::new(pacman.len(), |i: int| pacman_result_row(pacman[i], table)) + Seq::new(
        flatpak.len(),
        |i: int| flatpak_result_row(flatpak[i]),
    )
}

/// The rows that a search shows: the first hundred of all its rows.
pub open spec fn result_rows(
    pacman: Seq<SearchResultView>,
    flatpak: Seq<SearchResultView>,
    table: TextMap<String>,
) -> Seq<RowView> {
    let all = all_result_rows(pacman, flatpak, table);
    if all.len() > SEARCH_LIMIT {
        all.subrange(0, SEARCH_LIMIT as int)
    } else {
        all
    }
}

/// Converts search results to rows: pacman's first, then Flatpak's, a
/// hundred at most.
pub fn search_to_ui(
    pacman_results: &Vec<SearchResult>,
    flatpak_results: &Vec<SearchResult>,
    desktop_map: &TextMap<String>,
) -> (r: Vec<PackageData>)
    ensures
        row_views(r@) == result_rows(
            result_views(pacman_results@),
            result_views(flatpak_results@),
            *desktop_map,
        ),
{
    let ghost all = all_result_rows(
        result_views(pacman_results@),
        result_views(flatpak_results@),
        *desktop_map,
    );
    let mut results: Vec<PackageData> = Vec::new();
    let mut i: usize = 0;
    while i < pacman_results.len() && results.len() < SEARCH_LIMIT
        invariant
            i <= pacman_results@.len(),
            results@.len() == i,
            i <= SEARCH_LIMIT,
            all == all_result_rows(
                result_views(pacman_results@),
                result_views(flatpak_results@),
                *desktop_map,
            ),
            row_views(results@) == all.subrange(0, i as int),
        decreases pacman_results@.len() - i,
    {
        let result = &pacman_results[i];
        let display_name = humanize_package_name(result.name.as_str(), desktop_map);
        results.push(
            make_row(
                result.name.as_str(),
                display_name.as_str(),
                result.version.full.as_str(),
                result.description.as_str(),
                result.repository.as_str(),
                BACKEND_PACMAN,
                result.installed,
                false,
            ),
        );
        i = i + 1;
    }
    let taken: usize = i;
    if taken < pacman_results.len() {
        return results;
    }
    let mut k: usize = 0;
    while k < flatpak_results.len() && results.len() < SEARCH_LIMIT
        invariant
            k <= flatpak_results@.len(),
            taken == pacman_results@.len(),
            results@.len() == taken + k,
            taken + k <= SEARCH_LIMIT,
            all == all_result_rows(
                result_views(pacman_results@),
                result_views(flatpak_results@),
                *desktop_map,
            ),
            row_views(results@) == all.subrange(0, taken + k),
        decreases flatpak_results@.len() - k,
    {
        let result = &flatpak_results[k];
        results.push(
            make_row(
                result.name.as_str(),
                result.name.as_str(),
                result.version.full.as_str(),
                result.description.as_str(),
                result.repository.as_str(),
                BACKEND_FLATPAK,
                result.installed,
                false,
            ),
        );
        k = k + 1;
    }
    results
}

/// The numbers shown on the front page.
#[derive(Debug, Clone)]
pub struct StatsData {
    pub pacman_count: i32,
    pub flatpak_count: i32,
    pub orphan_count: i32,
    pub update_count: i32,
    pub cache_size: String,
}

/// The counts from which the front page's numbers are made.
#[derive(Debug, Clone, Copy)]
pub struct Counts {
    /// Installed pacman packages.
    pub pacman: usize,
    /// Flatpak applications.
    pub flatpak: usize,
    /// Orphans.
    pub orphans: usize,
    /// Pending pacman updates.
    pub pacman_updates: usize,
    /// Pending Flatpak updates.
    pub flatpak_updates: usize,
    /// Pending widget updates.
    pub plasmoid_updates: usize,
    /// Devices with a firmware update.
    pub firmware_updates: usize,
    /// Bytes in the package cache.
    pub cache_bytes: u64,
}

/// All pending updates together.
pub open spec fn total_updates(counts: Counts) -> int {
    counts.pacman_updates + counts.flatpak_updates + counts.plasmoid_updates
        + counts.firmware_updates
}

/// Makes the front page's numbers; each count is cut to the 32 bits that the
/// page holds.
pub fn make_stats(counts: Counts) -> (r: StatsData)
    requires
        total_updates(counts) <= usize::MAX,
    ensures
        r.pacman_count == counts.pacman as i32,
        r.flatpak_count == counts.flatpak as i32,
        r.orphan_count == counts.orphans as i32,
        r.update_count == (total_updates(counts) as usize) as i32,
        r.cache_size@ == size_text(counts.cache_bytes),
{
    let total: usize = counts.pacman_updates + counts.flatpak_updates + counts.plasmoid_updates
        + counts.firmware_updates;
    StatsData {
        pacman_count: counts.pacman as i32,
        flatpak_count: counts.flatpak as i32,
        orphan_count: counts.orphans as i32,
        update_count: total as i32,
        cache_size: format_size(counts.cache_bytes),
    }
}

/// How many of `rows[..n]` have an update.
pub open spec fn with_update(rows: Seq<RowView>, n: int) -> nat
    decreases n,
{
    if n <= 0 {
        0
    } else {
        with_update(rows, n - 1) + if rows[n - 1].has_update {
            1nat
        } else {
            0nat
        }
    }
}

/// Counts the rows that have an update.
pub fn count_updates(rows: &Vec<PackageData>) -> (r: usize)
    ensures
        r == with_update(row_views(rows@), rows@.len() as int),
{
    let mut count: usize = 0;
    let mut i: usize = 0;
    while i < rows.len()
        invariant
            i <= rows@.len(),
            count <= i,
            count == with_update(row_views(rows@), i as int),
        decreases rows@.len() - i,
    {
        if rows[i].has_update {
            count = count + 1;
        }
        i = i + 1;
    }
    count
}

/// The rows of `rows[..n]` that remain when, of rows in a run under one
/// name, only the first is kept.
pub open spec fn deduped(rows: Seq<RowView>, n: int) -> Seq<RowView>
    decreases n,
{
    if n <= 0 {
        Seq::empty()
    } else if deduped(rows, n - 1).len() > 0 && deduped(rows, n - 1).last().name == rows[n
        - 1].name {
        deduped(rows, n - 1)
    } else {
        deduped(rows, n - 1).push(rows[n - 1])
    }
}

/// Removes the rows that repeat the name of the row kept before them.
pub fn dedup_by_name(rows: &Vec<PackageData>) -> (r: Vec<PackageData>)
    ensures
        row_views(r@) == deduped(row_views(rows@), rows@.len() as int),
{
    let mut kept: Vec<PackageData> = Vec::new();
    let mut i: usize = 0;
    while i < rows.len()
        invariant
            i <= rows@.len(),
            row_views(kept@) == deduped(row_views(rows@), i as int),
        decreases rows@.len() - i,
    {
        let n: usize = kept.len();
        let repeats = if n > 0 {
            text_eq(kept[n - 1].name.as_str(), rows[i].name.as_str())
        } else {
            false
        };
        if !repeats {
            let row = copy_row(&rows[i]);
            kept.push(row);
        }
        i = i + 1;
    }
    kept
}

} // verus!
