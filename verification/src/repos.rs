//! What the package manager's tools print, read line by line: the
//! repositories of `pacman.conf`, the packages of a repository, the updates
//! that are pending.

use crate::names::{humanized, humanize_package_name, TextMap};
use crate::package::{version_parts, PackageBackend, UpdateInfo, Version};
use crate::paths::{file_stem, file_stem_of};
use crate::queries::UpdateView;
use crate::split::{
    fields_of, find_char_from, holds_text, lemma_index_of_bounds, lines_of, runs, slice_of,
    split_fields, split_lines, trim, trimmed,
};
use crate::text::{
    chars_eq, contains, empty_text, ends_with, find_from, from_chars, index_of, lowercase,
    lowercase_text, matches_at, texts, text_of, to_chars,
};
use crate::ui::{make_row, plain_row, row_views, BACKEND_PACMAN, PackageData, RowView};
use vstd::prelude::*;

verus! {

/// The repository that a line of `pacman.conf` opens, if it opens one: the
/// line, white space around it aside, is a name in square brackets, and the
/// name is not `options`.
pub open spec fn section_of(raw: Seq<char>) -> Option<Seq<char>> {
    let line = trimmed(raw);
    if line.len() >= 2 && line[0] == '[' && line.last() == ']' && line.subrange(
        1,
        line.len() - 1,
    ) != "options"@ {
        Some(line.subrange(1, line.len() - 1))
    } else {
        None
    }
}

/// The repositories that the first `n` of `lines` open, in order.
pub open spec fn sections_of(lines: Seq<Seq<char>>, n: int) -> Seq<Seq<char>>
    decreases n,
{
    if n <= 0 {
        Seq::empty()
    } else {
        match section_of(lines[n - 1]) {
            Some(repo) => sections_of(lines, n - 1).push(repo),
            None => sections_of(lines, n - 1),
        }
    }
}

/// The active repositories that a `pacman.conf` names; none where the file
/// could not be read.
pub open spec fn repos_of(content: Option<Seq<char>>) -> Seq<Seq<char>> {
    match content {
        Some(text) => sections_of(lines_of(text), lines_of(text).len() as int),
        None => Seq::empty(),
    }
}

/// Reads the repository that a line of `pacman.conf` opens.
fn section_name(raw: &Vec<char>) -> (r: Option<String>)
    ensures
        match r {
            Some(repo) => section_of(raw@) == Some(repo@),
            None => section_of(raw@) is None,
        },
{
    let line = trim(raw);
    let n: usize = line.len();
    if n >= 2 && line[0] == '[' && line[n - 1] == ']' {
        let repo = slice_of(&line, 1, n - 1);
        let options = to_chars("options");
        if !chars_eq(&repo, &options) {
            return Some(text_of(&repo));
        }
    }
    None
}

/// Parse active repos from the text of /etc/pacman.conf
pub fn parse_pacman_repos(content: Option<&str>) -> (r: Vec<String>)
    ensures
        texts(r@) == repos_of(
            match content {
                Some(text) => Some(text@),
                None => None,
            },
        ),
{
    let mut repos: Vec<String> = Vec::new();
    if let Some(text) = content {
        let chars = to_chars(text);
        let lines = split_lines(&chars);
        let mut i: usize = 0;
        while i < lines.len()
            invariant
                i <= lines@.len(),
                runs(lines@) == lines_of(text@),
                texts(repos@) == sections_of(runs(lines@), i as int),
            decreases lines@.len() - i,
        {
            if let Some(repo) = section_name(&lines[i]) {
                repos.push(repo);
            }
            i = i + 1;
        }
    }
    repos
}

/// One line of a repository listing, taken apart at its first three tabs:
/// repository, name, version, and the description, which is the rest.
pub struct ListingLine {
    pub repository: Seq<char>,
    pub name: Seq<char>,
    pub version: Seq<char>,
    pub description: Seq<char>,
}

/// The four parts of a listing line, where it has three tabs.
pub open spec fn listing_line(line: Seq<char>) -> Option<ListingLine> {
    let t1 = index_of(line, '\t', 0);
    let t2 = index_of(line, '\t', t1 + 1);
    let t3 = index_of(line, '\t', t2 + 1);
    if t1 < line.len() && t2 < line.len() && t3 < line.len() {
        Some(
            ListingLine {
                repository: line.subrange(0, t1),
                name: line.subrange(t1 + 1, t2),
                version: line.subrange(t2 + 1, t3),
                description: line.subrange(t3 + 1, line.len() as int),
            },
        )
    } else {
        None
    }
}

/// The row for a package of the repository `repo`.
pub open spec fn listing_row(
    part: ListingLine,
    installed: Seq<Seq<char>>,
    table: TextMap<String>,
) -> RowView {
    plain_row(
        part.name,
        humanized(part.name, table),
        part.version,
        part.description,
        part.repository,
        BACKEND_PACMAN,
        installed.contains(part.name),
        false,
    )
}

/// The rows that the first `n` of `lines` give for the repository `repo`:
/// one for each line that is of that repository, in order.
pub open spec fn listing_rows(
    lines: Seq<Seq<char>>,
    n: int,
    repo: Seq<char>,
    installed: Seq<Seq<char>>,
    table: TextMap<String>,
) -> Seq<RowView>
    decreases n,
{
    if n <= 0 {
        Seq::empty()
    } else {
        let rest = listing_rows(lines, n - 1, repo, installed, table);
        match listing_line(lines[n - 1]) {
            Some(part) => if part.repository == repo {
                rest.push(listing_row(part, installed, table))
            } else {
                rest
            },
            None => rest,
        }
    }
}

/// The rows of the repository `repo`, from the listing of all packages and
/// the list of installed names, each as its tool printed it.  No listing
/// gives no rows; no list of installed names means that none is installed.
pub open spec fn repo_rows(
    listing: Option<Seq<char>>,
    repo: Seq<char>,
    installed: Option<Seq<char>>,
    table: TextMap<String>,
) -> Seq<RowView> {
    match listing {
        Some(text) => listing_rows(
            lines_of(text),
            lines_of(text).len() as int,
            repo,
            match installed {
                Some(names) => lines_of(names),
                None => Seq::empty(),
            },
            table,
        ),
        None => Seq::empty(),
    }
}

/// Load packages from a specific pacman repo with humanized names
pub fn load_repo_packages(
    listing: Option<&str>,
    repo: &str,
    installed: Option<&str>,
    desktop_map: &TextMap<String>,
) -> (r: Vec<PackageData>)
    ensures
        row_views(r@) == repo_rows(
            match listing {
                Some(text) => Some(text@),
                None => None,
            },
            repo@,
            match installed {
                Some(text) => Some(text@),
                None => None,
            },
            *desktop_map,
        ),
{
    let mut packages: Vec<PackageData> = Vec::new();
    let text = match listing {
        Some(text) => text,
        None => {
            return packages;
        },
    };
    // Get installed package names
    let installed_names: Vec<Vec<char>> = match installed {
        Some(names) => {
            let chars = to_chars(names);
            split_lines(&chars)
        },
        None => Vec::new(),
    };
    proof {
        if installed is None {
            assert(runs(installed_names@) =~= Seq::<Seq<char>>::empty());
        }
    }
    let wanted = to_chars(repo);
    let chars = to_chars(text);
    let lines = split_lines(&chars);
    let mut i: usize = 0;
    while i < lines.len()
        invariant
            i <= lines@.len(),
            wanted@ == repo@,
            runs(lines@) == lines_of(text@),
            row_views(packages@) == listing_rows(
                runs(lines@),
                i as int,
                repo@,
                runs(installed_names@),
                *desktop_map,
            ),
        decreases lines@.len() - i,
    {
        let line = &lines[i];
        let n: usize = line.len();
        let t1: usize = find_char_from(line, '\t', 0);
        if t1 < n {
            let t2: usize = find_char_from(line, '\t', t1 + 1);
            if t2 < n {
                let t3: usize = find_char_from(line, '\t', t2 + 1);
                if t3 < n {
                    let repository = slice_of(line, 0, t1);
                    if chars_eq(&repository, &wanted) {
                        let name = slice_of(line, t1 + 1, t2);
                        let is_installed = holds_text(&installed_names, &name);
                        let name_text = text_of(&name);
                        let display_name = humanize_package_name(name_text.as_str(), desktop_map);
                        let version = from_chars(line, t2 + 1, t3);
                        let description = from_chars(line, t3 + 1, n);
                        packages.push(
                            make_row(
                                name_text.as_str(),
                                display_name.as_str(),
                                version.as_str(),
                                description.as_str(),
                                repo,
                                BACKEND_PACMAN,
                                is_installed,
                                false,
                            ),
                        );
                    }
                }
            }
        }
        proof {
            lemma_index_of_bounds(line@, '\t', 0);
            if t1 < n {
                lemma_index_of_bounds(line@, '\t', t1 + 1);
                let t2 = index_of(line@, '\t', t1 + 1);
                if t2 < n {
                    lemma_index_of_bounds(line@, '\t', t2 + 1);
                }
            }
        }
        i = i + 1;
    }
    packages
}

/// The update that a line of the update check tells of.
///
/// A line of four fields or more, `name old -> new`, gives both versions.
/// A line of two or three, `name new`, gives the new one alone.  Any other
/// line tells of none.
pub open spec fn update_of_line(line: Seq<char>) -> Option<UpdateView> {
    let parts = fields_of(line);
    if parts.len() >= 4 {
        Some(
            UpdateView {
                name: parts[0],
                current_version: version_parts(parts[1]),
                new_version: version_parts(parts[3]),
                backend: PackageBackend::Pacman,
                repository: Seq::empty(),
                download_size: 0,
            },
        )
    } else if parts.len() >= 2 {
        Some(
            UpdateView {
                name: parts[0],
                current_version: version_parts(Seq::empty()),
                new_version: version_parts(parts[1]),
                backend: PackageBackend::Pacman,
                repository: Seq::empty(),
                download_size: 0,
            },
        )
    } else {
        None
    }
}

/// The updates that the first `n` of `lines` tell of, in order.
pub open spec fn updates_of_lines(lines: Seq<Seq<char>>, n: int) -> Seq<UpdateView>
    decreases n,
{
    if n <= 0 {
        Seq::empty()
    } else {
        match update_of_line(lines[n - 1]) {
            Some(update) => updates_of_lines(lines, n - 1).push(update),
            None => updates_of_lines(lines, n - 1),
        }
    }
}

/// The values of a list of updates, in order.
pub open spec fn update_views(list: Seq<UpdateInfo>) -> Seq<UpdateView> {
    Seq::new(list.len(), |i: int| list[i]@)
}

/// Reads one line of the update check.
pub fn parse_update_line(line: &Vec<char>) -> (r: Option<UpdateInfo>)
    ensures
        match r {
            Some(update) => update_of_line(line@) == Some(update@),
            None => update_of_line(line@) is None,
        },
{
    let parts = split_fields(line);
    if parts.len() >= 4 {
        // checkupdates format: name old_ver -> new_ver
        let old = text_of(&parts[1]);
        let new = text_of(&parts[3]);
        Some(
            UpdateInfo {
                name: text_of(&parts[0]),
                current_version: Version::new(old.as_str()),
                new_version: Version::new(new.as_str()),
                backend: PackageBackend::Pacman,
                repository: String::new(),
                download_size: 0,
            },
        )
    } else if parts.len() >= 2 {
        // pacman -Qu format: name new_ver
        let new = text_of(&parts[1]);
        Some(
            UpdateInfo {
                name: text_of(&parts[0]),
                current_version: Version::new(empty_text()),
                new_version: Version::new(new.as_str()),
                backend: PackageBackend::Pacman,
                repository: String::new(),
                download_size: 0,
            },
        )
    } else {
        None
    }
}

/// Reads what the update check printed: the pending updates, in order.
pub fn parse_updates(output: &str) -> (r: Vec<UpdateInfo>)
    ensures
        update_views(r@) == updates_of_lines(lines_of(output@), lines_of(output@).len() as int),
{
    let mut updates: Vec<UpdateInfo> = Vec::new();
    let chars = to_chars(output);
    let lines = split_lines(&chars);
    let mut i: usize = 0;
    while i < lines.len()
        invariant
            i <= lines@.len(),
            runs(lines@) == lines_of(output@),
            update_views(updates@) == updates_of_lines(runs(lines@), i as int),
        decreases lines@.len() - i,
    {
        if let Some(update) = parse_update_line(&lines[i]) {
            updates.push(update);
        }
        i = i + 1;
    }
    updates
}

/// The table of display names after one line of the list of owned files is
/// taken in.
///
/// A line `package path` whose path, of a desktop file under
/// `/usr/share/applications/`, has a stem that the table knows in lower
/// case, puts the name found there under the package's name in lower case.
pub open spec fn names_with_owner(
    before: Map<Seq<char>, Seq<char>>,
    line: Seq<char>,
) -> Map<Seq<char>, Seq<char>> {
    let space = index_of(line, ' ', 0);
    let stem = lowercase(
        match file_stem_of(trimmed(line.subrange(space + 1, line.len() as int))) {
            Some(s) => s,
            None => Seq::empty(),
        },
    );
    if contains(line, "/usr/share/applications/"@) && ends_with(line, ".desktop"@) && space
        < line.len() && before.dom().contains(stem) {
        before.insert(lowercase(line.subrange(0, space)), before[stem])
    } else {
        before
    }
}

/// The table after the first `n` of `lines` are taken in.
pub open spec fn names_with_owners(
    before: Map<Seq<char>, Seq<char>>,
    lines: Seq<Seq<char>>,
    n: int,
) -> Map<Seq<char>, Seq<char>>
    decreases n,
{
    if n <= 0 {
        before
    } else {
        names_with_owner(names_with_owners(before, lines, n - 1), lines[n - 1])
    }
}

/// Takes one line of the list of owned files into the table of names.
fn add_owner_line(map: &mut TextMap<String>, line: &Vec<char>)
    ensures
        final(map).texts() == names_with_owner(old(map).texts(), line@),
{
    let n: usize = line.len();
    let marker = to_chars("/usr/share/applications/");
    let ending = to_chars(".desktop");
    if find_from(line, &marker, 0).is_none() {
        return ;
    }
    if ending.len() > n || !matches_at(line, &ending, n - ending.len()) {
        return ;
    }
    let space: usize = find_char_from(line, ' ', 0);
    if space >= n {
        return ;
    }
    let pkg_name = from_chars(line, 0, space);
    let rest = slice_of(line, space + 1, n);
    let desktop_path = text_of(&trim(&rest));
    let stem = match file_stem(desktop_path.as_str()) {
        Some(s) => s,
        None => String::new(),
    };
    let file_stem = lowercase_text(stem.as_str());
    // If we have a human name for this desktop file, map the package name to it
    let human_name = match map.text_at(file_stem.as_str()) {
        Some(name) => name.clone(),
        None => {
            return ;
        },
    };
    map.put(lowercase_text(pkg_name.as_str()), human_name);
}

/// Takes the list of files that packages own into the table of display
/// names, so that a package is known by the name of its desktop file.
pub fn add_owner_names(map: &mut TextMap<String>, listing: &str)
    ensures
        final(map).texts() == names_with_owners(
            old(map).texts(),
            lines_of(listing@),
            lines_of(listing@).len() as int,
        ),
{
    let chars = to_chars(listing);
    let lines = split_lines(&chars);
    let mut i: usize = 0;
    while i < lines.len()
        invariant
            i <= lines@.len(),
            runs(lines@) == lines_of(listing@),
            map.texts() == names_with_owners(old(map).texts(), runs(lines@), i as int),
        decreases lines@.len() - i,
    {
        add_owner_line(map, &lines[i]);
        i = i + 1;
    }
}

} // verus!
