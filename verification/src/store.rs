//! Plasma widgets and the versions that the KDE Store offers of them.

use crate::chars::{char_is_digit, is_digit};
use crate::desktop::{
    parse_plasmoid_desktop, plasmoid_of_desktop, unknown_plasmoid, PlasmoidInfo, PlasmoidView,
};
use crate::json::{json_of, read_json, Json};
use crate::number::{parse_digits, parse_digit_run};
use crate::text::{contains, empty_text, push_char, text_contains, text_eq, to_chars};
use crate::ui::{
    make_row, plain_row, show_version_change, version_change, BACKEND_PLASMOID, PackageData,
    RowView,
};
use crate::version_order::{digits_end, lemma_scan_bounds};
use vstd::prelude::*;

verus! {

/// The first index at or after `i` that holds a digit, or the length.
pub open spec fn digits_start(s: Seq<char>, i: int) -> int
    decreases s.len() - i,
{
    if 0 <= i < s.len() && !is_digit(s[i]) {
        digits_start(s, i + 1)
    } else {
        i
    }
}

/// The numbers written in `s[i..]`: every run of digits that a `u32` can
/// hold, in order.  A run too long for that is passed over.
pub open spec fn numbers_from(s: Seq<char>, i: int) -> Seq<u32>
    decreases s.len() - i,
{
    let a = digits_start(s, i);
    let b = digits_end(s, a);
    if i < 0 || i > s.len() || a >= s.len() {
        Seq::empty()
    } else {
        proof {
            lemma_digits_start_bounds(s, i);
            lemma_scan_bounds(s, a);
        }
        match parse_digits(s.subrange(a, b)) {
            Some(value) => seq![value] + numbers_from(s, b),
            None => numbers_from(s, b),
        }
    }
}

/// The numbers written in a version.
pub open spec fn numbers_of(s: Seq<char>) -> Seq<u32> {
    numbers_from(s, 0)
}

/// The `i`-th of `parts`, or 0 beyond its end.
pub open spec fn part_or_zero(parts: Seq<u32>, i: int) -> u32 {
    if 0 <= i < parts.len() {
        parts[i]
    } else {
        0
    }
}

/// Whether `store`, from part `i` on, is ahead of `current`: at the first
/// place where they differ it holds the greater number.  The shorter one
/// counts as ending in zeros.
pub open spec fn ahead_from(store: Seq<u32>, current: Seq<u32>, i: int) -> bool
    decreases store.len() + current.len() - i,
{
    if i < 0 || (i >= store.len() && i >= current.len()) {
        false
    } else if part_or_zero(store, i) > part_or_zero(current, i) {
        true
    } else if part_or_zero(store, i) < part_or_zero(current, i) {
        false
    } else {
        ahead_from(store, current, i + 1)
    }
}

/// Whether the store's version is newer than the current one, by the
/// numbers written in them.
pub open spec fn newer(store_version: Seq<char>, current_version: Seq<char>) -> bool {
    ahead_from(numbers_of(store_version), numbers_of(current_version), 0)
}

/// Scanning for a digit moves forward, stays within the text and ends on a
/// digit.
pub proof fn lemma_digits_start_bounds(s: Seq<char>, i: int)
    requires
        0 <= i <= s.len(),
    ensures
        i <= digits_start(s, i) <= s.len(),
        digits_start(s, i) < s.len() ==> is_digit(s[digits_start(s, i)]),
    decreases s.len() - i,
{
    if i < s.len() && !is_digit(s[i]) {
        lemma_digits_start_bounds(s, i + 1);
    }
}

/// Reads the numbers written in a version.
pub fn version_numbers(version: &str) -> (r: Vec<u32>)
    ensures
        r@ == numbers_of(version@),
{
    let chars = to_chars(version);
    let n: usize = chars.len();
    let mut parts: Vec<u32> = Vec::new();
    let mut i: usize = 0;
    loop
        invariant_except_break
            numbers_of(chars@) == parts@ + numbers_from(chars@, i as int),
        invariant
            i <= n,
            n == chars@.len(),
        ensures
            parts@ == numbers_of(chars@),
        decreases n - i,
    {
        let mut a: usize = i;
        while a < n && !char_is_digit(chars[a])
            invariant
                i <= a <= n,
                n == chars@.len(),
                digits_start(chars@, a as int) == digits_start(chars@, i as int),
            decreases n - a,
        {
            a = a + 1;
        }
        if a >= n {
            break;
        }
        let mut b: usize = a;
        while b < n && char_is_digit(chars[b])
            invariant
                a <= b <= n,
                n == chars@.len(),
                digits_end(chars@, b as int) == digits_end(chars@, a as int),
            decreases n - b,
        {
            b = b + 1;
        }
        proof {
            lemma_scan_bounds(chars@, a as int);
        }
        match parse_digit_run(&chars, a, b) {
            Some(value) => {
                parts.push(value);
            },
            None => {},
        }
        i = b;
    }
    parts
}

/// The `i`-th part, or 0 beyond the end.
fn part_at(parts: &Vec<u32>, i: usize) -> (r: u32)
    ensures
        r == part_or_zero(parts@, i as int),
{
    if i < parts.len() {
        parts[i]
    } else {
        0
    }
}

/// Compare versions to see if store version is newer
pub fn version_is_newer(store_version: &str, current_version: &str) -> (r: bool)
    ensures
        r == newer(store_version@, current_version@),
{
    let store_parts = version_numbers(store_version);
    let current_parts = version_numbers(current_version);
    let mut i: usize = 0;
    while i < store_parts.len() || i < current_parts.len()
        invariant
            ahead_from(store_parts@, current_parts@, i as int) == newer(
                store_version@,
                current_version@,
            ),
        decreases store_parts@.len() + current_parts@.len() - i,
    {
        let store_part = part_at(&store_parts, i);
        let current_part = part_at(&current_parts, i);
        if store_part > current_part {
            return true;
        } else if store_part < current_part {
            return false;
        }
        i = i + 1;
    }
    false
}

/// The names and versions that a pair list holds.
pub open spec fn pair_views(list: Seq<(String, String)>) -> Seq<(Seq<char>, Seq<char>)> {
    Seq::new(list.len(), |i: int| (list[i].0@, list[i].1@))
}

/// The entries of the store's answer: the items of `ocs.data`.
pub open spec fn store_items(answer: Json) -> Seq<Json> {
    match answer.member("ocs"@) {
        Some(ocs) => match ocs.member("data"@) {
            Some(Json::List(items)) => items@,
            _ => Seq::empty(),
        },
        None => Seq::empty(),
    }
}

/// The names and versions that the first `n` of `items` give: those of each
/// item that has both, in order.
pub open spec fn listed_versions(items: Seq<Json>, n: int) -> Seq<(Seq<char>, Seq<char>)>
    decreases n,
{
    if n <= 0 {
        Seq::empty()
    } else {
        let name = items[n - 1].text_of("name"@, Seq::empty());
        let version = items[n - 1].text_of("version"@, Seq::empty());
        if name.len() > 0 && version.len() > 0 {
            listed_versions(items, n - 1).push((name, version))
        } else {
            listed_versions(items, n - 1)
        }
    }
}

/// The names and versions that the store's answer lists.
pub open spec fn store_versions(answer: Option<Json>) -> Seq<(Seq<char>, Seq<char>)> {
    match answer {
        Some(json) => listed_versions(store_items(json), store_items(json).len() as int),
        None => Seq::empty(),
    }
}

/// The names and versions that a parsed answer of the store lists.
pub fn versions_in(answer: &Json) -> (r: Vec<(String, String)>)
    ensures
        pair_views(r@) == store_versions(Some(*answer)),
{
    let mut versions: Vec<(String, String)> = Vec::new();
    let items = match answer.get("ocs") {
        Some(ocs) => match ocs.get("data") {
            Some(data) => match data.as_array() {
                Some(items) => items,
                None => {
                    return versions;
                },
            },
            None => {
                return versions;
            },
        },
        None => {
            return versions;
        },
    };
    let mut i: usize = 0;
    while i < items.len()
        invariant
            i <= items@.len(),
            pair_views(versions@) == listed_versions(items@, i as int),
        decreases items@.len() - i,
    {
        let name = items[i].text_or("name", empty_text());
        let version = items[i].text_or("version", empty_text());
        if !name.is_empty() && !version.is_empty() {
            versions.push((String::from_str(name), String::from_str(version)));
        }
        i = i + 1;
    }
    versions
}

/// Fetch version info from KDE Store for installed plasmoids: reads the
/// store's answer, where there is one.
pub fn fetch_store_versions(response: Option<&str>) -> (r: Vec<(String, String)>)
    ensures
        pair_views(r@) == store_versions(
            match response {
                Some(text) => json_of(text@),
                None => None,
            },
        ),
{
    let parsed = match response {
        Some(text) => read_json(text),
        None => None,
    };
    match &parsed {
        Some(answer) => versions_in(answer),
        None => {
            let none: Vec<(String, String)> = Vec::new();
            none
        },
    }
}

/// What a parsed `metadata.json` says of a widget: the members of its
/// `KPlugin` object, or nothing where it has none.
pub open spec fn plasmoid_in(json: Option<Json>) -> PlasmoidView {
    match json {
        Some(document) => match document.member("KPlugin"@) {
            Some(plugin) => PlasmoidView {
                id: plugin.text_of("Id"@, Seq::empty()),
                name: plugin.text_of("Name"@, "Unknown"@),
                version: plugin.text_of("Version"@, "unknown"@),
                description: plugin.text_of("Description"@, Seq::empty()),
            },
            None => unknown_plasmoid(),
        },
        None => unknown_plasmoid(),
    }
}

/// What is said of a widget of which nothing is known.
pub fn plasmoid_unknown() -> (r: PlasmoidInfo)
    ensures
        r@ == unknown_plasmoid(),
{
    PlasmoidInfo {
        id: String::new(),
        name: String::from_str("Unknown"),
        version: String::from_str("unknown"),
        description: String::new(),
    }
}

/// What a parsed `metadata.json` says of a widget.
pub fn plasmoid_from_json(document: &Json) -> (r: PlasmoidInfo)
    ensures
        r@ == plasmoid_in(Some(*document)),
{
    // KDE Plasma 6 format has fields under "KPlugin" object
    match document.get("KPlugin") {
        Some(kplugin) => PlasmoidInfo {
            id: String::from_str(kplugin.text_or("Id", empty_text())),
            name: String::from_str(kplugin.text_or("Name", "Unknown")),
            version: String::from_str(kplugin.text_or("Version", "unknown")),
            description: String::from_str(kplugin.text_or("Description", empty_text())),
        },
        None => plasmoid_unknown(),
    }
}

/// Parse plasmoid metadata.json (KDE Plasma 6 format); `None` stands for a
/// file that could not be read.
pub fn parse_plasmoid_json(content: Option<&str>) -> (r: PlasmoidInfo)
    ensures
        r@ == plasmoid_in(
            match content {
                Some(text) => json_of(text@),
                None => None,
            },
        ),
{
    let parsed = match content {
        Some(text) => read_json(text),
        None => None,
    };
    match &parsed {
        Some(document) => plasmoid_from_json(document),
        None => plasmoid_unknown(),
    }
}

/// Where a widget's description is found in its directory.
#[derive(Debug)]
pub enum Metadata<'a> {
    /// A `metadata.json`, with its content where it could be read.
    Json { content: Option<&'a str> },
    /// A `metadata.desktop` and no `metadata.json`, with its content where it
    /// could be read.
    Desktop { content: Option<&'a str> },
    /// Neither: only the directory's name is known.
    Missing { directory: &'a str },
}

/// What is known of the widget in a directory.
pub fn plasmoid_info(metadata: Metadata<'_>) -> (r: PlasmoidInfo)
    ensures
        r@ == match metadata {
            Metadata::Json { content } => plasmoid_in(
                match content {
                    Some(text) => json_of(text@),
                    None => None,
                },
            ),
            Metadata::Desktop { content } => plasmoid_of_desktop(
                match content {
                    Some(text) => Some(text@),
                    None => None,
                },
            ),
            Metadata::Missing { directory } => PlasmoidView {
                id: directory@,
                name: directory@,
                version: "unknown"@,
                description: Seq::empty(),
            },
        },
{
    match metadata {
        Metadata::Json { content } => parse_plasmoid_json(content),
        Metadata::Desktop { content } => parse_plasmoid_desktop(content),
        Metadata::Missing { directory } => PlasmoidInfo {
            id: String::from_str(directory),
            name: String::from_str(directory),
            version: String::from_str("unknown"),
            description: String::new(),
        },
    }
}

/// The version that the store lists under `name`, from index `from` on: that
/// of the first entry of that name.
pub open spec fn listed_from(
    versions: Seq<(Seq<char>, Seq<char>)>,
    name: Seq<char>,
    from: int,
) -> Option<Seq<char>>
    decreases versions.len() - from,
{
    if from < 0 || from >= versions.len() {
        None
    } else if versions[from].0 == name {
        Some(versions[from].1)
    } else {
        listed_from(versions, name, from + 1)
    }
}

/// The version that a widget can be updated to, if any: it is a user's
/// widget, it has a name, the store lists that name, and the version listed
/// is newer than the widget's.
pub open spec fn update_for(
    info: PlasmoidView,
    is_user: bool,
    versions: Seq<(Seq<char>, Seq<char>)>,
) -> Option<Seq<char>> {
    if is_user && info.name.len() > 0 {
        match listed_from(versions, info.name, 0) {
            Some(listed) => if newer(listed, info.version) {
                Some(listed)
            } else {
                None
            },
            None => None,
        }
    } else {
        None
    }
}

/// A name with a plus sign for every space, as it stands in a search
/// address.
pub open spec fn plus_for_space(name: Seq<char>) -> Seq<char> {
    Seq::new(
        name.len(),
        |i: int|
            if name[i] == ' ' {
                '+'
            } else {
                name[i]
            },
    )
}

/// The row for an installed widget.  A widget from a directory whose path
/// holds `.local` is the user's and comes from the store; any other is the
/// system's.
pub open spec fn plasmoid_row(info: PlasmoidView, is_user: bool, has_update: bool) -> RowView {
    RowView {
        url: "https://store.kde.org/search?search="@ + plus_for_space(info.name),
        ..plain_row(
            info.id,
            info.name,
            info.version,
            info.description,
            if is_user {
                "kde-store"@
            } else {
                "system"@
            },
            BACKEND_PLASMOID,
            true,
            has_update,
        )
    }
}

/// Finds the version that the store lists under `name`.
fn find_listed<'a>(versions: &'a Vec<(String, String)>, name: &str) -> (r: Option<&'a String>)
    ensures
        match r {
            Some(version) => listed_from(pair_views(versions@), name@, 0) == Some(version@),
            None => listed_from(pair_views(versions@), name@, 0) is None,
        },
{
    let mut i: usize = 0;
    while i < versions.len()
        invariant
            i <= versions@.len(),
            listed_from(pair_views(versions@), name@, i as int) == listed_from(
                pair_views(versions@),
                name@,
                0,
            ),
        decreases versions@.len() - i,
    {
        if text_eq(versions[i].0.as_str(), name) {
            return Some(&versions[i].1);
        }
        i = i + 1;
    }
    None
}

/// The address of the store's search for `name`.
fn search_address(name: &str) -> (r: String)
    ensures
        r@ == "https://store.kde.org/search?search="@ + plus_for_space(name@),
{
    let chars = to_chars(name);
    let mut out = String::from_str("https://store.kde.org/search?search=");
    let ghost head = out@;
    let mut i: usize = 0;
    while i < chars.len()
        invariant
            i <= chars@.len(),
            chars@ == name@,
            out@ == head + plus_for_space(name@).subrange(0, i as int),
        decreases chars@.len() - i,
    {
        let c = if chars[i] == ' ' {
            '+'
        } else {
            chars[i]
        };
        push_char(&mut out, c);
        i = i + 1;
    }
    out
}

/// The rows for a widget found in the directory `directory`: its row among
/// the installed widgets and, where the store has a newer version, its row
/// among the updates, which shows the change of version.
pub fn plasmoid_rows(
    info: &PlasmoidInfo,
    directory: &str,
    store_versions: &Vec<(String, String)>,
) -> (r: (PackageData, Option<PackageData>))
    ensures
        ({
            let is_user = contains(directory@, ".local"@);
            let update = update_for(info@, is_user, pair_views(store_versions@));
            &&& r.0@ == plasmoid_row(info@, is_user, update is Some)
            &&& match r.1 {
                Some(row) => update is Some && row@ == (RowView {
                    version: version_change(info@.version, update->0),
                    ..plasmoid_row(info@, is_user, true)
                }),
                None => update is None,
            }
        }),
{
    let is_user = text_contains(directory, ".local");
    // Check for updates from cached store data
    let mut new_version: Option<&String> = None;
    if is_user && !info.name.as_str().is_empty() {
        if let Some(store_ver) = find_listed(store_versions, info.name.as_str()) {
            if version_is_newer(store_ver.as_str(), info.version.as_str()) {
                new_version = Some(store_ver);
            }
        }
    }
    let repository = if is_user {
        "kde-store"
    } else {
        "system"
    };
    let mut pkg = make_row(
        info.id.as_str(),
        info.name.as_str(),
        info.version.as_str(),
        info.description.as_str(),
        repository,
        BACKEND_PLASMOID,
        true,
        new_version.is_some(),
    );
    pkg.url = search_address(info.name.as_str());
    let update = match new_version {
        Some(version) => {
            let mut update_pkg = make_row(
                info.id.as_str(),
                info.name.as_str(),
                info.version.as_str(),
                info.description.as_str(),
                repository,
                BACKEND_PLASMOID,
                true,
                true,
            );
            update_pkg.url = search_address(info.name.as_str());
            update_pkg.version = show_version_change(info.version.as_str(), version.as_str());
            Some(update_pkg)
        },
        None => None,
    };
    (pkg, update)
}

} // verus!
