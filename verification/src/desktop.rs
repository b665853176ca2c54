//! Desktop entry files: the lines `Key=value` that describe an application.

use crate::names::TextMap;
use crate::paths::{file_stem, file_stem_of};
use crate::split::{
    fields_of, holds_text, lines_of, pieces_of, runs, slice_of, split_fields, split_lines,
    split_pieces,
};
use crate::text::{
    contains, empty_text, from_chars, lowercase, lowercase_text, matches_at, starts_with,
    text_contains, text_of, to_chars,
};
use crate::ui::{make_row, plain_row, BACKEND_FLATPAK, BACKEND_PACMAN, PackageData, RowView};
use vstd::prelude::*;

verus! {

/// What follows `key` in `line`, where the line starts with it.
pub open spec fn value_of(line: Seq<char>, key: Seq<char>) -> Option<Seq<char>> {
    if starts_with(line, key) {
        Some(line.subrange(key.len() as int, line.len() as int))
    } else {
        None
    }
}

/// What follows `key` in `line`, where the line starts with it and holds no
/// square bracket: the value of a key that names no language.
pub open spec fn plain_value_of(line: Seq<char>, key: Seq<char>) -> Option<Seq<char>> {
    if line.contains('[') {
        None
    } else {
        value_of(line, key)
    }
}

/// Reads the value that follows `key` in `line`.
pub fn value_after(line: &Vec<char>, key: &str) -> (r: Option<Vec<char>>)
    ensures
        match r {
            Some(v) => value_of(line@, key@) == Some(v@),
            None => value_of(line@, key@) is None,
        },
{
    let pat = to_chars(key);
    if matches_at(line, &pat, 0) {
        Some(slice_of(line, pat.len(), line.len()))
    } else {
        None
    }
}

/// Tests whether `line` holds the character `c`.
pub fn has_char(line: &Vec<char>, c: char) -> (r: bool)
    ensures
        r == line@.contains(c),
{
    let mut i: usize = 0;
    while i < line.len()
        invariant
            i <= line@.len(),
            forall|k: int| 0 <= k < i ==> line@[k] != c,
        decreases line@.len() - i,
    {
        if line[i] == c {
            return true;
        }
        i = i + 1;
    }
    false
}

/// Reads the value that follows `key` in a line without square brackets.
pub fn plain_value_after(line: &Vec<char>, key: &str) -> (r: Option<Vec<char>>)
    ensures
        match r {
            Some(v) => plain_value_of(line@, key@) == Some(v@),
            None => plain_value_of(line@, key@) is None,
        },
{
    if has_char(line, '[') {
        None
    } else {
        value_after(line, key)
    }
}

/// Tests whether `line` starts with `key`.
pub fn line_starts_with(line: &Vec<char>, key: &str) -> (r: bool)
    ensures
        r == starts_with(line@, key@),
{
    let pat = to_chars(key);
    matches_at(line, &pat, 0)
}

/// What an application's desktop entry says of it.
pub struct EntryFields {
    pub name: Seq<char>,
    pub generic_name: Seq<char>,
    pub comment: Seq<char>,
    pub categories: Seq<char>,
    pub no_display: bool,
    pub hidden: bool,
}

/// The fields before any line is read.
pub open spec fn no_fields() -> EntryFields {
    EntryFields {
        name: Seq::empty(),
        generic_name: Seq::empty(),
        comment: Seq::empty(),
        categories: Seq::empty(),
        no_display: false,
        hidden: false,
    }
}

/// The fields after one more line.  A later line for a key replaces an
/// earlier one.
pub open spec fn entry_step(f: EntryFields, line: Seq<char>) -> EntryFields {
    if plain_value_of(line, "Name="@) is Some {
        EntryFields { name: plain_value_of(line, "Name="@)->0, ..f }
    } else if plain_value_of(line, "GenericName="@) is Some {
        EntryFields { generic_name: plain_value_of(line, "GenericName="@)->0, ..f }
    } else if plain_value_of(line, "Comment="@) is Some {
        EntryFields { comment: plain_value_of(line, "Comment="@)->0, ..f }
    } else if value_of(line, "Categories="@) is Some {
        EntryFields { categories: value_of(line, "Categories="@)->0, ..f }
    } else if starts_with(line, "NoDisplay=true"@) {
        EntryFields { no_display: true, ..f }
    } else if starts_with(line, "Hidden=true"@) {
        EntryFields { hidden: true, ..f }
    } else {
        f
    }
}

/// The fields after the first `n` of `lines`.
pub open spec fn entry_fields(lines: Seq<Seq<char>>, n: int) -> EntryFields
    decreases n,
{
    if n <= 0 {
        no_fields()
    } else {
        entry_step(entry_fields(lines, n - 1), lines[n - 1])
    }
}

/// The row for the application that a desktop file describes, where it
/// belongs in the category `category`.
///
/// There is none for an entry that is hidden or not to be displayed, that
/// has no name, or whose categories do not hold `category`.  The comment
/// describes the application, or else its generic name.  An entry whose path
/// holds `flatpak` counts as a Flatpak from Flathub, any other as native.
pub open spec fn desktop_row(
    content: Seq<char>,
    path: Seq<char>,
    category: Seq<char>,
) -> Option<RowView> {
    let lines = lines_of(content);
    let f = entry_fields(lines, lines.len() as int);
    if f.no_display || f.hidden || f.name.len() == 0 {
        None
    } else if !pieces_of(f.categories, seq![';']).contains(category) {
        None
    } else if file_stem_of(path) is None {
        None
    } else {
        Some(
            plain_row(
                file_stem_of(path)->0,
                f.name,
                Seq::empty(),
                if f.comment.len() > 0 {
                    f.comment
                } else {
                    f.generic_name
                },
                if contains(path, "flatpak"@) {
                    "flathub"@
                } else {
                    "native"@
                },
                if contains(path, "flatpak"@) {
                    BACKEND_FLATPAK
                } else {
                    BACKEND_PACMAN
                },
                true,
                false,
            ),
        )
    }
}

/// The fields read so far from a desktop entry.
struct EntryScan {
    name: Vec<char>,
    generic_name: Vec<char>,
    comment: Vec<char>,
    categories: Vec<char>,
    no_display: bool,
    hidden: bool,
}

impl View for EntryScan {
    type V = EntryFields;

    closed spec fn view(&self) -> EntryFields {
        EntryFields {
            name: self.name@,
            generic_name: self.generic_name@,
            comment: self.comment@,
            categories: self.categories@,
            no_display: self.no_display,
            hidden: self.hidden,
        }
    }
}

/// Takes one line of a desktop entry.
fn scan_entry_line(scan: &mut EntryScan, line: &Vec<char>)
    ensures
        final(scan)@ == entry_step(old(scan)@, line@),
{
    if let Some(v) = plain_value_after(line, "Name=") {
        scan.name = v;
    } else if let Some(v) = plain_value_after(line, "GenericName=") {
        scan.generic_name = v;
    } else if let Some(v) = plain_value_after(line, "Comment=") {
        scan.comment = v;
    } else if let Some(v) = value_after(line, "Categories=") {
        scan.categories = v;
    } else if line_starts_with(line, "NoDisplay=true") {
        scan.no_display = true;
    } else if line_starts_with(line, "Hidden=true") {
        scan.hidden = true;
    }
}

/// Reads the fields of a desktop entry.
fn scan_entry(content: &str) -> (r: EntryScan)
    ensures
        r@ == entry_fields(lines_of(content@), lines_of(content@).len() as int),
{
    let chars = to_chars(content);
    let lines = split_lines(&chars);
    let mut scan = EntryScan {
        name: Vec::new(),
        generic_name: Vec::new(),
        comment: Vec::new(),
        categories: Vec::new(),
        no_display: false,
        hidden: false,
    };
    let mut i: usize = 0;
    while i < lines.len()
        invariant
            i <= lines@.len(),
            runs(lines@) == lines_of(content@),
            scan@ == entry_fields(runs(lines@), i as int),
        decreases lines@.len() - i,
    {
        scan_entry_line(&mut scan, &lines[i]);
        i = i + 1;
    }
    scan
}

/// Parse a desktop file and return PackageData if it matches the category
pub fn parse_desktop_file(content: &str, path: &str, target_category: &str) -> (r: Option<
    PackageData,
>)
    ensures
        match r {
            Some(row) => desktop_row(content@, path@, target_category@) == Some(row@),
            None => desktop_row(content@, path@, target_category@) is None,
        },
{
    let scan = scan_entry(content);
    // Skip hidden or NoDisplay entries
    if scan.no_display || scan.hidden || scan.name.len() == 0 {
        return None;
    }
    // Check if categories match

    let mut seps: Vec<char> = Vec::new();
    seps.push(';');
    let category_list = split_pieces(&scan.categories, &seps);
    let wanted = to_chars(target_category);
    if !holds_text(&category_list, &wanted) {
        return None;
    }
    let description = if scan.comment.len() > 0 {
        from_chars(&scan.comment, 0, scan.comment.len())
    } else {
        from_chars(&scan.generic_name, 0, scan.generic_name.len())
    };
    proof {
        assert(scan.comment@.subrange(0, scan.comment@.len() as int) =~= scan.comment@);
        assert(scan.generic_name@.subrange(0, scan.generic_name@.len() as int)
            =~= scan.generic_name@);
        assert(scan.name@.subrange(0, scan.name@.len() as int) =~= scan.name@);
    }
    // Determine if it's a Flatpak (by path)
    let is_flatpak = text_contains(path, "flatpak");
    let backend = if is_flatpak {
        BACKEND_FLATPAK
    } else {
        BACKEND_PACMAN
    };
    let repo = if is_flatpak {
        "flathub"
    } else {
        "native"
    };
    // Get package name from filename
    let pkg_name = match file_stem(path) {
        Some(stem) => stem,
        None => {
            return None;
        },
    };
    let name = from_chars(&scan.name, 0, scan.name.len());
    Some(
        make_row(
            pkg_name.as_str(),
            name.as_str(),
            empty_text(),
            description.as_str(),
            repo,
            backend,
            true,
            false,
        ),
    )
}

/// What is known of a Plasma widget.
#[derive(Debug, Clone)]
pub struct PlasmoidInfo {
    pub id: String,
    pub name: String,
    pub version: String,
    pub description: String,
}

/// The mathematical value of a [`PlasmoidInfo`].
pub struct PlasmoidView {
    pub id: Seq<char>,
    pub name: Seq<char>,
    pub version: Seq<char>,
    pub description: Seq<char>,
}

impl View for PlasmoidInfo {
    type V = PlasmoidView;

    open spec fn view(&self) -> PlasmoidView {
        PlasmoidView {
            id: self.id@,
            name: self.name@,
            version: self.version@,
            description: self.description@,
        }
    }
}

/// What is said of a widget of which nothing is known.
pub open spec fn unknown_plasmoid() -> PlasmoidView {
    PlasmoidView {
        id: Seq::empty(),
        name: "Unknown"@,
        version: "unknown"@,
        description: Seq::empty(),
    }
}

/// What is known of a widget after one more line of its `metadata.desktop`.
pub open spec fn plasmoid_step(p: PlasmoidView, line: Seq<char>) -> PlasmoidView {
    if plain_value_of(line, "Name="@) is Some {
        PlasmoidView { name: plain_value_of(line, "Name="@)->0, ..p }
    } else if value_of(line, "X-KDE-PluginInfo-Version="@) is Some {
        PlasmoidView { version: value_of(line, "X-KDE-PluginInfo-Version="@)->0, ..p }
    } else if value_of(line, "X-KDE-PluginInfo-Name="@) is Some {
        PlasmoidView { id: value_of(line, "X-KDE-PluginInfo-Name="@)->0, ..p }
    } else if plain_value_of(line, "Comment="@) is Some {
        PlasmoidView { description: plain_value_of(line, "Comment="@)->0, ..p }
    } else {
        p
    }
}

/// What is known of a widget after the first `n` of `lines`.
pub open spec fn plasmoid_fields(lines: Seq<Seq<char>>, n: int) -> PlasmoidView
    decreases n,
{
    if n <= 0 {
        unknown_plasmoid()
    } else {
        plasmoid_step(plasmoid_fields(lines, n - 1), lines[n - 1])
    }
}

/// What a `metadata.desktop` says of a widget; nothing where the file could
/// not be read.
pub open spec fn plasmoid_of_desktop(content: Option<Seq<char>>) -> PlasmoidView {
    match content {
        Some(text) => plasmoid_fields(lines_of(text), lines_of(text).len() as int),
        None => unknown_plasmoid(),
    }
}

/// Takes one line of a `metadata.desktop`.
fn plasmoid_line(info: &mut PlasmoidInfo, line: &Vec<char>)
    ensures
        final(info)@ == plasmoid_step(old(info)@, line@),
{
    if let Some(v) = plain_value_after(line, "Name=") {
        info.name = text_of(&v);
    } else if let Some(v) = value_after(line, "X-KDE-PluginInfo-Version=") {
        info.version = text_of(&v);
    } else if let Some(v) = value_after(line, "X-KDE-PluginInfo-Name=") {
        info.id = text_of(&v);
    } else if let Some(v) = plain_value_after(line, "Comment=") {
        info.description = text_of(&v);
    }
}

/// Parse plasmoid metadata.desktop (older format)
pub fn parse_plasmoid_desktop(content: Option<&str>) -> (r: PlasmoidInfo)
    ensures
        r@ == plasmoid_of_desktop(
            match content {
                Some(text) => Some(text@),
                None => None,
            },
        ),
{
    let mut info = PlasmoidInfo {
        id: String::new(),
        name: String::from_str("Unknown"),
        version: String::from_str("unknown"),
        description: String::new(),
    };
    if let Some(text) = content {
        let chars = to_chars(text);
        let lines = split_lines(&chars);
        let mut i: usize = 0;
        while i < lines.len()
            invariant
                i <= lines@.len(),
                runs(lines@) == lines_of(text@),
                info@ == plasmoid_fields(runs(lines@), i as int),
            decreases lines@.len() - i,
        {
            plasmoid_line(&mut info, &lines[i]);
            i = i + 1;
        }
    }
    info
}

/// What a desktop entry gives for the table of display names.
pub struct NameFields {
    pub name: Seq<char>,
    pub program: Seq<char>,
    pub no_display: bool,
}

/// The name of the program that a command line starts: its first field,
/// without the directories that lead to it.
pub open spec fn command_name(value: Seq<char>) -> Seq<char> {
    let fields = fields_of(value);
    if fields.len() == 0 {
        Seq::empty()
    } else {
        pieces_of(fields[0], seq!['/']).last()
    }
}

/// The name fields after one more line.
pub open spec fn name_step(f: NameFields, line: Seq<char>) -> NameFields {
    if plain_value_of(line, "Name="@) is Some {
        NameFields { name: plain_value_of(line, "Name="@)->0, ..f }
    } else if value_of(line, "Exec="@) is Some {
        NameFields { program: command_name(value_of(line, "Exec="@)->0), ..f }
    } else if starts_with(line, "NoDisplay=true"@) {
        NameFields { no_display: true, ..f }
    } else {
        f
    }
}

/// The name fields after the first `n` of `lines`.
pub open spec fn name_fields(lines: Seq<Seq<char>>, n: int) -> NameFields
    decreases n,
{
    if n <= 0 {
        NameFields { name: Seq::empty(), program: Seq::empty(), no_display: false }
    } else {
        name_step(name_fields(lines, n - 1), lines[n - 1])
    }
}

/// The table of display names after the desktop file at `path` is taken in.
///
/// An entry with a name that is to be displayed puts that name under the
/// file's stem in lower case, in place of what was there, and under its
/// program's name in lower case, unless that is taken.
pub open spec fn names_with_entry(
    before: Map<Seq<char>, Seq<char>>,
    content: Seq<char>,
    path: Seq<char>,
) -> Map<Seq<char>, Seq<char>> {
    let lines = lines_of(content);
    let f = name_fields(lines, lines.len() as int);
    if f.name.len() == 0 || f.no_display {
        before
    } else {
        let by_stem = match file_stem_of(path) {
            Some(stem) => before.insert(lowercase(stem), f.name),
            None => before,
        };
        if f.program.len() == 0 || by_stem.dom().contains(lowercase(f.program)) {
            by_stem
        } else {
            by_stem.insert(lowercase(f.program), f.name)
        }
    }
}

/// The name fields read so far from a desktop entry.
struct NameScan {
    name: Vec<char>,
    program: Vec<char>,
    no_display: bool,
}

impl View for NameScan {
    type V = NameFields;

    closed spec fn view(&self) -> NameFields {
        NameFields { name: self.name@, program: self.program@, no_display: self.no_display }
    }
}

/// Reads the name of the program off a command line.
fn program_of(value: &Vec<char>) -> (r: Vec<char>)
    ensures
        r@ == command_name(value@),
{
    let fields = split_fields(value);
    if fields.len() == 0 {
        return Vec::new();
    }
    let mut seps: Vec<char> = Vec::new();
    seps.push('/');
    let mut parts = split_pieces(&fields[0], &seps);
    let last = parts.pop();
    match last {
        Some(part) => part,
        None => Vec::new(),
    }
}

/// Takes one line of a desktop entry for the table of names.
fn name_line(scan: &mut NameScan, line: &Vec<char>)
    ensures
        final(scan)@ == name_step(old(scan)@, line@),
{
    if let Some(v) = plain_value_after(line, "Name=") {
        scan.name = v;
    } else if let Some(v) = value_after(line, "Exec=") {
        scan.program = program_of(&v);
    } else if line_starts_with(line, "NoDisplay=true") {
        scan.no_display = true;
    }
}

/// Takes one desktop file into the table of display names.
pub fn add_desktop_names(map: &mut TextMap<String>, content: &str, path: &str)
    ensures
        final(map).texts() == names_with_entry(old(map).texts(), content@, path@),
{
    let chars = to_chars(content);
    let lines = split_lines(&chars);
    let mut scan = NameScan { name: Vec::new(), program: Vec::new(), no_display: false };
    let mut i: usize = 0;
    while i < lines.len()
        invariant
            i <= lines@.len(),
            runs(lines@) == lines_of(content@),
            scan@ == name_fields(runs(lines@), i as int),
        decreases lines@.len() - i,
    {
        name_line(&mut scan, &lines[i]);
        i = i + 1;
    }
    if scan.name.len() > 0 && !scan.no_display {
        // Map by desktop filename stem
        if let Some(stem) = file_stem(path) {
            map.put(lowercase_text(stem.as_str()), text_of(&scan.name));
        }
        // Also map by executable name

        if scan.program.len() > 0 {
            let program = text_of(&scan.program);
            map.put_if_absent(lowercase_text(program.as_str()), text_of(&scan.name));
        }
    }
}

} // verus!
