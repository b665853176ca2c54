//! AppStream metadata: the catalogue of applications that a Flatpak remote
//! publishes, read as text.

use crate::names::TextMap;
use crate::split::{holds_text, runs, slice_of, trim, trimmed};
use crate::text::{
    chars_eq, contains, empty_text, ends_with, find, find_from, from_chars, has_suffix,
    lemma_find_is_first, lowercase, lowercase_text, matches_at, starts_with, text_of, to_chars,
};
use crate::ui::{make_row, plain_row, row_views, BACKEND_FLATPAK, PackageData, RowView};
use vstd::prelude::*;

verus! {

/// The tag that opens the element `tag`.
pub open spec fn open_tag(tag: Seq<char>) -> Seq<char> {
    seq!['<'] + tag + seq!['>']
}

/// The tag that closes the element `tag`.
pub open spec fn close_tag(tag: Seq<char>) -> Seq<char> {
    seq!['<', '/'] + tag + seq!['>']
}

/// What stands in `xml` between the first opening tag of the element `tag`
/// and the first closing tag after it.
pub open spec fn tag_content(xml: Seq<char>, tag: Seq<char>) -> Option<Seq<char>> {
    let start = find(xml, open_tag(tag), 0);
    let from = start + open_tag(tag).len();
    let end = find(xml, close_tag(tag), from);
    if start < 0 || end < 0 {
        None
    } else {
        Some(xml.subrange(from, end))
    }
}

/// The opening or the closing tag of the element `tag`.
fn tag_chars(tag: &str, closing: bool) -> (r: Vec<char>)
    ensures
        r@ == if closing {
            close_tag(tag@)
        } else {
            open_tag(tag@)
        },
{
    let name = to_chars(tag);
    let mut out: Vec<char> = Vec::new();
    out.push('<');
    if closing {
        out.push('/');
    }
    let ghost head = out@;
    let mut i: usize = 0;
    while i < name.len()
        invariant
            i <= name@.len(),
            out@ == head + name@.subrange(0, i as int),
        decreases name@.len() - i,
    {
        out.push(name[i]);
        i = i + 1;
    }
    out.push('>');
    out
}

/// Finds the content of the first element `tag` in `xml`.
pub fn tag_content_of(xml: &Vec<char>, tag: &str) -> (r: Option<String>)
    ensures
        match r {
            Some(text) => tag_content(xml@, tag@) == Some(text@),
            None => tag_content(xml@, tag@) is None,
        },
{
    let open = tag_chars(tag, false);
    let close = tag_chars(tag, true);
    let start: usize = match find_from(xml, &open, 0) {
        Some(at) => at,
        None => {
            return None;
        },
    };
    let content_start: usize = start + open.len();
    match find_from(xml, &close, content_start) {
        Some(end) => Some(from_chars(xml, content_start, end)),
        None => None,
    }
}

/// Extract content from a simple XML tag
pub fn extract_tag_content(xml: &str, tag: &str) -> (r: Option<String>)
    ensures
        match r {
            Some(text) => tag_content(xml@, tag@) == Some(text@),
            None => tag_content(xml@, tag@) is None,
        },
{
    let chars = to_chars(xml);
    tag_content_of(&chars, tag)
}

/// Extract first <name> without xml:lang attribute
pub fn extract_first_name(xml: &str) -> (r: Option<String>)
    ensures
        match r {
            Some(text) => tag_content(xml@, "name"@) == Some(text@),
            None => tag_content(xml@, "name"@) is None,
        },
{
    // First try <name>...</name> without attributes
    extract_tag_content(xml, "name")
}

/// The names after one component is taken in: a component with an
/// identifier and a name puts its name and its summary under the identifier
/// in lower case.
pub open spec fn names_with_component(
    before: Map<Seq<char>, (Seq<char>, Seq<char>)>,
    component: Seq<char>,
) -> Map<Seq<char>, (Seq<char>, Seq<char>)> {
    match (tag_content(component, "id"@), tag_content(component, "name"@)) {
        (Some(id), Some(name)) => before.insert(
            lowercase(id),
            (
                name,
                match tag_content(component, "summary"@) {
                    Some(summary) => summary,
                    None => Seq::empty(),
                },
            ),
        ),
        _ => before,
    }
}

/// The names after every desktop component of `content[pos..]` is taken in,
/// one after the other.  A component runs from `<component type="desktop`
/// to the next `</component>`; one that is not closed ends the reading.
pub open spec fn names_from(
    content: Seq<char>,
    pos: int,
    before: Map<Seq<char>, (Seq<char>, Seq<char>)>,
) -> Map<Seq<char>, (Seq<char>, Seq<char>)>
    decreases content.len() - pos,
{
    let start = find(content, "<component type=\"desktop"@, pos);
    let end = find(content, "</component>"@, start);
    if pos < 0 || start < 0 || end < 0 {
        before
    } else {
        proof {
            reveal_strlit("</component>");
            lemma_find_is_first(content, "<component type=\"desktop"@, pos);
            lemma_find_is_first(content, "</component>"@, start);
        }
        names_from(
            content,
            end + "</component>"@.len(),
            names_with_component(
                before,
                content.subrange(start, end + "</component>"@.len()),
            ),
        )
    }
}

/// Takes one component into the table of names.
fn add_component(name_map: &mut TextMap<(String, String)>, component: &Vec<char>)
    ensures
        final(name_map).pairs() == names_with_component(old(name_map).pairs(), component@),
{
    // Extract ID
    if let Some(id) = tag_content_of(component, "id") {
        // Extract name (first one without xml:lang)
        let name = tag_content_of(component, "name");
        // Extract summary
        let summary = match tag_content_of(component, "summary") {
            Some(text) => text,
            None => String::new(),
        };
        if let Some(name) = name {
            name_map.put_pair(lowercase_text(id.as_str()), name, summary);
        }
    }
}

/// Parse appstream XML to extract app IDs and their human names
pub fn parse_appstream_names(content: &str, name_map: &mut TextMap<(String, String)>)
    ensures
        final(name_map).pairs() == names_from(content@, 0, old(name_map).pairs()),
{
    let chars = to_chars(content);
    let opening = to_chars("<component type=\"desktop");
    let closing = to_chars("</component>");
    let n: usize = chars.len();
    proof {
        reveal_strlit("</component>");
    }
    // Find all desktop/console application components
    let mut pos: usize = 0;
    loop
        invariant_except_break
            names_from(chars@, pos as int, name_map.pairs()) == names_from(
                chars@,
                0,
                old(name_map).pairs(),
            ),
        invariant
            pos <= chars@.len(),
            n == chars@.len(),
            opening@ == "<component type=\"desktop"@,
            closing@ == "</component>"@,
            closing@.len() > 0,
        ensures
            name_map.pairs() == names_from(chars@, 0, old(name_map).pairs()),
        decreases chars@.len() - pos,
    {
        let abs_start: usize = match find_from(&chars, &opening, pos) {
            Some(at) => at,
            None => {
                break;
            },
        };
        // Find end of this component
        let comp_end: usize = match find_from(&chars, &closing, abs_start) {
            Some(at) => at,
            None => {
                break;
            },
        };
        let next: usize = comp_end + closing.len();
        let component = slice_of(&chars, abs_start, next);
        add_component(name_map, &component);
        pos = next;
    }
}

/// What stands in `line` between the opening and the closing tag of the
/// element `tag`, where the line starts with the one and ends with the
/// other.
pub open spec fn enclosed(line: Seq<char>, tag: Seq<char>) -> Option<Seq<char>> {
    let rest = line.subrange(open_tag(tag).len() as int, line.len() as int);
    if starts_with(line, open_tag(tag)) && ends_with(line, close_tag(tag)) {
        if ends_with(rest, close_tag(tag)) {
            Some(rest.subrange(0, rest.len() - close_tag(tag).len()))
        } else {
            Some(Seq::empty())
        }
    } else {
        None
    }
}

/// Where the reading of a catalogue stands: what it has seen of the
/// component it is in.
pub struct CatalogueState {
    pub id: Seq<char>,
    pub name: Seq<char>,
    pub summary: Seq<char>,
    pub categories: Seq<Seq<char>>,
    pub in_component: bool,
    pub in_categories: bool,
    pub skip_lang: bool,
}

/// The state before any line is read.
pub open spec fn catalogue_start() -> CatalogueState {
    CatalogueState {
        id: Seq::empty(),
        name: Seq::empty(),
        summary: Seq::empty(),
        categories: Seq::empty(),
        in_component: false,
        in_categories: false,
        skip_lang: false,
    }
}

/// The row for the component that the state describes.
pub open spec fn component_row(s: CatalogueState) -> RowView {
    plain_row(s.id, s.name, Seq::empty(), s.summary, "flathub"@, BACKEND_FLATPAK, false, false)
}

/// The state after one more line within a component.
pub open spec fn component_step(s: CatalogueState, line: Seq<char>) -> CatalogueState {
    if enclosed(line, "id"@) is Some {
        CatalogueState { id: enclosed(line, "id"@)->0, ..s }
    } else if enclosed(line, "name"@) is Some && s.name.len() == 0 {
        CatalogueState { name: enclosed(line, "name"@)->0, ..s }
    } else if starts_with(line, "<name"@) && contains(line, "xml:lang"@) {
        CatalogueState { skip_lang: true, ..s }
    } else if line == "</name>"@ && s.skip_lang {
        CatalogueState { skip_lang: false, ..s }
    } else if enclosed(line, "summary"@) is Some && s.summary.len() == 0 {
        CatalogueState { summary: enclosed(line, "summary"@)->0, ..s }
    } else if line == "<categories>"@ {
        CatalogueState { in_categories: true, ..s }
    } else if line == "</categories>"@ {
        CatalogueState { in_categories: false, ..s }
    } else if s.in_categories && enclosed(line, "category"@) is Some {
        CatalogueState { categories: s.categories.push(enclosed(line, "category"@)->0), ..s }
    } else {
        s
    }
}

/// The state after one more line, which is read without the white space
/// around it.
///
/// A line that opens a desktop application starts a component afresh.  A
/// line that closes a component ends it.  Within a component the first
/// name and the first summary count, and the identifier that comes last.
pub open spec fn catalogue_step(s: CatalogueState, raw: Seq<char>) -> CatalogueState {
    let line = trimmed(raw);
    if contains(line, "<component"@) && contains(line, "desktop-application"@) {
        CatalogueState {
            id: Seq::empty(),
            name: Seq::empty(),
            summary: Seq::empty(),
            categories: Seq::empty(),
            in_component: true,
            ..s
        }
    } else if contains(line, "</component>"@) {
        CatalogueState { in_component: false, ..s }
    } else if s.in_component {
        component_step(s, line)
    } else {
        s
    }
}

/// Whether the line `raw`, read in the state `s`, completes a component
/// that belongs in the category `target`.
pub open spec fn completes(s: CatalogueState, raw: Seq<char>, target: Seq<char>) -> bool {
    let line = trimmed(raw);
    !(contains(line, "<component"@) && contains(line, "desktop-application"@)) && contains(
        line,
        "</component>"@,
    ) && s.in_component && s.categories.contains(target)
}

/// The state after the first `n` of `lines`.
pub open spec fn catalogue_state(lines: Seq<Seq<char>>, n: int) -> CatalogueState
    decreases n,
{
    if n <= 0 {
        catalogue_start()
    } else {
        catalogue_step(catalogue_state(lines, n - 1), lines[n - 1])
    }
}

/// The rows that the first `n` of `lines` give for the category `target`: one
/// for each component completed among them, in order.
pub open spec fn catalogue_rows(lines: Seq<Seq<char>>, n: int, target: Seq<char>) -> Seq<
    RowView,
>
    decreases n,
{
    if n <= 0 {
        Seq::empty()
    } else if completes(catalogue_state(lines, n - 1), lines[n - 1], target) {
        catalogue_rows(lines, n - 1, target).push(
            component_row(catalogue_state(lines, n - 1)),
        )
    } else {
        catalogue_rows(lines, n - 1, target)
    }
}

/// Where the reading of a catalogue stands.
struct Catalogue {
    id: Vec<char>,
    name: Vec<char>,
    summary: Vec<char>,
    categories: Vec<Vec<char>>,
    in_component: bool,
    in_categories: bool,
    skip_lang: bool,
}

impl View for Catalogue {
    type V = CatalogueState;

    closed spec fn view(&self) -> CatalogueState {
        CatalogueState {
            id: self.id@,
            name: self.name@,
            summary: self.summary@,
            categories: runs(self.categories@),
            in_component: self.in_component,
            in_categories: self.in_categories,
            skip_lang: self.skip_lang,
        }
    }
}

/// Tests whether `line` starts with `pat`.
fn has_prefix(line: &Vec<char>, pat: &Vec<char>) -> (r: bool)
    ensures
        r == starts_with(line@, pat@),
{
    matches_at(line, pat, 0)
}

/// Tests whether `pat` stands somewhere in `line`.
fn holds(line: &Vec<char>, pat: &str) -> (r: bool)
    ensures
        r == contains(line@, pat@),
{
    let needle = to_chars(pat);
    find_from(line, &needle, 0).is_some()
}

/// Tests whether `line` is the text `text`.
fn is_text(line: &Vec<char>, text: &str) -> (r: bool)
    ensures
        r == (line@ == text@),
{
    let other = to_chars(text);
    chars_eq(line, &other)
}

/// Reads what `line` holds between the tags of the element `tag`.
fn enclosed_in(line: &Vec<char>, tag: &str) -> (r: Option<Vec<char>>)
    ensures
        match r {
            Some(v) => enclosed(line@, tag@) == Some(v@),
            None => enclosed(line@, tag@) is None,
        },
{
    let open = tag_chars(tag, false);
    let close = tag_chars(tag, true);
    if has_prefix(line, &open) && has_suffix(line, &close) {
        let rest = slice_of(line, open.len(), line.len());
        if has_suffix(&rest, &close) {
            Some(slice_of(&rest, 0, rest.len() - close.len()))
        } else {
            Some(Vec::new())
        }
    } else {
        None
    }
}

/// Takes one line within a component.
fn component_line(state: &mut Catalogue, line: &Vec<char>)
    ensures
        final(state)@ == component_step(old(state)@, line@),
{
    if let Some(v) = enclosed_in(line, "id") {
        state.id = v;
        return ;
    }
    if state.name.len() == 0 {
        if let Some(v) = enclosed_in(line, "name") {
            state.name = v;
            return ;
        }
    }
    if line_opens_name(line) {
        state.skip_lang = true;
        return ;
    }
    if state.skip_lang && is_text(line, "</name>") {
        state.skip_lang = false;
        return ;
    }
    if state.summary.len() == 0 {
        if let Some(v) = enclosed_in(line, "summary") {
            state.summary = v;
            return ;
        }
    }
    if is_text(line, "<categories>") {
        state.in_categories = true;
        return ;
    }
    if is_text(line, "</categories>") {
        state.in_categories = false;
        return ;
    }
    if state.in_categories {
        if let Some(v) = enclosed_in(line, "category") {
            let ghost before = state.categories@;
            state.categories.push(v);
            assert(runs(state.categories@) =~= runs(before).push(v@));
        }
    }
}

/// Tests whether `line` opens a name in some language.
fn line_opens_name(line: &Vec<char>) -> (r: bool)
    ensures
        r == (starts_with(line@, "<name"@) && contains(line@, "xml:lang"@)),
{
    let pat = to_chars("<name");
    has_prefix(line, &pat) && holds(line, "xml:lang")
}

/// The row for the component that has been read.
fn row_of(state: &Catalogue) -> (r: PackageData)
    ensures
        r@ == component_row(state@),
{
    let id = text_of(&state.id);
    let name = text_of(&state.name);
    let summary = text_of(&state.summary);
    make_row(
        id.as_str(),
        name.as_str(),
        empty_text(),
        summary.as_str(),
        "flathub",
        BACKEND_FLATPAK,
        false,
        false,
    )
}

/// The texts that a list of strings holds.
pub open spec fn line_texts(lines: Seq<String>) -> Seq<Seq<char>> {
    Seq::new(lines.len(), |i: int| lines[i]@)
}

/// Parse appstream XML content
pub fn parse_appstream_xml(
    lines: &Vec<String>,
    target_category: &str,
    packages: &mut Vec<PackageData>,
)
    ensures
        row_views(final(packages)@) == row_views(old(packages)@) + catalogue_rows(
            line_texts(lines@),
            lines@.len() as int,
            target_category@,
        ),
{
    let target = to_chars(target_category);
    let mut state = Catalogue {
        id: Vec::new(),
        name: Vec::new(),
        summary: Vec::new(),
        categories: Vec::new(),
        in_component: false,
        in_categories: false,
        skip_lang: false,
    };
    assert(runs(state.categories@) =~= Seq::<Seq<char>>::empty());
    let mut i: usize = 0;
    while i < lines.len()
        invariant
            i <= lines@.len(),
            target@ == target_category@,
            state@ == catalogue_state(line_texts(lines@), i as int),
            row_views(packages@) == row_views(old(packages)@) + catalogue_rows(
                line_texts(lines@),
                i as int,
                target_category@,
            ),
        decreases lines@.len() - i,
    {
        let raw = to_chars(lines[i].as_str());
        let line = trim(&raw);
        if holds(&line, "<component") && holds(&line, "desktop-application") {
            state.in_component = true;
            state.id = Vec::new();
            state.name = Vec::new();
            state.summary = Vec::new();
            state.categories = Vec::new();
            assert(runs(state.categories@) =~= Seq::<Seq<char>>::empty());
        } else if holds(&line, "</component>") {
            if state.in_component && holds_text(&state.categories, &target) {
                let ghost before = packages@;
                packages.push(row_of(&state));
                assert(row_views(packages@) =~= row_views(before).push(component_row(state@)));
            }
            state.in_component = false;
        } else if state.in_component {
            component_line(&mut state, &line);
        }
        i = i + 1;
    }
}

} // verus!
