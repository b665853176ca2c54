//! A table from texts to values, and the display names drawn from one.

use crate::chars::{uppercase, uppercase_text};
use crate::split::{pieces_of, runs, split_pieces};
use crate::text::{lowercase, lowercase_text, push_char, text_eq, to_chars};
use vstd::prelude::*;

verus! {

/// A table that maps texts to values.  Of several entries under one key the
/// first counts; inserting keeps it that way by replacing in place.
#[derive(Debug, Clone)]
pub struct TextMap<V> {
    entries: Vec<(String, V)>,
}

/// The value that the first entry under `key` at or after `from` holds.
pub open spec fn lookup_from<V>(entries: Seq<(String, V)>, key: Seq<char>, from: int) -> Option<V>
    decreases entries.len() - from,
{
    if from < 0 || from >= entries.len() {
        None
    } else if entries[from].0@ == key {
        Some(entries[from].1)
    } else {
        lookup_from(entries, key, from + 1)
    }
}

/// The index of the first entry under `key` at or after `from`, or the
/// number of entries.
pub open spec fn position_from<V>(entries: Seq<(String, V)>, key: Seq<char>, from: int) -> int
    decreases entries.len() - from,
{
    if from < 0 || from >= entries.len() || entries[from].0@ == key {
        from
    } else {
        position_from(entries, key, from + 1)
    }
}

/// Looking a key up gives the value of the first entry under it.
proof fn lemma_lookup_by_position<V>(entries: Seq<(String, V)>, key: Seq<char>, from: int)
    requires
        0 <= from <= entries.len(),
    ensures
        from <= position_from(entries, key, from) <= entries.len(),
        position_from(entries, key, from) < entries.len() ==> entries[position_from(
            entries,
            key,
            from,
        )].0@ == key && lookup_from(entries, key, from) == Some(
            entries[position_from(entries, key, from)].1,
        ),
        position_from(entries, key, from) == entries.len() ==> lookup_from(entries, key, from)
            is None,
        forall|k: int| from <= k < position_from(entries, key, from) ==> entries[k].0@ != key,
    decreases entries.len() - from,
{
    if from < entries.len() && entries[from].0@ != key {
        lemma_lookup_by_position(entries, key, from + 1);
    }
}

/// Replacing the value of the first entry under a key changes what that key
/// gives and nothing else.
proof fn lemma_replace_first<V>(
    entries: Seq<(String, V)>,
    at: int,
    entry: (String, V),
    probe: Seq<char>,
    from: int,
)
    requires
        0 <= from <= at < entries.len(),
        entry.0@ == entries[at].0@,
        forall|k: int| 0 <= k < at ==> entries[k].0@ != entry.0@,
    ensures
        lookup_from(entries.update(at, entry), probe, from) == if probe == entry.0@ {
            Some(entry.1)
        } else {
            lookup_from(entries, probe, from)
        },
    decreases at - from,
{
    let changed = entries.update(at, entry);
    if from < at {
        lemma_replace_first(entries, at, entry, probe, from + 1);
    } else {
        if probe != entry.0@ {
            lemma_same_tail(entries, changed, probe, at + 1);
        }
    }
}

/// Two lists of entries that agree from an index on give the same from
/// there on.
proof fn lemma_same_tail<V>(
    a: Seq<(String, V)>,
    b: Seq<(String, V)>,
    probe: Seq<char>,
    from: int,
)
    requires
        a.len() == b.len(),
        0 <= from <= a.len(),
        forall|k: int| from <= k < a.len() ==> a[k] == b[k],
    ensures
        lookup_from(a, probe, from) == lookup_from(b, probe, from),
    decreases a.len() - from,
{
    if from < a.len() {
        lemma_same_tail(a, b, probe, from + 1);
    }
}

/// Adding an entry under a key that the table lacks changes what that key
/// gives and nothing else.
proof fn lemma_push_absent<V>(
    entries: Seq<(String, V)>,
    entry: (String, V),
    probe: Seq<char>,
    from: int,
)
    requires
        0 <= from <= entries.len(),
        forall|k: int| 0 <= k < entries.len() ==> entries[k].0@ != entry.0@,
    ensures
        lookup_from(entries.push(entry), probe, from) == if probe == entry.0@ {
            Some(entry.1)
        } else {
            lookup_from(entries, probe, from)
        },
    decreases entries.len() - from,
{
    let longer = entries.push(entry);
    if from < entries.len() {
        lemma_push_absent(entries, entry, probe, from + 1);
    } else {
        assert(lookup_from(longer, probe, from + 1) is None);
    }
}

impl<V> TextMap<V> {
    /// What the table gives under `key`.
    pub closed spec fn get_spec(&self, key: Seq<char>) -> Option<V> {
        lookup_from(self.entries@, key, 0)
    }

    /// An empty table.
    pub fn new() -> (r: TextMap<V>)
        ensures
            forall|key: Seq<char>| r.get_spec(key) is None,
    {
        TextMap { entries: Vec::new() }
    }

    /// The index of the first entry under `key`, or the number of entries.
    fn position(&self, key: &str) -> (r: usize)
        ensures
            r == position_from(self.entries@, key@, 0),
            r <= self.entries@.len(),
    {
        let mut i: usize = 0;
        while i < self.entries.len()
            invariant
                i <= self.entries@.len(),
                position_from(self.entries@, key@, i as int) == position_from(
                    self.entries@,
                    key@,
                    0,
                ),
            decreases self.entries@.len() - i,
        {
            if text_eq(self.entries[i].0.as_str(), key) {
                return i;
            }
            i = i + 1;
        }
        i
    }

    /// Looks `key` up.
    pub fn get(&self, key: &str) -> (r: Option<&V>)
        ensures
            match r {
                Some(value) => self.get_spec(key@) == Some(*value),
                None => self.get_spec(key@) is None,
            },
    {
        let at = self.position(key);
        proof {
            lemma_lookup_by_position(self.entries@, key@, 0);
        }
        if at < self.entries.len() {
            Some(&self.entries[at].1)
        } else {
            None
        }
    }

    /// Whether the table holds an entry under `key`.
    pub fn contains_key(&self, key: &str) -> (r: bool)
        ensures
            r == self.get_spec(key@) is Some,
    {
        self.get(key).is_some()
    }

    /// Puts `value` under `key`, in place of what was there.
    pub fn insert(&mut self, key: String, value: V)
        ensures
            forall|probe: Seq<char>|
                #[trigger] final(self).get_spec(probe) == if probe == key@ {
                    Some(value)
                } else {
                    old(self).get_spec(probe)
                },
    {
        let at = self.position(key.as_str());
        proof {
            lemma_lookup_by_position(self.entries@, key@, 0);
        }
        let ghost before = self.entries@;
        if at < self.entries.len() {
            self.entries.set(at, (key, value));
            proof {
                assert forall|probe: Seq<char>|
                    #[trigger] lookup_from(self.entries@, probe, 0) == if probe == key@ {
                        Some(value)
                    } else {
                        lookup_from(before, probe, 0)
                    } by {
                    lemma_replace_first(before, at as int, (key, value), probe, 0);
                }
            }
        } else {
            self.entries.push((key, value));
            proof {
                assert forall|probe: Seq<char>|
                    #[trigger] lookup_from(self.entries@, probe, 0) == if probe == key@ {
                        Some(value)
                    } else {
                        lookup_from(before, probe, 0)
                    } by {
                    lemma_push_absent(before, (key, value), probe, 0);
                }
            }
        }
    }

    /// Puts `value` under `key` unless the table holds something there.
    pub fn insert_if_absent(&mut self, key: String, value: V)
        ensures
            forall|probe: Seq<char>|
                #[trigger] final(self).get_spec(probe) == if probe == key@ && old(self).get_spec(
                    probe,
                ) is None {
                    Some(value)
                } else {
                    old(self).get_spec(probe)
                },
    {
        if !self.contains_key(key.as_str()) {
            self.insert(key, value);
        }
    }
}

impl TextMap<String> {
    /// The table as a map from texts to texts.
    pub open spec fn texts(&self) -> Map<Seq<char>, Seq<char>> {
        Map::new(
            |key: Seq<char>| self.get_spec(key) is Some,
            |key: Seq<char>| self.get_spec(key)->0@,
        )
    }

    /// Puts the text `value` under `key`, in place of what was there.
    pub fn put(&mut self, key: String, value: String)
        ensures
            final(self).texts() == old(self).texts().insert(key@, value@),
    {
        self.insert(key, value);
    }

    /// Puts the text `value` under `key` unless the table holds something
    /// there.
    pub fn put_if_absent(&mut self, key: String, value: String)
        ensures
            final(self).texts() == if old(self).texts().dom().contains(key@) {
                old(self).texts()
            } else {
                old(self).texts().insert(key@, value@)
            },
    {
        self.insert_if_absent(key, value);
    }

    /// Looks up the text under `key`.
    pub fn text_at(&self, key: &str) -> (r: Option<&String>)
        ensures
            match r {
                Some(value) => self.texts().dom().contains(key@) && self.texts()[key@] == value@,
                None => !self.texts().dom().contains(key@),
            },
    {
        self.get(key)
    }
}

/// The two texts that a pair of strings holds.
pub open spec fn pair_texts(pair: (String, String)) -> (Seq<char>, Seq<char>) {
    (pair.0@, pair.1@)
}

impl TextMap<(String, String)> {
    /// The table as a map from texts to pairs of texts.
    pub open spec fn pairs(&self) -> Map<Seq<char>, (Seq<char>, Seq<char>)> {
        Map::new(
            |key: Seq<char>| self.get_spec(key) is Some,
            |key: Seq<char>| pair_texts(self.get_spec(key)->0),
        )
    }

    /// Puts the pair of texts under `key`, in place of what was there.
    pub fn put_pair(&mut self, key: String, first: String, second: String)
        ensures
            final(self).pairs() == old(self).pairs().insert(key@, (first@, second@)),
    {
        self.insert(key, (first, second));
    }

    /// Looks up the pair of texts under `key`.
    pub fn pair_at(&self, key: &str) -> (r: Option<&(String, String)>)
        ensures
            match r {
                Some(pair) => self.pairs().dom().contains(key@) && self.pairs()[key@] == (
                    pair.0@,
                    pair.1@,
                ),
                None => !self.pairs().dom().contains(key@),
            },
    {
        self.get(key)
    }
}

/// A word with its first character in upper case.
pub open spec fn capitalized(word: Seq<char>) -> Seq<char> {
    if word.len() == 0 {
        word
    } else {
        uppercase(word[0]) + word.subrange(1, word.len() as int)
    }
}

/// The words `words[..n]`, each capitalized, with a space between each two.
pub open spec fn title_of(words: Seq<Seq<char>>, n: int) -> Seq<char>
    decreases n,
{
    if n <= 0 {
        Seq::empty()
    } else if n == 1 {
        capitalized(words[0])
    } else {
        title_of(words, n - 1) + seq![' '] + capitalized(words[n - 1])
    }
}

/// A package name written as a title: its words, which hyphens and
/// underscores part, capitalized and set apart by spaces.
pub open spec fn title_case(name: Seq<char>) -> Seq<char> {
    let words = pieces_of(name, seq!['-', '_']);
    title_of(words, words.len() as int)
}

/// The name shown for a package: the one that the table holds under the
/// package's name in lower case, or else the name as a title.
pub open spec fn humanized(name: Seq<char>, table: TextMap<String>) -> Seq<char> {
    if table.texts().dom().contains(lowercase(name)) {
        table.texts()[lowercase(name)]
    } else {
        title_case(name)
    }
}

/// Humanize a package name - lookup desktop file names, fallback to title-case
pub fn humanize_package_name(name: &str, desktop_map: &TextMap<String>) -> (r: String)
    ensures
        r@ == humanized(name@, *desktop_map),
{
    // Check desktop file map first (by package name)
    let lower = lowercase_text(name);
    if let Some(human_name) = desktop_map.text_at(lower.as_str()) {
        return human_name.clone();
    }
    // Title-case: replace hyphens/underscores with spaces, capitalize each word

    let chars = to_chars(name);
    let mut seps: Vec<char> = Vec::new();
    seps.push('-');
    seps.push('_');
    assert(seps@ =~= seq!['-', '_']);
    let words = split_pieces(&chars, &seps);
    let mut out = String::new();
    let mut i: usize = 0;
    while i < words.len()
        invariant
            i <= words@.len(),
            out@ == title_of(runs(words@), i as int),
        decreases words@.len() - i,
    {
        if i > 0 {
            push_char(&mut out, ' ');
        }
        let word = &words[i];
        if word.len() > 0 {
            let first = uppercase_text(word[0]);
            out.append(first.as_str());
            let mut k: usize = 1;
            while k < word.len()
                invariant
                    1 <= k <= word@.len(),
                    out@ == (if i > 0 {
                        title_of(runs(words@), i as int) + seq![' ']
                    } else {
                        Seq::<char>::empty()
                    }) + uppercase(word@[0]) + word@.subrange(1, k as int),
                decreases word@.len() - k,
            {
                push_char(&mut out, word[k]);
                k = k + 1;
            }
        }
        i = i + 1;
    }
    out
}

} // verus!
