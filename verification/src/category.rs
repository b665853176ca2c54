//! The packages of a category, put in order for display.

use crate::text::{lowercase, lowercase_text, to_chars};
use crate::ui::{copy_row, deduped, dedup_by_name, row_views, PackageData, RowView};
use crate::version_order::{order_text, text_order, Order};
use vstd::prelude::*;

verus! {

/// The text by which a row is put in order: its display name in lower case.
pub open spec fn sort_key(row: RowView) -> Seq<char> {
    lowercase(row.display_name)
}

/// Whether the text `a` does not come after the text `b`.
pub open spec fn not_after(a: Seq<char>, b: Seq<char>) -> bool {
    text_order(a, 0, a.len() as int, b, 0, b.len() as int) != Order::Greater
}

/// Where a row with the key `key` goes among `rows`, from index `i` on:
/// before the first row whose key comes after it.
pub open spec fn place_from(rows: Seq<RowView>, key: Seq<char>, i: int) -> int
    decreases rows.len() - i,
{
    if 0 <= i < rows.len() && not_after(sort_key(rows[i]), key) {
        place_from(rows, key, i + 1)
    } else {
        i
    }
}

/// The first `n` of `rows` in order of their keys, rows of one key in the
/// order in which they came.
pub open spec fn sorted_rows(rows: Seq<RowView>, n: int) -> Seq<RowView>
    decreases n,
{
    if n <= 0 {
        Seq::empty()
    } else {
        let before = sorted_rows(rows, n - 1);
        before.insert(place_from(before, sort_key(rows[n - 1]), 0), rows[n - 1])
    }
}

/// Whether each row of `rows` has a key that does not come after the next
/// one's.
pub open spec fn in_order(rows: Seq<RowView>) -> bool {
    forall|i: int, j: int|
        0 <= i < j < rows.len() ==> not_after(sort_key(#[trigger] rows[i]), sort_key(
            #[trigger] rows[j],
        ))
}

/// Text order runs one way or the other: what is not before is after or the
/// same.
proof fn lemma_order_flips(a: Seq<char>, i: int, ie: int, b: Seq<char>, j: int, je: int)
    ensures
        text_order(a, i, ie, b, j, je) == Order::Greater <==> text_order(b, j, je, a, i, ie)
            == Order::Less,
        text_order(a, i, ie, b, j, je) == Order::Equal <==> text_order(b, j, je, a, i, ie)
            == Order::Equal,
    decreases ie - i,
{
    if i < ie && j < je && a[i] == b[j] {
        lemma_order_flips(a, i + 1, ie, b, j + 1, je);
    }
}

/// Text order carries over: what does not come after a second text that
/// does not come after a third does not come after the third.
proof fn lemma_order_carries(
    a: Seq<char>,
    i: int,
    ie: int,
    b: Seq<char>,
    j: int,
    je: int,
    c: Seq<char>,
    k: int,
    ke: int,
)
    requires
        text_order(a, i, ie, b, j, je) != Order::Greater,
        text_order(b, j, je, c, k, ke) != Order::Greater,
    ensures
        text_order(a, i, ie, c, k, ke) != Order::Greater,
    decreases ie - i,
{
    if i < ie && j < je && k < ke && a[i] == b[j] && b[j] == c[k] {
        lemma_order_carries(a, i + 1, ie, b, j + 1, je, c, k + 1, ke);
    }
}

/// The place found lies among the rows, after rows that do not come after
/// the key and before one that does.
proof fn lemma_place_bounds(rows: Seq<RowView>, key: Seq<char>, i: int)
    requires
        0 <= i <= rows.len(),
    ensures
        i <= place_from(rows, key, i) <= rows.len(),
        forall|k: int| i <= k < place_from(rows, key, i) ==> not_after(sort_key(rows[k]), key),
        place_from(rows, key, i) < rows.len() ==> !not_after(
            sort_key(rows[place_from(rows, key, i)]),
            key,
        ),
    decreases rows.len() - i,
{
    if i < rows.len() && not_after(sort_key(rows[i]), key) {
        lemma_place_bounds(rows, key, i + 1);
    }
}

/// Sorting puts the rows in order and neither loses nor adds one.
pub proof fn law_sorted_rows_are_in_order(rows: Seq<RowView>, n: int)
    requires
        0 <= n <= rows.len(),
    ensures
        in_order(sorted_rows(rows, n)),
        sorted_rows(rows, n).to_multiset() == rows.subrange(0, n).to_multiset(),
        sorted_rows(rows, n).len() == n,
    decreases n,
{
    if n == 0 {
        assert(rows.subrange(0, 0) =~= Seq::<RowView>::empty());
    } else {
        law_sorted_rows_are_in_order(rows, n - 1);
        let before = sorted_rows(rows, n - 1);
        let row = rows[n - 1];
        let key = sort_key(row);
        let p = place_from(before, key, 0);
        lemma_place_bounds(before, key, 0);
        let after = before.insert(p, row);
        assert forall|i: int, j: int| 0 <= i < j < after.len() implies not_after(
            sort_key(#[trigger] after[i]),
            sort_key(#[trigger] after[j]),
        ) by {
            if j < p {
                assert(after[i] == before[i] && after[j] == before[j]);
            } else if j == p {
                assert(after[i] == before[i]);
            } else if i == p {
                // The row at `p`, where there is one, comes after `key`, and
                // so does every row behind it.
                let x = sort_key(before[p]);
                let y = sort_key(before[j - 1]);
                assert(after[j] == before[j - 1]);
                lemma_order_flips(x, 0, x.len() as int, key, 0, key.len() as int);
                if j - 1 > p {
                    assert(not_after(sort_key(before[p]), sort_key(before[j - 1])));
                    lemma_order_carries(
                        key,
                        0,
                        key.len() as int,
                        x,
                        0,
                        x.len() as int,
                        y,
                        0,
                        y.len() as int,
                    );
                }
            } else if i > p {
                assert(after[i] == before[i - 1] && after[j] == before[j - 1]);
            } else {
                assert(after[i] == before[i] && after[j] == before[j - 1]);
            }
        }
        assert(after.to_multiset() =~= before.to_multiset().insert(row)) by {
            vstd::seq_lib::to_multiset_remove(after, p);
            assert(after.remove(p) =~= before);
            after.to_multiset_ensures();
            assert(after[p] == row);
            assert(after.contains(row));
        }
        assert(rows.subrange(0, n) =~= rows.subrange(0, n - 1).push(row));
        vstd::seq_lib::to_multiset_build(rows.subrange(0, n - 1), row);
    }
}

/// The rows of a category as they are shown: in order of their display
/// names, letter case aside, and with the rows that repeat the name of the
/// row before them taken out.
pub open spec fn category_rows(rows: Seq<RowView>) -> Seq<RowView> {
    let sorted = sorted_rows(rows, rows.len() as int);
    deduped(sorted, sorted.len() as int)
}

/// The keys of a list of rows.
pub open spec fn keys_of(rows: Seq<RowView>) -> Seq<Seq<char>> {
    Seq::new(rows.len(), |i: int| sort_key(rows[i]))
}

/// The texts that a list of character runs holds.
pub open spec fn key_texts(keys: Seq<Vec<char>>) -> Seq<Seq<char>> {
    Seq::new(keys.len(), |i: int| keys[i]@)
}

/// Finds where a row with the key `key` goes among rows with the keys
/// `keys`.
fn find_place(keys: &Vec<Vec<char>>, key: &Vec<char>, Ghost(rows): Ghost<Seq<RowView>>) -> (r:
    usize)
    requires
        key_texts(keys@) == keys_of(rows),
    ensures
        r == place_from(rows, key@, 0),
        r <= keys@.len(),
{
    assert(key_texts(keys@).len() == keys@.len());
    let mut i: usize = 0;
    while i < keys.len()
        invariant
            i <= keys@.len(),
            keys@.len() == rows.len(),
            key_texts(keys@) == keys_of(rows),
            place_from(rows, key@, i as int) == place_from(rows, key@, 0),
        decreases keys@.len() - i,
    {
        assert(key_texts(keys@)[i as int] == keys@[i as int]@);
        match order_text(&keys[i], 0, keys[i].len(), key, 0, key.len()) {
            Order::Greater => {
                return i;
            },
            _ => {},
        }
        i = i + 1;
    }
    i
}

/// Puts rows in order of their display names, letter case aside; rows whose
/// names are the same in lower case stay in the order in which they came.
pub fn sort_by_display_name(rows: &Vec<PackageData>) -> (r: Vec<PackageData>)
    ensures
        row_views(r@) == sorted_rows(row_views(rows@), rows@.len() as int),
        in_order(row_views(r@)),
        row_views(r@).to_multiset() == row_views(rows@).to_multiset(),
{
    let mut sorted: Vec<PackageData> = Vec::new();
    let mut keys: Vec<Vec<char>> = Vec::new();
    let mut i: usize = 0;
    while i < rows.len()
        invariant
            i <= rows@.len(),
            row_views(sorted@) == sorted_rows(row_views(rows@), i as int),
            key_texts(keys@) == keys_of(row_views(sorted@)),
        decreases rows@.len() - i,
    {
        let row = copy_row(&rows[i]);
        let lower = lowercase_text(row.display_name.as_str());
        let key = to_chars(lower.as_str());
        let place = find_place(&keys, &key, Ghost(row_views(sorted@)));
        let ghost before = sorted@;
        let ghost keys_before = keys@;
        assert(key_texts(keys@).len() == keys_of(row_views(sorted@)).len());
        sorted.insert(place, row);
        keys.insert(place, key);
        proof {
            assert forall|k: int| 0 <= k < keys@.len() implies key_texts(keys@)[k] == keys_of(
                row_views(sorted@),
            )[k] by {
                if k < place {
                    assert(key_texts(keys_before)[k] == keys_of(row_views(before))[k]);
                } else if k > place {
                    assert(key_texts(keys_before)[k - 1] == keys_of(row_views(before))[k - 1]);
                }
            }
        }
        i = i + 1;
    }
    proof {
        law_sorted_rows_are_in_order(row_views(rows@), rows@.len() as int);
        assert(row_views(rows@).subrange(0, rows@.len() as int) =~= row_views(rows@));
    }
    sorted
}

/// Puts the rows of a category in order for display and removes the
/// duplicates by name.
pub fn arrange_category(rows: &Vec<PackageData>) -> (r: Vec<PackageData>)
    ensures
        row_views(r@) == category_rows(row_views(rows@)),
{
    let sorted = sort_by_display_name(rows);
    // Remove duplicates by name
    let r = dedup_by_name(&sorted);
    r
}

} // verus!
