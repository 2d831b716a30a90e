use std::collections::BTreeMap;

use vstd::prelude::*;
use vstd::std_specs::cmp::OrdSpec;
use vstd::std_specs::iter::IteratorSpec;

use crate::config::LayoutOptions;
use crate::layout::master::holds_column;
use crate::niri_ipc_utils::{is_focused_window, WindowInfo};
use crate::plan::{push_repeated, repeated, LayoutAction, Step, Width};
use crate::seq_util::{first_where, lemma_first_where_at, lemma_first_where_found, lemma_first_where_step};
use crate::service_state::ServiceState;

verus! {

/// A tiled window with a place in the scrolling layout.
pub open spec fn is_placed_tile(w: WindowInfo) -> bool {
    !w.is_floating && w.pos_in_scrolling_layout is Some
}

/// The column of a placed tile.
pub open spec fn tile_column(w: WindowInfo) -> usize {
    match w.pos_in_scrolling_layout {
        Some((column, _)) => column,
        None => 0,
    }
}

/// A placed tile as its column lists it: its row and its id.
pub open spec fn tile_entry(w: WindowInfo) -> (usize, u64) {
    match w.pos_in_scrolling_layout {
        Some((_, row)) => (row, w.id),
        None => (0, w.id),
    }
}

/// Whether a window is a placed tile of the given column.
pub open spec fn in_column(column: usize) -> spec_fn(WindowInfo) -> bool {
    |w: WindowInfo| is_placed_tile(w) && tile_column(w) == column
}

/// The entries of one column, in the order of `windows`.
pub open spec fn column_entries(windows: Seq<WindowInfo>, column: usize) -> Seq<(usize, u64)> {
    windows.filter(in_column(column)).map_values(|w: WindowInfo| tile_entry(w))
}

/// Entries ordered by row, the topmost first.
pub open spec fn sorted_by_row(entries: Seq<(usize, u64)>) -> bool {
    forall|i: int, j: int| 0 <= i < j < entries.len() ==> entries[i].0 <= entries[j].0
}

/// `groups` lists, for each column that holds a placed tile, the entries of that
/// column's tiles ordered by row. Tiles that share a row may come in either order.
pub open spec fn is_column_grouping(
    windows: Seq<WindowInfo>,
    groups: Map<usize, Vec<(usize, u64)>>,
) -> bool {
    &&& forall|c: usize| #[trigger] groups.contains_key(c) <==> column_entries(windows, c).len() > 0
    &&& forall|c: usize|
        #[trigger] groups.contains_key(c) ==> sorted_by_row(groups[c]@) && groups[c]@.to_multiset()
            == column_entries(windows, c).to_multiset()
}

/// The steps that split one column into single-window columns: focus its top
/// window, then expel a window for each window below it.
pub open spec fn column_expel_steps(entries: Seq<(usize, u64)>) -> Seq<Step> {
    if entries.len() <= 1 {
        seq![]
    } else {
        seq![Step::Act(LayoutAction::FocusWindow { id: entries[0].1 })] + repeated(
            LayoutAction::ExpelWindowFromColumn,
            (entries.len() - 1) as nat,
        )
    }
}

/// The expel steps of several columns, one column after the other.
pub open spec fn expel_steps(columns: Seq<Seq<(usize, u64)>>) -> Seq<Step>
    decreases columns.len(),
{
    if columns.len() == 0 {
        seq![]
    } else {
        expel_steps(columns.drop_last()) + column_expel_steps(columns.last())
    }
}

/// For each placed tile, in the order of `windows`: give it the scrolling column
/// width and reset its height.
pub open spec fn width_steps(windows: Seq<WindowInfo>) -> Seq<Step>
    decreases windows.len(),
{
    if windows.len() == 0 {
        seq![]
    } else {
        let w = windows.last();
        width_steps(windows.drop_last()) + if is_placed_tile(w) {
            seq![
                Step::Act(
                    LayoutAction::SetWindowWidth { id: Some(w.id), width: Width::ScrollColumn },
                ),
                Step::Act(LayoutAction::ResetWindowHeight { id: Some(w.id) }),
            ]
        } else {
            seq![]
        }
    }
}

/// Gives focus back to the window that had it.
pub open spec fn refocus_steps(windows: Seq<WindowInfo>) -> Seq<Step> {
    match first_where(windows, is_focused_window()) {
        Some(w) => seq![Step::Act(LayoutAction::FocusWindow { id: w.id })],
        None => seq![],
    }
}

/// The columns in `columns` are those of `dom`, from left to right.
pub open spec fn left_to_right(columns: Seq<usize>, dom: Set<usize>) -> bool {
    &&& forall|i: int, j: int| 0 <= i < j < columns.len() ==> columns[i] < columns[j]
    &&& columns.to_set() == dom
}

/// What switching windows into the scrolling layout does, given their grouping by
/// column and the grouped columns from left to right.
pub open spec fn scroll_steps(
    windows: Seq<WindowInfo>,
    groups: Map<usize, Vec<(usize, u64)>>,
    columns: Seq<usize>,
) -> Seq<Step> {
    expel_steps(columns.map_values(|c: usize| groups[c]@)) + width_steps(windows) + refocus_steps(
        windows,
    )
}

/// `steps` switch `windows` into the scrolling layout: they are the scroll steps for a
/// grouping of the windows by column, walked from left to right. Only the order of
/// tiles that share a row of one column is left open.
pub open spec fn is_scroll_plan(windows: Seq<WindowInfo>, steps: Seq<Step>) -> bool {
    exists|groups: Map<usize, Vec<(usize, u64)>>, columns: Seq<usize>|
        {
            &&& is_column_grouping(windows, groups)
            &&& left_to_right(columns, groups.dom())
            &&& steps == scroll_steps(windows, groups, columns)
        }
}

/// Two left-to-right orders of one set of columns are the same order.
pub proof fn lemma_left_to_right_unique(a: Seq<usize>, b: Seq<usize>, dom: Set<usize>)
    requires
        left_to_right(a, dom),
        left_to_right(b, dom),
    ensures
        a == b,
    decreases a.len(),
{
    if a.len() == 0 {
        if b.len() > 0 {
            assert(b.to_set().contains(b[0]));
            assert(a.to_set().contains(b[0]));
            assert(a.contains(b[0]));
            assert(false);
        }
        assert(a =~= b);
    } else {
        assert(a.to_set().contains(a[0]));
        assert(b.to_set().contains(a[0]));
        assert(b.len() > 0);
        assert(b.to_set().contains(b[0]));
        assert(a.to_set().contains(b[0]));
        let i = choose|i: int| 0 <= i < b.len() && b[i] == a[0];
        let j = choose|j: int| 0 <= j < a.len() && a[j] == b[0];
        if i > 0 {
            assert(b[0] < b[i]);
            assert(a[0] <= a[j]);
        }
        assert(a[0] == b[0]);
        let rest = dom.remove(a[0]);
        assert forall|x: usize| a.drop_first().to_set().contains(x) <==> rest.contains(x) by {
            if a.drop_first().to_set().contains(x) {
                let k = choose|k: int| 0 <= k < a.drop_first().len() && a.drop_first()[k] == x;
                assert(a[k + 1] == x);
                assert(a.to_set().contains(x));
                assert(a[0] < a[k + 1]);
            }
            if rest.contains(x) {
                assert(a.to_set().contains(x));
                let k = choose|k: int| 0 <= k < a.len() && a[k] == x;
                assert(k != 0);
                assert(a.drop_first()[k - 1] == x);
            }
        }
        assert forall|x: usize| b.drop_first().to_set().contains(x) <==> rest.contains(x) by {
            if b.drop_first().to_set().contains(x) {
                let k = choose|k: int| 0 <= k < b.drop_first().len() && b.drop_first()[k] == x;
                assert(b[k + 1] == x);
                assert(b.to_set().contains(x));
                assert(b[0] < b[k + 1]);
            }
            if rest.contains(x) {
                assert(b.to_set().contains(x));
                let k = choose|k: int| 0 <= k < b.len() && b[k] == x;
                assert(k != 0);
                assert(b.drop_first()[k - 1] == x);
            }
        }
        assert(a.drop_first().to_set() =~= rest);
        assert(b.drop_first().to_set() =~= rest);
        lemma_left_to_right_unique(a.drop_first(), b.drop_first(), rest);
        assert(a.drop_first() == b.drop_first());
        assert(a.len() == b.len());
        assert forall|i: int| 0 <= i < a.len() implies a[i] == b[i] by {
            if i > 0 {
                assert(a[i] == a.drop_first()[i - 1]);
                assert(b[i] == b.drop_first()[i - 1]);
            }
        }
        assert(a =~= b);
    }
}

/// No two placed tiles share a column and a row, as in any state niri reports.
pub open spec fn places_distinct(windows: Seq<WindowInfo>) -> bool {
    forall|i: int, j: int|
        0 <= i < windows.len() && 0 <= j < windows.len() && i != j && is_placed_tile(
            #[trigger] windows[i],
        ) && is_placed_tile(#[trigger] windows[j]) ==> windows[i].pos_in_scrolling_layout
            != windows[j].pos_in_scrolling_layout
}

/// No two entries share a row.
pub open spec fn rows_distinct(entries: Seq<(usize, u64)>) -> bool {
    forall|k: int, l: int|
        0 <= k < entries.len() && 0 <= l < entries.len() && k != l ==> (#[trigger] entries[k]).0
            != (#[trigger] entries[l]).0
}

/// `entry` is the entry of a placed tile of the column among `windows`.
pub open spec fn entry_from(windows: Seq<WindowInfo>, column: usize, entry: (usize, u64)) -> bool {
    exists|i: int|
        0 <= i < windows.len() && in_column(column)(#[trigger] windows[i]) && tile_entry(windows[i])
            == entry
}

/// Every entry of a column comes from a placed tile of that column.
proof fn lemma_column_entries_origin(windows: Seq<WindowInfo>, column: usize)
    ensures
        forall|k: int|
            0 <= k < column_entries(windows, column).len() ==> entry_from(
                windows,
                column,
                #[trigger] column_entries(windows, column)[k],
            ),
    decreases windows.len(),
{
    if windows.len() == 0 {
        assert(windows.filter(in_column(column)) =~= Seq::<WindowInfo>::empty()) by {
            reveal_with_fuel(Seq::<_>::filter, 1);
        }
    } else {
        let prefix = windows.drop_last();
        let last = windows.last();
        assert(prefix.push(last) =~= windows);
        lemma_column_entries_origin(prefix, column);
        lemma_column_entries_push(prefix, last, column);
        assert forall|k: int| 0 <= k < column_entries(windows, column).len() implies entry_from(
            windows,
            column,
            #[trigger] column_entries(windows, column)[k],
        ) by {
            if k < column_entries(prefix, column).len() {
                assert(entry_from(prefix, column, column_entries(prefix, column)[k]));
                let i = choose|i: int|
                    0 <= i < prefix.len() && in_column(column)(#[trigger] prefix[i]) && tile_entry(
                        prefix[i],
                    ) == column_entries(prefix, column)[k];
                assert(windows[i] == prefix[i]);
            } else {
                assert(windows[windows.len() - 1] == last);
            }
        }
    }
}

/// Where places are distinct, the entries of a column have distinct rows.
proof fn lemma_column_rows_distinct(windows: Seq<WindowInfo>, column: usize)
    requires
        places_distinct(windows),
    ensures
        rows_distinct(column_entries(windows, column)),
    decreases windows.len(),
{
    if windows.len() > 0 {
        let prefix = windows.drop_last();
        let last = windows.last();
        assert(prefix.push(last) =~= windows);
        assert forall|i: int, j: int|
            0 <= i < prefix.len() && 0 <= j < prefix.len() && i != j && is_placed_tile(
                #[trigger] prefix[i],
            ) && is_placed_tile(#[trigger] prefix[j]) implies prefix[i].pos_in_scrolling_layout
            != prefix[j].pos_in_scrolling_layout by {
            assert(prefix[i] == windows[i] && prefix[j] == windows[j]);
        }
        lemma_column_rows_distinct(prefix, column);
        lemma_column_entries_push(prefix, last, column);
        lemma_column_entries_origin(prefix, column);
        let before = column_entries(prefix, column);
        if in_column(column)(last) {
            let after = before.push(tile_entry(last));
            assert forall|k: int, l: int|
                0 <= k < after.len() && 0 <= l < after.len() && k != l implies (#[trigger] after[k]).0
                != (#[trigger] after[l]).0 by {
                if k < before.len() && l < before.len() {
                } else {
                    let m = if k < before.len() {
                        k
                    } else {
                        l
                    };
                    assert(entry_from(prefix, column, before[m]));
                    let i = choose|i: int|
                        0 <= i < prefix.len() && in_column(column)(#[trigger] prefix[i]) && tile_entry(
                            prefix[i],
                        ) == before[m];
                    assert(windows[i] == prefix[i]);
                    assert(windows[windows.len() - 1] == last);
                    assert(windows[i].pos_in_scrolling_layout != windows[windows.len()
                        - 1].pos_in_scrolling_layout);
                }
            }
        }
    }
}

/// Column entries sorted by row, drawn from entries with distinct rows, stand in
/// strictly increasing rows.
proof fn lemma_sorted_rows_strict(x: Seq<(usize, u64)>, e: Seq<(usize, u64)>)
    requires
        sorted_by_row(x),
        x.to_multiset() == e.to_multiset(),
        rows_distinct(e),
    ensures
        forall|k: int, l: int| 0 <= k < l < x.len() ==> x[k].0 < x[l].0,
{
    broadcast use vstd::seq_lib::group_to_multiset_ensures;

    assert(e.no_duplicates()) by {
        assert forall|k: int, l: int| 0 <= k < e.len() && 0 <= l < e.len() && k != l implies e[k]
            != e[l] by {
            assert(e[k].0 != e[l].0);
        }
    }
    e.lemma_multiset_has_no_duplicates();
    x.lemma_multiset_has_no_duplicates_conv();
    assert forall|k: int, l: int| 0 <= k < l < x.len() implies x[k].0 < x[l].0 by {
        if x[k].0 == x[l].0 {
            assert(x.contains(x[k]));
            assert(x.contains(x[l]));
            assert(x.to_multiset().count(x[k]) > 0);
            assert(x.to_multiset().count(x[l]) > 0);
            assert(e.to_multiset().count(x[k]) > 0);
            assert(e.to_multiset().count(x[l]) > 0);
            assert(e.contains(x[k]));
            assert(e.contains(x[l]));
            let p = choose|p: int| 0 <= p < e.len() && e[p] == x[k];
            let q = choose|q: int| 0 <= q < e.len() && e[q] == x[l];
            assert(p == q);
            assert(x[k] != x[l]);
        }
    }
}

/// Two sequences with strictly increasing rows and the same entries are the same.
proof fn lemma_strict_rows_unique(x: Seq<(usize, u64)>, y: Seq<(usize, u64)>)
    requires
        forall|k: int, l: int| 0 <= k < l < x.len() ==> x[k].0 < x[l].0,
        forall|k: int, l: int| 0 <= k < l < y.len() ==> y[k].0 < y[l].0,
        x.to_multiset() == y.to_multiset(),
    ensures
        x == y,
{
    let leq = |a: (usize, u64), b: (usize, u64)| a.0 < b.0 || (a.0 == b.0 && a.1 <= b.1);
    assert(vstd::relations::total_ordering(leq));
    assert(vstd::relations::sorted_by(x, leq));
    assert(vstd::relations::sorted_by(y, leq));
    vstd::seq_lib::lemma_sorted_unique(x, y, leq);
}

/// Where no two tiles share a place, switching into the scrolling layout has one
/// plan only: the steps are determined by the windows.
pub proof fn lemma_scroll_plan_unique(windows: Seq<WindowInfo>, a: Seq<Step>, b: Seq<Step>)
    requires
        places_distinct(windows),
        is_scroll_plan(windows, a),
        is_scroll_plan(windows, b),
    ensures
        a == b,
{
    let (g1, c1) = choose|groups: Map<usize, Vec<(usize, u64)>>, columns: Seq<usize>|
        {
            &&& is_column_grouping(windows, groups)
            &&& left_to_right(columns, groups.dom())
            &&& a == scroll_steps(windows, groups, columns)
        };
    let (g2, c2) = choose|groups: Map<usize, Vec<(usize, u64)>>, columns: Seq<usize>|
        {
            &&& is_column_grouping(windows, groups)
            &&& left_to_right(columns, groups.dom())
            &&& b == scroll_steps(windows, groups, columns)
        };
    assert(g1.dom() =~= g2.dom()) by {
        assert forall|c: usize| g1.dom().contains(c) <==> g2.dom().contains(c) by {
            assert(g1.contains_key(c) <==> column_entries(windows, c).len() > 0);
            assert(g2.contains_key(c) <==> column_entries(windows, c).len() > 0);
        }
    }
    lemma_left_to_right_unique(c1, c2, g1.dom());
    assert forall|c: usize| g1.contains_key(c) implies g1[c]@ == g2[c]@ by {
        assert(g2.contains_key(c));
        lemma_column_rows_distinct(windows, c);
        lemma_sorted_rows_strict(g1[c]@, column_entries(windows, c));
        lemma_sorted_rows_strict(g2[c]@, column_entries(windows, c));
        lemma_strict_rows_unique(g1[c]@, g2[c]@);
    }
    assert(c1.map_values(|c: usize| g1[c]@) =~= c2.map_values(|c: usize| g2[c]@)) by {
        assert forall|k: int| 0 <= k < c1.len() implies #[trigger] g1[c1[k]]@ == g2[c2[k]]@ by {
            assert(c1.to_set().contains(c1[k]));
        }
    }
}

/// Switching into the scrolling layout gives focus back at the end: where a window
/// has focus, the last step focuses the first focused window, whether it is tiled,
/// floating or without a place.
pub proof fn lemma_scroll_plan_returns_focus(windows: Seq<WindowInfo>, steps: Seq<Step>, i: int)
    requires
        is_scroll_plan(windows, steps),
        0 <= i < windows.len(),
        windows[i].is_focused,
        forall|j: int| 0 <= j < i ==> !(#[trigger] windows[j]).is_focused,
    ensures
        steps.len() > 0,
        steps.last() == Step::Act(LayoutAction::FocusWindow { id: windows[i].id }),
{
    let (groups, columns) = choose|groups: Map<usize, Vec<(usize, u64)>>, columns: Seq<usize>|
        {
            &&& is_column_grouping(windows, groups)
            &&& left_to_right(columns, groups.dom())
            &&& steps == scroll_steps(windows, groups, columns)
        };
    lemma_first_where_at(windows, is_focused_window(), i);
    let body = expel_steps(columns.map_values(|c: usize| groups[c]@)) + width_steps(windows);
    assert(steps == body + seq![Step::Act(LayoutAction::FocusWindow { id: windows[i].id })]);
}

/// Where no window has focus, switching into the scrolling layout ends without
/// handing focus to any window: the steps are the splitting and sizing steps alone.
pub proof fn lemma_scroll_plan_without_focus(windows: Seq<WindowInfo>, steps: Seq<Step>)
    requires
        is_scroll_plan(windows, steps),
        forall|j: int| 0 <= j < windows.len() ==> !(#[trigger] windows[j]).is_focused,
    ensures
        exists|groups: Map<usize, Vec<(usize, u64)>>, columns: Seq<usize>|
            {
                &&& is_column_grouping(windows, groups)
                &&& left_to_right(columns, groups.dom())
                &&& steps == expel_steps(columns.map_values(|c: usize| groups[c]@)) + width_steps(
                    windows,
                )
            },
{
    let (groups, columns) = choose|groups: Map<usize, Vec<(usize, u64)>>, columns: Seq<usize>|
        {
            &&& is_column_grouping(windows, groups)
            &&& left_to_right(columns, groups.dom())
            &&& steps == scroll_steps(windows, groups, columns)
        };
    lemma_first_where_found(windows, is_focused_window());
    assert(steps =~= expel_steps(columns.map_values(|c: usize| groups[c]@)) + width_steps(windows));
}

/// What the scrolling layout does when a window opens.
pub open spec fn scroll_open_steps(options: LayoutOptions, new_window: WindowInfo) -> Seq<Step> {
    if !new_window.is_floating && options.maintain_focus_on_new_window {
        seq![Step::Act(LayoutAction::FocusColumnLeft)]
    } else {
        seq![]
    }
}

/// Appending a window to `windows` adds its entry to its own column only.
proof fn lemma_column_entries_push(windows: Seq<WindowInfo>, w: WindowInfo, column: usize)
    ensures
        column_entries(windows.push(w), column) == if in_column(column)(w) {
            column_entries(windows, column).push(tile_entry(w))
        } else {
            column_entries(windows, column)
        },
{
    reveal_with_fuel(Seq::<_>::filter, 1);
    assert(windows.push(w).drop_last() =~= windows);
    let f = |w: WindowInfo| tile_entry(w);
    if in_column(column)(w) {
        assert(windows.filter(in_column(column)).push(w).map_values(f) =~= windows.filter(
            in_column(column),
        ).map_values(f).push(tile_entry(w)));
    }
}

/// Sorts column entries by row; entries that share a row may end up in either order.
#[verifier::external_body]
fn sort_by_row(entries: &mut Vec<(usize, u64)>)
    ensures
        final(entries)@.to_multiset() == old(entries)@.to_multiset(),
        sorted_by_row(final(entries)@),
{
    entries.sort_unstable_by_key(|entry| entry.0);
}

/// Groups the placed tiles among `workspace_windows` by column; each column lists
/// (row, id) of its tiles ordered by row.
pub fn group_workspace_windows_by_column(workspace_windows: &Vec<WindowInfo>) -> (columns: BTreeMap<
    usize,
    Vec<(usize, u64)>,
>)
    ensures
        is_column_grouping(workspace_windows@, columns@),
{
    let mut columns: BTreeMap<usize, Vec<(usize, u64)>> = BTreeMap::new();
    let mut seen: Vec<usize> = Vec::new();
    let mut i: usize = 0;
    while i < workspace_windows.len()
        invariant
            i <= workspace_windows.len(),
            forall|c: usize| #[trigger] columns@.contains_key(c) <==> seen@.contains(c),
            forall|c: usize|
                #[trigger] columns@.contains_key(c) <==> column_entries(
                    workspace_windows@.take(i as int),
                    c,
                ).len() > 0,
            forall|c: usize|
                #[trigger] columns@.contains_key(c) ==> columns@[c]@ == column_entries(
                    workspace_windows@.take(i as int),
                    c,
                ),
        decreases workspace_windows.len() - i,
    {
        let window = workspace_windows[i];
        let ghost prefix = workspace_windows@.take(i as int);
        proof {
            assert(workspace_windows@.take(i + 1) =~= prefix.push(window));
            assert forall|c: usize| true implies column_entries(workspace_windows@.take(i + 1), c)
                == if in_column(c)(window) {
                column_entries(prefix, c).push(tile_entry(window))
            } else {
                column_entries(prefix, c)
            } by {
                lemma_column_entries_push(prefix, window, c);
            }
        }
        if !window.is_floating {
            if let Some((column, row)) = window.pos_in_scrolling_layout {
                let mut entries = match columns.remove(&column) {
                    Some(entries) => entries,
                    None => Vec::new(),
                };
                entries.push((row, window.id));
                columns.insert(column, entries);
                let ghost before = seen@;
                if !holds_column(&seen, column) {
                    seen.push(column);
                    assert(seen@[seen@.len() - 1] == column);
                }
                assert(seen@.contains(column));
                assert forall|c: usize| before.contains(c) implies seen@.contains(c) by {
                    let j = choose|j: int| 0 <= j < before.len() && before[j] == c;
                    assert(seen@[j] == c);
                }
                assert forall|c: usize| seen@.contains(c) implies before.contains(c) || c == column by {
                    let j = choose|j: int| 0 <= j < seen@.len() && seen@[j] == c;
                    if j < before.len() {
                        assert(before[j] == c);
                    }
                }
            }
        }
        i = i + 1;
    }
    assert(workspace_windows@.take(workspace_windows.len() as int) =~= workspace_windows@);

    let ghost grouped = columns@;
    let mut k: usize = 0;
    while k < seen.len()
        invariant
            k <= seen.len(),
            forall|c: usize| #[trigger] columns@.contains_key(c) <==> seen@.contains(c),
            forall|c: usize| #[trigger] columns@.contains_key(c) <==> grouped.contains_key(c),
            forall|c: usize|
                #[trigger] columns@.contains_key(c) ==> columns@[c]@.to_multiset()
                    == grouped[c]@.to_multiset(),
            forall|j: int| 0 <= j < k ==> sorted_by_row(#[trigger] columns@[seen@[j]]@),
        decreases seen.len() - k,
    {
        let column = seen[k];
        assert(seen@.contains(column));
        let mut entries = match columns.remove(&column) {
            Some(entries) => entries,
            None => Vec::new(),
        };
        sort_by_row(&mut entries);
        columns.insert(column, entries);
        k = k + 1;
    }
    proof {
        assert forall|c: usize| #[trigger] columns@.contains_key(c) implies sorted_by_row(
            columns@[c]@,
        ) by {
            let j = choose|j: int| 0 <= j < seen@.len() && seen@[j] == c;
            assert(sorted_by_row(columns@[seen@[j]]@));
        }
    }
    columns
}

/// The first focused window among `windows`.
fn find_focused_window(windows: &Vec<WindowInfo>) -> (found: Option<WindowInfo>)
    ensures
        found == first_where(windows@, is_focused_window()),
{
    let mut i: usize = 0;
    assert(windows@.subrange(0, windows@.len() as int) =~= windows@);
    while i < windows.len()
        invariant
            i <= windows.len(),
            first_where(windows@, is_focused_window()) == first_where(
                windows@.subrange(i as int, windows@.len() as int),
                is_focused_window(),
            ),
        decreases windows.len() - i,
    {
        proof {
            lemma_first_where_step(windows@, is_focused_window(), i as int);
        }
        if windows[i].is_focused {
            return Some(windows[i]);
        }
        i = i + 1;
    }
    None
}

/// The keys of a map walked in increasing order stand in strictly increasing order.
proof fn lemma_increasing_columns(keys: Seq<usize>)
    requires
        vstd::std_specs::btree::increasing_seq(keys),
    ensures
        forall|i: int, j: int| 0 <= i < j < keys.len() ==> keys[i] < keys[j],
{
    assert forall|i: int, j: int| 0 <= i < j < keys.len() implies keys[i] < keys[j] by {
        assert(keys[i].cmp_spec(&keys[j]) is Less);
    }
}

/// Appends the width steps of `windows`.
fn push_width_steps(windows: &Vec<WindowInfo>, steps: &mut Vec<Step>)
    ensures
        final(steps)@ == old(steps)@ + width_steps(windows@),
{
    let ghost start = steps@;
    let mut i: usize = 0;
    while i < windows.len()
        invariant
            i <= windows.len(),
            steps@ == start + width_steps(windows@.take(i as int)),
        decreases windows.len() - i,
    {
        let window = windows[i];
        proof {
            assert(windows@.take(i + 1).drop_last() =~= windows@.take(i as int));
        }
        if !window.is_floating && window.pos_in_scrolling_layout.is_some() {
            steps.push(
                Step::Act(
                    LayoutAction::SetWindowWidth { id: Some(window.id), width: Width::ScrollColumn },
                ),
            );
            steps.push(Step::Act(LayoutAction::ResetWindowHeight { id: Some(window.id) }));
        }
        assert(steps@ =~= start + width_steps(windows@.take(i + 1)));
        i = i + 1;
    }
    assert(windows@.take(windows.len() as int) =~= windows@);
}

/// What switching `workspace_windows` into the scrolling layout does: every column
/// that holds several tiles is split, from the leftmost column on, by focusing its
/// top tile and expelling the tiles below it; then every placed tile gets the
/// scrolling column width and its height reset; then focus returns to the window
/// that had it.
pub fn force_scroll_layout(workspace_windows: &Vec<WindowInfo>) -> (steps: Vec<Step>)
    ensures
        is_scroll_plan(workspace_windows@, steps@),
{
    let focused_window_id = match find_focused_window(workspace_windows) {
        Some(window) => Some(window.id),
        None => None,
    };
    let grouped_windows = group_workspace_windows_by_column(workspace_windows);
    let mut steps: Vec<Step> = Vec::new();
    let values = grouped_windows.values();
    let ghost keys = choose|key_seq: Seq<usize>|
        {
            &&& vstd::std_specs::btree::increasing_seq(key_seq)
            &&& key_seq.to_set() == grouped_windows@.dom()
            &&& key_seq.no_duplicates()
            &&& values.remaining() == key_seq.map(|i: int, k: usize| &grouped_windows@[k])
        };
    assert(values.remaining() == keys.map(|i: int, k: usize| &grouped_windows@[k]));
    let ghost contents = keys.map_values(|c: usize| grouped_windows@[c]@);
    for windows_in_column in it: values
        invariant
            it.seq() == keys.map(|i: int, k: usize| &grouped_windows@[k]),
            contents == keys.map_values(|c: usize| grouped_windows@[c]@),
            steps@ == expel_steps(contents.take(it.index() as int)),
    {
        let ghost idx = it.index();
        proof {
            assert(0 <= idx < keys.len());
            assert(*windows_in_column == grouped_windows@[keys[idx]]);
            assert(contents.take(idx + 1).drop_last() =~= contents.take(idx));
            assert(contents[idx] == windows_in_column@);
        }
        if windows_in_column.len() >= 2 {
            let (_, anchor_window_id) = windows_in_column[0];
            steps.push(Step::Act(LayoutAction::FocusWindow { id: anchor_window_id }));
            push_repeated(&mut steps, &LayoutAction::ExpelWindowFromColumn, windows_in_column.len() - 1);
        }
        assert(steps@ =~= expel_steps(contents.take(idx + 1)));
    }
    assert(contents.take(contents.len() as int) =~= contents);
    assert(steps@ == expel_steps(contents));
    push_width_steps(workspace_windows, &mut steps);
    if let Some(id) = focused_window_id {
        steps.push(Step::Act(LayoutAction::FocusWindow { id }));
    }
    proof {
        lemma_increasing_columns(keys);
    }
    assert(steps@ =~= scroll_steps(workspace_windows@, grouped_windows@, keys));
    assert(left_to_right(keys, grouped_windows@.dom()));
    steps
}

/// What the scrolling layout does when `new_window` opens: where the configuration
/// asks to keep focus, focus goes back to the column on the left.
pub fn handle_scroll_window_open(service_state: &ServiceState, new_window: &WindowInfo) -> (steps: Vec<
    Step,
>)
    ensures
        steps@ == scroll_open_steps(service_state.options, *new_window),
{
    let mut steps: Vec<Step> = Vec::new();
    if new_window.is_floating {
        return steps;
    }
    if service_state.options.maintain_focus_on_new_window {
        steps.push(Step::Act(LayoutAction::FocusColumnLeft));
    }
    assert(steps@ =~= scroll_open_steps(service_state.options, *new_window));
    steps
}

} // verus!
