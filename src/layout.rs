use vstd::prelude::*;

use crate::files::{entries_view, ImageEntry, ImageView};

verus! {

/// Width reserved for one grid cell, padding included, in layout units.
pub const GRID_ITEM_WIDTH: usize = 256;

/// The rows that `s` falls into when each row takes at most `n` items, in order.
pub open spec fn rows_of<A>(s: Seq<A>, n: nat) -> Seq<Seq<A>>
    decreases s.len(),
{
    if s.len() == 0 || n == 0 {
        seq![]
    } else if s.len() <= n {
        seq![s]
    } else {
        seq![s.take(n as int)] + rows_of(s.skip(n as int), n)
    }
}

/// The rows of a grid, seen as sequences of entry views.
pub open spec fn grid_view(rows: Seq<Vec<ImageEntry>>) -> Seq<Seq<ImageView>> {
    rows.map_values(|row: Vec<ImageEntry>| entries_view(row@))
}

/// How many cells of `cell_width` fit side by side in `viewport_width`.
pub fn compute_row_capacity(viewport_width: usize, cell_width: usize) -> (r: usize)
    requires
        cell_width > 0,
    ensures
        r == viewport_width / cell_width,
        viewport_width < cell_width ==> r == 0,
{
    let r = viewport_width / cell_width;
    proof {
        if viewport_width < cell_width {
            lemma_narrow_viewport(viewport_width as int, cell_width as int);
        }
    }
    r
}

proof fn lemma_narrow_viewport(w: int, c: int)
    requires
        0 <= w < c,
    ensures
        w / c == 0,
{
    vstd::arithmetic::div_mod::lemma_basic_div(w, c);
}

/// A viewport narrower than one cell leaves room for no cell at all.
pub proof fn lemma_capacity_zero_below_cell(viewport_width: nat, cell_width: nat)
    requires
        viewport_width < cell_width,
    ensures
        viewport_width / cell_width == 0,
{
    lemma_narrow_viewport(viewport_width as int, cell_width as int);
}

/// The row capacity never shrinks as the viewport grows.
pub proof fn lemma_capacity_monotonic(w1: nat, w2: nat, cell_width: nat)
    requires
        cell_width > 0,
        w1 <= w2,
    ensures
        w1 / cell_width <= w2 / cell_width,
{
    vstd::arithmetic::div_mod::lemma_div_is_ordered(w1 as int, w2 as int, cell_width as int);
}

/// Cutting a sequence into rows of `n` items: every row but the last holds exactly
/// `n` items, the last holds between one and `n`, and the rows laid end to end give
/// back the sequence unchanged.
pub proof fn lemma_rows_partition<A>(s: Seq<A>, n: nat)
    requires
        n >= 1,
    ensures
        forall|i: int| 0 <= i < rows_of(s, n).len() - 1 ==> #[trigger] rows_of(s, n)[i].len() == n,
        rows_of(s, n).len() > 0 ==> 1 <= rows_of(s, n).last().len() <= n,
        rows_of(s, n).len() == 0 <==> s.len() == 0,
        rows_of(s, n).flatten() == s,
    decreases s.len(),
{
    if s.len() == 0 {
    } else if s.len() <= n {
        let rows = rows_of(s, n);
        assert(rows.drop_first() =~= Seq::<Seq<A>>::empty());
        assert(rows.drop_first().flatten() == Seq::<A>::empty());
        assert(rows.flatten() == rows.first() + rows.drop_first().flatten());
        assert(rows.flatten() =~= s);
    } else {
        let rest = rows_of(s.skip(n as int), n);
        lemma_rows_partition(s.skip(n as int), n);
        let rows = rows_of(s, n);
        assert(rows == seq![s.take(n as int)] + rest);
        assert(rows.drop_first() =~= rest);
        assert(rows.first() == s.take(n as int));
        assert(rows.flatten() == s.take(n as int) + rest.flatten());
        assert(s.take(n as int) + s.skip(n as int) =~= s);
        assert forall|i: int| 0 <= i < rows.len() - 1 implies #[trigger] rows[i].len() == n by {
            if i > 0 {
                assert(rows[i] == rest[i - 1]);
            }
        }
        assert(rows.last() == rest.last());
    }
}

proof fn lemma_rows_step<A>(s: Seq<A>, i: int, n: nat)
    requires
        n >= 1,
        0 <= i < s.len(),
    ensures
        s.len() - i <= n ==> rows_of(s.skip(i), n) == seq![s.subrange(i, s.len() as int)],
        s.len() - i > n ==> rows_of(s.skip(i), n) == seq![s.subrange(i, i + n)] + rows_of(
            s.skip(i + n),
            n,
        ),
{
    let t = s.skip(i);
    assert(t =~= s.subrange(i, s.len() as int));
    if s.len() - i > n {
        assert(t.take(n as int) =~= s.subrange(i, i + n));
        assert(t.skip(n as int) =~= s.skip(i + n));
    }
}

/// Lays `items` out in rows of `row_capacity` cells, in order; the last row may be short.
pub fn partition_into_rows(items: &Vec<ImageEntry>, row_capacity: usize) -> (r: Vec<
    Vec<ImageEntry>,
>)
    requires
        row_capacity >= 1,
    ensures
        grid_view(r@) == rows_of(entries_view(items@), row_capacity as nat),
{
    let ghost all = entries_view(items@);
    let ghost n = row_capacity as nat;
    let mut rows: Vec<Vec<ImageEntry>> = Vec::new();
    let mut start: usize = 0;
    assert(all.skip(0) =~= all);
    while start < items.len()
        invariant
            row_capacity >= 1,
            n == row_capacity as nat,
            all == entries_view(items@),
            all.len() == items@.len(),
            start <= items.len(),
            rows_of(all, n) == grid_view(rows@) + rows_of(all.skip(start as int), n),
        decreases items.len() - start,
    {
        let end: usize = if items.len() - start <= row_capacity {
            items.len()
        } else {
            start + row_capacity
        };
        let mut row: Vec<ImageEntry> = Vec::new();
        let mut k: usize = start;
        while k < end
            invariant
                start <= k <= end <= items.len(),
                all == entries_view(items@),
                all.len() == items@.len(),
                entries_view(row@) == all.subrange(start as int, k as int),
            decreases end - k,
        {
            let e = items[k].duplicate();
            let ghost before = row@;
            row.push(e);
            assert(entries_view(row@) =~= entries_view(before).push(e@));
            assert(entries_view(row@) =~= all.subrange(start as int, k + 1));
            k = k + 1;
        }
        proof {
            lemma_rows_step(all, start as int, n);
            let old_rows = rows@;
            assert(grid_view(old_rows.push(row)) =~= grid_view(old_rows) + seq![
                entries_view(row@),
            ]);
            if end == items.len() {
                assert(all.skip(end as int) =~= Seq::<ImageView>::empty());
            }
        }
        rows.push(row);
        start = end;
    }
    assert(all.skip(start as int) =~= Seq::<ImageView>::empty());
    assert(grid_view(rows@) + seq![] =~= grid_view(rows@));
    rows
}

} // verus!
