//! Cells of a rectangular grid, as pairs `(column, row)` of integers, and
//! how many of them there are.

use vstd::arithmetic::div_mod::lemma_fundamental_div_mod;
use vstd::arithmetic::div_mod::lemma_fundamental_div_mod_converse;
use vstd::prelude::*;
use vstd::set_lib::lemma_int_range;
use vstd::set_lib::lemma_len_subset;
use vstd::set_lib::set_int_range;

verus! {

/// Whether `cell` lies on a grid of `cols` columns and `rows` rows.
pub open spec fn in_grid(cell: (int, int), cols: int, rows: int) -> bool {
    0 <= cell.0 < cols && 0 <= cell.1 < rows
}

/// Whether every cell of `cells` lies on the grid.
pub open spec fn all_in_grid(cells: Seq<(int, int)>, cols: int, rows: int) -> bool {
    forall|i: int| 0 <= i < cells.len() ==> in_grid(#[trigger] cells[i], cols, rows)
}

/// Whether the grid has a cell that `cells` does not hold.
pub open spec fn has_free_cell(cells: Seq<(int, int)>, cols: int, rows: int) -> bool {
    exists|cell: (int, int)| in_grid(cell, cols, rows) && !cells.contains(cell)
}

/// Whether `a` comes before `b` when cells are read row by row from the
/// top, each row from the left.
pub open spec fn reads_before(a: (int, int), b: (int, int)) -> bool {
    a.1 < b.1 || (a.1 == b.1 && a.0 < b.0)
}

/// Whether `cell` is the first cell of the grid, read row by row, that
/// `cells` does not hold.
pub open spec fn is_first_free(
    cell: (int, int),
    cells: Seq<(int, int)>,
    cols: int,
    rows: int,
) -> bool {
    &&& in_grid(cell, cols, rows)
    &&& !cells.contains(cell)
    &&& forall|other: (int, int)|
        in_grid(other, cols, rows) && reads_before(other, cell) ==> #[trigger] cells.contains(
            other,
        )
}

/// The place of `cell` when the cells of a grid `cols` wide are numbered
/// row by row from 0.
pub open spec fn cell_index(cell: (int, int), cols: int) -> int {
    cell.1 * cols + cell.0
}

/// The numbers of the cells of a grid are those from 0 up to, and without,
/// the number of its cells.
pub proof fn lemma_cell_index_in_range(cell: (int, int), cols: int, rows: int)
    requires
        in_grid(cell, cols, rows),
    ensures
        0 <= cell_index(cell, cols) < cols * rows,
{
    assert(0 <= cell.1 * cols && cell.1 * cols + cols <= cols * rows) by (nonlinear_arith)
        requires
            0 <= cell.1 < rows,
            0 < cols,
    ;
}

/// Two cells of a grid with the same number are the same cell.
pub proof fn lemma_cell_index_injective(a: (int, int), b: (int, int), cols: int, rows: int)
    requires
        in_grid(a, cols, rows),
        in_grid(b, cols, rows),
        cell_index(a, cols) == cell_index(b, cols),
    ensures
        a == b,
{
    lemma_fundamental_div_mod_converse(cell_index(a, cols), cols, a.1, a.0);
    lemma_fundamental_div_mod_converse(cell_index(b, cols), cols, b.1, b.0);
}

/// Every number below the number of cells is the number of a cell of the
/// grid.
pub proof fn lemma_cell_index_onto(k: int, cols: int, rows: int) -> (cell: (int, int))
    requires
        0 <= k < cols * rows,
        0 <= cols,
        0 <= rows,
    ensures
        in_grid(cell, cols, rows),
        cell_index(cell, cols) == k,
{
    assert(cols > 0) by (nonlinear_arith)
        requires
            0 <= k < cols * rows,
            0 <= cols,
    ;
    let cell = (k % cols, k / cols);
    lemma_fundamental_div_mod(k, cols);
    assert(0 <= k / cols < rows) by (nonlinear_arith)
        requires
            0 <= k < cols * rows,
            0 < cols,
            k == cols * (k / cols) + k % cols,
            0 <= k % cols < cols,
    ;
    assert(cols * (k / cols) == (k / cols) * cols) by (nonlinear_arith);
    cell
}

/// The cell numbers of `cells`, in the same order.
pub open spec fn cell_indices(cells: Seq<(int, int)>, cols: int) -> Seq<int> {
    cells.map_values(|cell: (int, int)| cell_index(cell, cols))
}

/// Distinct cells of a grid have distinct numbers, so their numbers form a
/// set as large as the sequence is long.
proof fn lemma_cell_indices_count(cells: Seq<(int, int)>, cols: int, rows: int)
    requires
        cells.no_duplicates(),
        all_in_grid(cells, cols, rows),
    ensures
        cell_indices(cells, cols).no_duplicates(),
        cell_indices(cells, cols).to_set().len() == cells.len(),
        cell_indices(cells, cols).to_set().finite(),
        cell_indices(cells, cols).to_set().subset_of(set_int_range(0, cols * rows)),
{
    let numbers = cell_indices(cells, cols);
    assert forall|i: int, j: int|
        0 <= i < numbers.len() && 0 <= j < numbers.len() && i != j implies numbers[i]
        != numbers[j] by {
        if numbers[i] == numbers[j] {
            lemma_cell_index_injective(cells[i], cells[j], cols, rows);
        }
    }
    numbers.unique_seq_to_set();
    assert forall|k: int| numbers.to_set().contains(k) implies set_int_range(
        0,
        cols * rows,
    ).contains(k) by {
        let i = choose|i: int| 0 <= i < numbers.len() && numbers[i] == k;
        lemma_cell_index_in_range(cells[i], cols, rows);
    }
    if cells.len() > 0 {
        lemma_cell_index_in_range(cells[0], cols, rows);
        lemma_int_range(0, cols * rows);
        lemma_len_subset(numbers.to_set(), set_int_range(0, cols * rows));
    } else {
        assert(numbers.to_set() =~= Set::<int>::empty());
    }
}

/// Distinct cells of a grid are at most as many as the grid has cells.
pub proof fn lemma_cells_fit_grid(cells: Seq<(int, int)>, cols: int, rows: int)
    requires
        cells.no_duplicates(),
        all_in_grid(cells, cols, rows),
        0 <= cols,
        0 <= rows,
    ensures
        cells.len() <= cols * rows,
{
    assert(0 <= cols * rows) by (nonlinear_arith)
        requires
            0 <= cols,
            0 <= rows,
    ;
    lemma_cell_indices_count(cells, cols, rows);
    lemma_int_range(0, cols * rows);
    lemma_len_subset(cell_indices(cells, cols).to_set(), set_int_range(0, cols * rows));
}

/// Distinct cells of a grid leave a cell free exactly when they are fewer
/// than the grid has cells.
pub proof fn lemma_free_cell_iff_room(cells: Seq<(int, int)>, cols: int, rows: int)
    requires
        cells.no_duplicates(),
        all_in_grid(cells, cols, rows),
        0 <= cols,
        0 <= rows,
    ensures
        has_free_cell(cells, cols, rows) <==> cells.len() < cols * rows,
{
    let total = cols * rows;
    let numbers = cell_indices(cells, cols);
    let range = set_int_range(0, total);
    assert(0 <= total) by (nonlinear_arith)
        requires
            0 <= cols,
            0 <= rows,
            total == cols * rows,
    ;
    lemma_cell_indices_count(cells, cols, rows);
    lemma_int_range(0, total);
    if has_free_cell(cells, cols, rows) {
        let free = choose|cell: (int, int)| in_grid(cell, cols, rows) && !cells.contains(cell);
        let k = cell_index(free, cols);
        lemma_cell_index_in_range(free, cols, rows);
        assert forall|n: int| numbers.to_set().contains(n) implies range.remove(k).contains(
            n,
        ) by {
            let i = choose|i: int| 0 <= i < numbers.len() && numbers[i] == n;
            if n == k {
                lemma_cell_index_injective(cells[i], free, cols, rows);
            }
        }
        lemma_len_subset(numbers.to_set(), range.remove(k));
    } else {
        assert forall|k: int| range.contains(k) implies numbers.to_set().contains(k) by {
            let cell = lemma_cell_index_onto(k, cols, rows);
            assert(cells.contains(cell));
            let i = choose|i: int| 0 <= i < cells.len() && cells[i] == cell;
            assert(numbers[i] == k);
        }
        lemma_len_subset(range, numbers.to_set());
    }
}

} // verus!
