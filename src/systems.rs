use crate::config::Mode;
use crate::patterns::{covers, stamped, Pattern};
use crate::rules::{RuleModel, RuleSet, Rules};
use crate::state::{
    flags_of, grid_of, height_of, is_rectangular, same_shape, width_of, Cell, GameState,
};
use rand::Rng;
use rayon::iter::{IndexedParallelIterator, IntoParallelRefMutIterator, ParallelIterator};
use vstd::prelude::*;

verus! {

/// Toroidal addressing: index `i` taken modulo the extent `n`.
pub open spec fn wrap(i: int, n: int) -> int {
    i % n
}

/// Whether the cell at (x, y), wrapped onto the torus, is alive.
pub open spec fn alive_at(g: Seq<Seq<Cell>>, x: int, y: int) -> bool {
    g[wrap(y, height_of(g))][wrap(x, width_of(g))].is_alive
}

/// 1 for a live cell at (x, y) on the torus, 0 otherwise.
pub open spec fn live(g: Seq<Seq<Cell>>, x: int, y: int) -> int {
    if alive_at(g, x, y) {
        1
    } else {
        0
    }
}

/// Number of live cells among the eight toroidal neighbours of (x, y).
pub open spec fn neighbor_count(g: Seq<Seq<Cell>>, x: int, y: int) -> int {
    live(g, x - 1, y - 1) + live(g, x, y - 1) + live(g, x + 1, y - 1) + live(g, x - 1, y) + live(
        g,
        x + 1,
        y,
    ) + live(g, x - 1, y + 1) + live(g, x, y + 1) + live(g, x + 1, y + 1)
}

/// Whether the cell at (x, y) is alive in the next generation: a live cell survives
/// on a survival count, a dead cell is born on a birth count.
pub open spec fn next_alive(g: Seq<Seq<Cell>>, rule: RuleModel, x: int, y: int) -> bool {
    let k = neighbor_count(g, x, y) as usize;
    if g[y][x].is_alive {
        rule.survival.contains(k)
    } else {
        rule.birth.contains(k)
    }
}

/// One more activation, wrapping to zero past `u32::MAX`.
pub open spec fn bump(n: u32) -> u32 {
    if n == u32::MAX {
        0
    } else {
        (n + 1) as u32
    }
}

/// The cell after it takes on the state `alive`: a dead cell that comes alive
/// counts one more activation.
pub open spec fn committed(c: Cell, alive: bool) -> Cell {
    Cell {
        is_alive: alive,
        activation_count: if alive && !c.is_alive {
            bump(c.activation_count)
        } else {
            c.activation_count
        },
    }
}

/// The next-state decisions of row y.
pub open spec fn decided_row(g: Seq<Seq<Cell>>, rule: RuleModel, y: int) -> Seq<bool> {
    Seq::new(g[y].len(), |x: int| next_alive(g, rule, x, y))
}

/// The next-state decisions of the whole grid, all read from `g`.
pub open spec fn decide(g: Seq<Seq<Cell>>, rule: RuleModel) -> Seq<Seq<bool>> {
    Seq::new(g.len(), |y: int| decided_row(g, rule, y))
}

/// A row after each cell takes on its decided state.
pub open spec fn committed_row(row: Seq<Cell>, next: Seq<bool>) -> Seq<Cell> {
    Seq::new(row.len(), |x: int| committed(row[x], next[x]))
}

/// One synchronous generation of the grid under a rule.
pub open spec fn step(g: Seq<Seq<Cell>>, rule: RuleModel) -> Seq<Seq<Cell>> {
    Seq::new(g.len(), |y: int| committed_row(g[y], decided_row(g, rule, y)))
}

/// Wrapping one step past either end of a row or column lands on the other end.
pub proof fn lemma_wrap_adjacent(i: int, n: int)
    requires
        0 <= i < n,
    ensures
        wrap(i, n) == i,
        wrap(i - 1, n) == if i == 0 {
            n - 1
        } else {
            i - 1
        },
        wrap(i + 1, n) == if i + 1 == n {
            0
        } else {
            i + 1
        },
{
    vstd::arithmetic::div_mod::lemma_small_mod(i as nat, n as nat);
    if i == 0 {
        vstd::arithmetic::div_mod::lemma_mod_add_multiples_vanish(-1, n);
        vstd::arithmetic::div_mod::lemma_small_mod((n - 1) as nat, n as nat);
    } else {
        vstd::arithmetic::div_mod::lemma_small_mod((i - 1) as nat, n as nat);
    }
    if i + 1 == n {
        vstd::arithmetic::div_mod::lemma_mod_self_0(n);
    } else {
        vstd::arithmetic::div_mod::lemma_small_mod((i + 1) as nat, n as nat);
    }
}

/// Counts the live cells among the eight neighbours of (x, y), the grid's edges
/// wrapping around to the opposite edges.
pub fn count_alive_neighbors(cells: &Vec<Vec<Cell>>, x: usize, y: usize) -> (r: usize)
    requires
        is_rectangular(grid_of(cells@)),
        y < cells@.len(),
        x < cells@[0]@.len(),
    ensures
        r == neighbor_count(grid_of(cells@), x as int, y as int),
{
    let ghost g = grid_of(cells@);
    let h = cells.len();
    let w = cells[0].len();
    let up = if y == 0 {
        h - 1
    } else {
        y - 1
    };
    let down = if y + 1 == h {
        0
    } else {
        y + 1
    };
    let left = if x == 0 {
        w - 1
    } else {
        x - 1
    };
    let right = if x + 1 == w {
        0
    } else {
        x + 1
    };
    proof {
        lemma_wrap_adjacent(x as int, w as int);
        lemma_wrap_adjacent(y as int, h as int);
        assert(g[up as int] == cells@[up as int]@);
        assert(g[y as int] == cells@[y as int]@);
        assert(g[down as int] == cells@[down as int]@);
        assert(g[0] == cells@[0]@);
    }
    let mut count: usize = 0;
    if cells[up][left].is_alive {
        count += 1;
    }
    if cells[up][x].is_alive {
        count += 1;
    }
    if cells[up][right].is_alive {
        count += 1;
    }
    if cells[y][left].is_alive {
        count += 1;
    }
    if cells[y][right].is_alive {
        count += 1;
    }
    if cells[down][left].is_alive {
        count += 1;
    }
    if cells[down][x].is_alive {
        count += 1;
    }
    if cells[down][right].is_alive {
        count += 1;
    }
    count
}

/// Whether `k` is one of `counts`.
fn contains_count(counts: &Vec<usize>, k: usize) -> (r: bool)
    ensures
        r == counts@.contains(k),
{
    let mut i: usize = 0;
    while i < counts.len()
        invariant
            i <= counts@.len(),
            forall|j: int| 0 <= j < i ==> counts@[j] != k,
        decreases counts@.len() - i,
    {
        if counts[i] == k {
            return true;
        }
        i += 1;
    }
    false
}

/// Computes the next-state decisions of row `y` into `row`, reading only `cells`.
pub fn decide_row(cells: &Vec<Vec<Cell>>, rules: &Rules, y: usize, row: &mut Vec<bool>)
    requires
        is_rectangular(grid_of(cells@)),
        y < cells@.len(),
    ensures
        final(row)@ == decided_row(grid_of(cells@), rules@, y as int),
{
    let ghost g = grid_of(cells@);
    let w = cells[y].len();
    proof {
        assert(g[y as int] == cells@[y as int]@);
        assert(g[0] == cells@[0]@);
    }
    let mut out: Vec<bool> = Vec::with_capacity(w);
    let mut x: usize = 0;
    while x < w
        invariant
            is_rectangular(g),
            g == grid_of(cells@),
            y < g.len(),
            w == g[y as int].len(),
            w == g[0].len(),
            x <= w,
            out@.len() == x,
            forall|i: int| 0 <= i < x ==> out@[i] == next_alive(g, rules@, i, y as int),
        decreases w - x,
    {
        let k = count_alive_neighbors(cells, x, y);
        let alive = if cells[y][x].is_alive {
            contains_count(&rules.survival_counts, k)
        } else {
            contains_count(&rules.birth_counts, k)
        };
        proof {
            assert(g[y as int][x as int] == cells@[y as int]@[x as int]);
        }
        out.push(alive);
        x += 1;
    }
    assert(out@ =~= decided_row(g, rules@, y as int));
    *row = out;
}

/// Takes on, cell by cell, the decisions of row `y` of `next`.
pub fn commit_row(row: &mut Vec<Cell>, next: &Vec<Vec<bool>>, y: usize)
    requires
        y < next@.len(),
        old(row)@.len() == next@[y as int]@.len(),
    ensures
        final(row)@ == committed_row(old(row)@, next@[y as int]@),
{
    let n = row.len();
    let mut x: usize = 0;
    while x < n
        invariant
            n == old(row)@.len(),
            row@.len() == n,
            y < next@.len(),
            n == next@[y as int]@.len(),
            x <= n,
            forall|i: int| 0 <= i < x ==> row@[i] == committed(old(row)@[i], next@[y as int]@[i]),
            forall|i: int| x <= i < n ==> row@[i] == old(row)@[i],
        decreases n - x,
    {
        let c = row[x];
        let next_alive = next[y][x];
        let count = if next_alive && !c.is_alive {
            c.activation_count.wrapping_add(1)
        } else {
            c.activation_count
        };
        row.set(x, Cell { is_alive: next_alive, activation_count: count });
        x += 1;
    }
    assert(row@ =~= committed_row(old(row)@, next@[y as int]@));
}

/// Relies on rayon's `par_iter_mut().enumerate().for_each`: the closure runs once
/// for every row of `next`, given that row and its index, and every run has
/// finished when the call returns.
#[verifier::external_body]
fn decide_rows_in_parallel(cells: &Vec<Vec<Cell>>, rules: &Rules, next: &mut Vec<Vec<bool>>)
    requires
        is_rectangular(grid_of(cells@)),
        old(next)@.len() == cells@.len(),
    ensures
        final(next)@.len() == cells@.len(),
        forall|y: int|
            0 <= y < cells@.len() ==> #[trigger] final(next)@[y]@ == decided_row(
                grid_of(cells@),
                rules@,
                y,
            ),
{
    next.par_iter_mut().enumerate().for_each(|(y, row)| decide_row(cells, rules, y, row));
}

/// Relies on rayon's `par_iter_mut().enumerate().for_each`: the closure runs once
/// for every row of `cells`, given that row and its index, and every run has
/// finished when the call returns.
#[verifier::external_body]
fn commit_rows_in_parallel(cells: &mut Vec<Vec<Cell>>, next: &Vec<Vec<bool>>)
    requires
        same_shape(grid_of(old(cells)@), flags_of(next@)),
    ensures
        final(cells)@.len() == old(cells)@.len(),
        forall|y: int|
            0 <= y < old(cells)@.len() ==> #[trigger] final(cells)@[y]@ == committed_row(
                old(cells)@[y]@,
                next@[y]@,
            ),
{
    cells.par_iter_mut().enumerate().for_each(|(y, row)| commit_row(row, next, y));
}

/// Advances `cells` by one generation under `rules`. Every decision is computed
/// from the grid as it stood before the call and kept in `next_cells`; only then
/// do the cells take on their new states. Counts in `rules` that no cell can have
/// (above eight) never match.
pub fn tick(cells: &mut Vec<Vec<Cell>>, next_cells: &mut Vec<Vec<bool>>, rules: &Rules)
    requires
        is_rectangular(grid_of(old(cells)@)),
    ensures
        grid_of(final(cells)@) == step(grid_of(old(cells)@), rules@),
        flags_of(final(next_cells)@) == decide(grid_of(old(cells)@), rules@),
        is_rectangular(grid_of(final(cells)@)),
        same_shape(grid_of(final(cells)@), flags_of(final(next_cells)@)),
{
    let ghost g = grid_of(cells@);
    let ghost rule = rules@;
    let h = cells.len();
    let mut next: Vec<Vec<bool>> = Vec::with_capacity(h);
    let mut i: usize = 0;
    while i < h
        invariant
            i <= h,
            next@.len() == i,
        decreases h - i,
    {
        next.push(Vec::new());
        i += 1;
    }
    decide_rows_in_parallel(cells, rules, &mut next);
    proof {
        assert forall|y: int| 0 <= y < g.len() implies flags_of(next@)[y] == decide(g, rule)[y] by {
            assert(next@[y]@ == decided_row(g, rule, y));
        }
        assert(flags_of(next@) =~= decide(g, rule));
        assert forall|y: int| 0 <= y < g.len() implies (#[trigger] g[y]).len() == flags_of(
            next@,
        )[y].len() by {
            assert(g[y] == cells@[y]@);
        }
    }
    *next_cells = next;
    commit_rows_in_parallel(cells, next_cells);
    proof {
        let g2 = grid_of(cells@);
        assert forall|y: int| 0 <= y < g.len() implies g2[y] == step(g, rule)[y] by {
            assert(g[y] == old(cells)@[y]@);
        }
        assert(g2 =~= step(g, rule));
        assert(g2[0].len() == g[0].len());
        assert forall|y: int| 0 <= y < g2.len() implies (#[trigger] g2[y]).len() == g2[0].len() by {
            assert(g2[y].len() == g[y].len());
        }
        assert forall|y: int| 0 <= y < g2.len() implies (#[trigger] g2[y]).len() == flags_of(
            next_cells@,
        )[y].len() by {
            assert(g2[y].len() == g[y].len());
        }
    }
}

/// Advances the grid by one generation under the selected rule (see `tick`).
pub fn update_cells(game_state: &mut GameState)
    requires
        is_rectangular(grid_of(old(game_state).cells@)),
    ensures
        final(game_state).wf(),
        grid_of(final(game_state).cells@) == step(
            grid_of(old(game_state).cells@),
            old(game_state).selected_rules.model(),
        ),
        flags_of(final(game_state).next_cells@) == decide(
            grid_of(old(game_state).cells@),
            old(game_state).selected_rules.model(),
        ),
        final(game_state).mode == old(game_state).mode,
        final(game_state).selected_pattern == old(game_state).selected_pattern,
        final(game_state).selected_rules == old(game_state).selected_rules,
{
    let rules = game_state.selected_rules.to_rules();
    tick(&mut game_state.cells, &mut game_state.next_cells, &rules);
}

/// A cell that has never been alive.
pub open spec fn fresh(c: Cell) -> bool {
    !c.is_alive && c.activation_count == 0
}

/// `v` limited to the range [lo, hi].
pub open spec fn clamp(v: int, lo: int, hi: int) -> int {
    if v < lo {
        lo
    } else if v > hi {
        hi
    } else {
        v
    }
}

/// Whether `cells` is a non-empty rectangle of rows.
pub fn is_rectangular_grid(cells: &Vec<Vec<Cell>>) -> (r: bool)
    ensures
        r == is_rectangular(grid_of(cells@)),
{
    let ghost g = grid_of(cells@);
    if cells.len() == 0 {
        return false;
    }
    let w = cells[0].len();
    proof {
        assert(g[0] == cells@[0]@);
    }
    if w == 0 {
        return false;
    }
    let mut y: usize = 0;
    while y < cells.len()
        invariant
            g == grid_of(cells@),
            g.len() > 0,
            w == g[0].len(),
            y <= g.len(),
            forall|j: int| 0 <= j < y ==> (#[trigger] g[j]).len() == w,
        decreases g.len() - y,
    {
        proof {
            assert(g[y as int] == cells@[y as int]@);
        }
        if cells[y].len() != w {
            return false;
        }
        y += 1;
    }
    true
}

/// A `width` x `height` grid of dead cells with no activations.
pub fn generate_empty_grid(width: usize, height: usize) -> (r: Vec<Vec<Cell>>)
    ensures
        r@.len() == height,
        forall|y: int| 0 <= y < height ==> (#[trigger] r@[y])@.len() == width,
        forall|y: int, x: int| 0 <= y < height && 0 <= x < width ==> fresh(#[trigger] r@[y]@[x]),
{
    let mut grid: Vec<Vec<Cell>> = Vec::with_capacity(height);
    let mut y: usize = 0;
    while y < height
        invariant
            y <= height,
            grid@.len() == y,
            forall|j: int| 0 <= j < y ==> (#[trigger] grid@[j])@.len() == width,
            forall|j: int, x: int| 0 <= j < y && 0 <= x < width ==> fresh(#[trigger] grid@[j]@[x]),
        decreases height - y,
    {
        let mut row: Vec<Cell> = Vec::with_capacity(width);
        let mut x: usize = 0;
        while x < width
            invariant
                x <= width,
                row@.len() == x,
                forall|i: int| 0 <= i < x ==> fresh(#[trigger] row@[i]),
            decreases width - x,
        {
            row.push(Cell { is_alive: false, activation_count: 0 });
            x += 1;
        }
        grid.push(row);
        y += 1;
    }
    grid
}

/// Relies on rand's `thread_rng` and `Rng::gen_ratio`: true with probability
/// `numerator / denominator`, always true when the two are equal, never when the
/// numerator is zero. `gen_ratio` panics when `denominator` is zero or below `numerator`.
#[verifier::external_body]
fn draw_ratio(numerator: u32, denominator: u32) -> (r: bool)
    requires
        0 < denominator,
        numerator <= denominator,
    ensures
        numerator == 0 ==> !r,
        numerator == denominator ==> r,
{
    rand::thread_rng().gen_ratio(numerator, denominator)
}

/// A `width` x `height` grid in which each cell is alive with probability
/// `numerator / denominator`, independently; no cell has an activation yet.
pub fn generate_random_grid(width: usize, height: usize, numerator: u32, denominator: u32) -> (r:
    Vec<Vec<Cell>>)
    requires
        0 < denominator,
        numerator <= denominator,
    ensures
        r@.len() == height,
        forall|y: int| 0 <= y < height ==> (#[trigger] r@[y])@.len() == width,
        forall|y: int, x: int|
            0 <= y < height && 0 <= x < width ==> (#[trigger] r@[y]@[x]).activation_count == 0,
        numerator == 0 ==> forall|y: int, x: int|
            0 <= y < height && 0 <= x < width ==> !(#[trigger] r@[y]@[x]).is_alive,
        numerator == denominator ==> forall|y: int, x: int|
            0 <= y < height && 0 <= x < width ==> (#[trigger] r@[y]@[x]).is_alive,
{
    let mut grid: Vec<Vec<Cell>> = Vec::with_capacity(height);
    let mut y: usize = 0;
    while y < height
        invariant
            0 < denominator,
            numerator <= denominator,
            y <= height,
            grid@.len() == y,
            forall|j: int| 0 <= j < y ==> (#[trigger] grid@[j])@.len() == width,
            forall|j: int, x: int|
                0 <= j < y && 0 <= x < width ==> (#[trigger] grid@[j]@[x]).activation_count == 0,
            numerator == 0 ==> forall|j: int, x: int|
                0 <= j < y && 0 <= x < width ==> !(#[trigger] grid@[j]@[x]).is_alive,
            numerator == denominator ==> forall|j: int, x: int|
                0 <= j < y && 0 <= x < width ==> (#[trigger] grid@[j]@[x]).is_alive,
        decreases height - y,
    {
        let mut row: Vec<Cell> = Vec::with_capacity(width);
        let mut x: usize = 0;
        while x < width
            invariant
                0 < denominator,
                numerator <= denominator,
                x <= width,
                row@.len() == x,
                forall|i: int| 0 <= i < x ==> (#[trigger] row@[i]).activation_count == 0,
                numerator == 0 ==> forall|i: int| 0 <= i < x ==> !(#[trigger] row@[i]).is_alive,
                numerator == denominator ==> forall|i: int|
                    0 <= i < x ==> (#[trigger] row@[i]).is_alive,
            decreases width - x,
        {
            let alive = draw_ratio(numerator, denominator);
            row.push(Cell { is_alive: alive, activation_count: 0 });
            x += 1;
        }
        grid.push(row);
        y += 1;
    }
    grid
}

impl GameState {
    /// A `width` x `height` simulation with every cell dead and never activated,
    /// and an all-dead scratch buffer.
    pub fn new(
        width: usize,
        height: usize,
        mode: Mode,
        selected_pattern: Pattern,
        selected_rules: RuleSet,
    ) -> (r: GameState)
        requires
            width > 0,
            height > 0,
        ensures
            r.wf(),
            height_of(grid_of(r.cells@)) == height,
            width_of(grid_of(r.cells@)) == width,
            forall|y: int, x: int|
                0 <= y < height && 0 <= x < width ==> fresh(#[trigger] grid_of(r.cells@)[y][x]),
            forall|y: int, x: int|
                0 <= y < height && 0 <= x < width ==> !(#[trigger] flags_of(r.next_cells@)[y][x]),
            r.mode == mode,
            r.selected_pattern == selected_pattern,
            r.selected_rules == selected_rules,
    {
        let cells = generate_empty_grid(width, height);
        let mut next_cells: Vec<Vec<bool>> = Vec::with_capacity(height);
        let mut y: usize = 0;
        while y < height
            invariant
                y <= height,
                next_cells@.len() == y,
                forall|j: int| 0 <= j < y ==> (#[trigger] next_cells@[j])@.len() == width,
                forall|j: int, x: int| 0 <= j < y && 0 <= x < width ==> !(#[trigger] next_cells@[j]@[x]),
            decreases height - y,
        {
            let mut row: Vec<bool> = Vec::with_capacity(width);
            let mut x: usize = 0;
            while x < width
                invariant
                    x <= width,
                    row@.len() == x,
                    forall|i: int| 0 <= i < x ==> !(#[trigger] row@[i]),
                decreases width - x,
            {
                row.push(false);
                x += 1;
            }
            next_cells.push(row);
            y += 1;
        }
        let r = GameState { cells, next_cells, mode, selected_pattern, selected_rules };
        proof {
            let g = grid_of(r.cells@);
            assert(g[0] == r.cells@[0]@);
            assert forall|j: int| 0 <= j < g.len() implies (#[trigger] g[j]).len() == g[0].len() by {
                assert(g[j] == r.cells@[j]@);
            }
            assert forall|j: int| 0 <= j < g.len() implies (#[trigger] g[j]).len() == flags_of(
                r.next_cells@,
            )[j].len() by {
                assert(g[j] == r.cells@[j]@);
            }
        }
        r
    }
}

/// Rows that keep their lengths keep the grid rectangular, and keep it shaped
/// like a buffer that was shaped like it.
proof fn lemma_same_row_lengths(before: Seq<Vec<Cell>>, after: Seq<Vec<Cell>>, next: Seq<Vec<bool>>)
    requires
        before.len() == after.len(),
        forall|y: int| 0 <= y < before.len() ==> (#[trigger] after[y])@.len() == before[y]@.len(),
    ensures
        is_rectangular(grid_of(before)) ==> is_rectangular(grid_of(after)),
        same_shape(grid_of(before), flags_of(next)) ==> same_shape(grid_of(after), flags_of(next)),
{
    let g = grid_of(before);
    let g2 = grid_of(after);
    assert forall|y: int| 0 <= y < g2.len() implies (#[trigger] g2[y]).len() == g[y].len() by {
        assert(g2[y] == after[y]@);
        assert(g[y] == before[y]@);
    }
}

/// Kills every cell; the activation counts and the grid's shape are kept.
pub fn kill_all_cells(game_state: &mut GameState)
    ensures
        final(game_state).cells@.len() == old(game_state).cells@.len(),
        forall|y: int|
            0 <= y < old(game_state).cells@.len() ==> (#[trigger] final(game_state).cells@[y])@.len()
                == old(game_state).cells@[y]@.len(),
        forall|y: int, x: int|
            0 <= y < old(game_state).cells@.len() && 0 <= x < old(game_state).cells@[y]@.len()
                ==> #[trigger] final(game_state).cells@[y]@[x] == (Cell {
                is_alive: false,
                activation_count: old(game_state).cells@[y]@[x].activation_count,
            }),
        final(game_state).next_cells == old(game_state).next_cells,
        final(game_state).mode == old(game_state).mode,
        final(game_state).selected_pattern == old(game_state).selected_pattern,
        final(game_state).selected_rules == old(game_state).selected_rules,
        is_rectangular(grid_of(old(game_state).cells@)) ==> is_rectangular(
            grid_of(final(game_state).cells@),
        ),
        old(game_state).wf() ==> final(game_state).wf(),
{
    let h = game_state.cells.len();
    let mut y: usize = 0;
    while y < h
        invariant
            h == old(game_state).cells@.len(),
            game_state.cells@.len() == h,
            y <= h,
            game_state.next_cells == old(game_state).next_cells,
            game_state.mode == old(game_state).mode,
            game_state.selected_pattern == old(game_state).selected_pattern,
            game_state.selected_rules == old(game_state).selected_rules,
            forall|j: int|
                0 <= j < h ==> (#[trigger] game_state.cells@[j])@.len()
                    == old(game_state).cells@[j]@.len(),
            forall|j: int, x: int|
                0 <= j < y && 0 <= x < old(game_state).cells@[j]@.len()
                    ==> #[trigger] game_state.cells@[j]@[x] == (Cell {
                    is_alive: false,
                    activation_count: old(game_state).cells@[j]@[x].activation_count,
                }),
            forall|j: int| y <= j < h ==> #[trigger] game_state.cells@[j] == old(game_state).cells@[j],
        decreases h - y,
    {
        let w = game_state.cells[y].len();
        let mut x: usize = 0;
        while x < w
            invariant
                h == old(game_state).cells@.len(),
                game_state.cells@.len() == h,
                y < h,
                w == old(game_state).cells@[y as int]@.len(),
                x <= w,
                game_state.next_cells == old(game_state).next_cells,
                game_state.mode == old(game_state).mode,
                game_state.selected_pattern == old(game_state).selected_pattern,
                game_state.selected_rules == old(game_state).selected_rules,
                forall|j: int|
                    0 <= j < h ==> (#[trigger] game_state.cells@[j])@.len()
                        == old(game_state).cells@[j]@.len(),
                forall|j: int, i: int|
                    0 <= j < y && 0 <= i < old(game_state).cells@[j]@.len()
                        ==> #[trigger] game_state.cells@[j]@[i] == (Cell {
                        is_alive: false,
                        activation_count: old(game_state).cells@[j]@[i].activation_count,
                    }),
                forall|i: int|
                    0 <= i < x ==> #[trigger] game_state.cells@[y as int]@[i] == (Cell {
                        is_alive: false,
                        activation_count: old(game_state).cells@[y as int]@[i].activation_count,
                    }),
                forall|i: int|
                    x <= i < w ==> #[trigger] game_state.cells@[y as int]@[i] == old(
                        game_state,
                    ).cells@[y as int]@[i],
                forall|j: int|
                    y < j < h ==> #[trigger] game_state.cells@[j] == old(game_state).cells@[j],
            decreases w - x,
        {
            game_state.cells[y][x].is_alive = false;
            x += 1;
        }
        y += 1;
    }
    proof {
        lemma_same_row_lengths(old(game_state).cells@, game_state.cells@, game_state.next_cells@);
    }
}

/// Stamps the selected pattern with its anchor at (grid_x, grid_y), each
/// coordinate first clamped into the grid.
pub fn trigger_selected_pattern(game_state: &mut GameState, grid_x: isize, grid_y: isize)
    requires
        is_rectangular(grid_of(old(game_state).cells@)),
    ensures
        ({
            let g = grid_of(old(game_state).cells@);
            let ax = clamp(grid_x as int, 0, width_of(g) - 1);
            let ay = clamp(grid_y as int, 0, height_of(g) - 1);
            let offs = old(game_state).selected_pattern.spec_offsets();
            &&& grid_of(final(game_state).cells@).len() == g.len()
            &&& forall|y: int|
                0 <= y < g.len() ==> (#[trigger] grid_of(final(game_state).cells@)[y]).len()
                    == g[y].len()
            &&& forall|y: int, x: int|
                0 <= y < g.len() && 0 <= x < g[y].len() ==> #[trigger] grid_of(
                    final(game_state).cells@,
                )[y][x] == stamped(g[y][x], covers(offs, ax, ay, x, y))
        }),
        final(game_state).next_cells == old(game_state).next_cells,
        final(game_state).mode == old(game_state).mode,
        final(game_state).selected_pattern == old(game_state).selected_pattern,
        final(game_state).selected_rules == old(game_state).selected_rules,
        is_rectangular(grid_of(final(game_state).cells@)),
        old(game_state).wf() ==> final(game_state).wf(),
{
    proof {
        assert(grid_of(game_state.cells@)[0] == game_state.cells@[0]@);
    }
    let max_x = game_state.cells[0].len();
    let max_y = game_state.cells.len();
    let x: usize = if grid_x < 0 {
        0
    } else if grid_x as usize > max_x - 1 {
        max_x - 1
    } else {
        grid_x as usize
    };
    let y: usize = if grid_y < 0 {
        0
    } else if grid_y as usize > max_y - 1 {
        max_y - 1
    } else {
        grid_y as usize
    };
    let selected_pattern = game_state.selected_pattern;
    selected_pattern.add_to_grid(game_state.cells.as_mut_slice(), x, y);
    proof {
        let g = grid_of(old(game_state).cells@);
        let g2 = grid_of(game_state.cells@);
        assert forall|j: int| 0 <= j < g.len() implies (#[trigger] g2[j]).len() == g[j].len() by {
            assert(g2[j] == game_state.cells@[j]@);
            assert(g[j] == old(game_state).cells@[j]@);
        }
        assert forall|j: int, i: int| 0 <= j < g.len() && 0 <= i < g[j].len() implies #[trigger] g2[j][i]
            == stamped(g[j][i], covers(selected_pattern.spec_offsets(), x as int, y as int, i, j)) by {
            assert(g2[j] == game_state.cells@[j]@);
            assert(g[j] == old(game_state).cells@[j]@);
        }
        lemma_same_row_lengths(old(game_state).cells@, game_state.cells@, game_state.next_cells@);
    }
}

/// Steps the selected pattern forward when `forward` holds, else back when
/// `backward` holds, else leaves it.
pub fn change_selected_pattern(game_state: &mut GameState, forward: bool, backward: bool)
    ensures
        final(game_state).selected_pattern == if forward {
            old(game_state).selected_pattern.spec_next()
        } else if backward {
            old(game_state).selected_pattern.spec_previous()
        } else {
            old(game_state).selected_pattern
        },
        final(game_state).cells == old(game_state).cells,
        final(game_state).next_cells == old(game_state).next_cells,
        final(game_state).mode == old(game_state).mode,
        final(game_state).selected_rules == old(game_state).selected_rules,
{
    if forward {
        game_state.selected_pattern = game_state.selected_pattern.next();
    } else if backward {
        game_state.selected_pattern = game_state.selected_pattern.previous();
    }
}

/// Steps the selected rule forward when `forward` holds, else back when
/// `backward` holds, else leaves it.
pub fn change_selected_rules(game_state: &mut GameState, forward: bool, backward: bool)
    ensures
        final(game_state).selected_rules == if forward {
            old(game_state).selected_rules.spec_next()
        } else if backward {
            old(game_state).selected_rules.spec_previous()
        } else {
            old(game_state).selected_rules
        },
        final(game_state).cells == old(game_state).cells,
        final(game_state).next_cells == old(game_state).next_cells,
        final(game_state).mode == old(game_state).mode,
        final(game_state).selected_pattern == old(game_state).selected_pattern,
{
    if forward {
        game_state.selected_rules = game_state.selected_rules.next();
    } else if backward {
        game_state.selected_rules = game_state.selected_rules.previous();
    }
}

} // verus!
