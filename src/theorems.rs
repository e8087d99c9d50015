use crate::rules::{RuleModel, RuleSet};
use crate::state::{flags_of, grid_of, height_of, is_rectangular, width_of, Cell, GameState};
use crate::systems::{
    alive_at, bump, decide, lemma_wrap_adjacent, neighbor_count, step, wrap,
};
use vstd::prelude::*;

verus! {

/// A generation depends on nothing but the grid and the selected rule: two
/// states that each satisfy the outcome of `update_cells` from the same state
/// hold the same cells and the same next-state buffer.
pub proof fn lemma_update_deterministic(before: GameState, a: GameState, b: GameState)
    requires
        is_rectangular(grid_of(before.cells@)),
        grid_of(a.cells@) == step(grid_of(before.cells@), before.selected_rules.model()),
        flags_of(a.next_cells@) == decide(grid_of(before.cells@), before.selected_rules.model()),
        grid_of(b.cells@) == step(grid_of(before.cells@), before.selected_rules.model()),
        flags_of(b.next_cells@) == decide(grid_of(before.cells@), before.selected_rules.model()),
    ensures
        grid_of(a.cells@) == grid_of(b.cells@),
        flags_of(a.next_cells@) == flags_of(b.next_cells@),
{
}

/// The grid closes into a torus: the neighbour just past any edge is the cell on
/// the opposite edge. In particular (0, 0) sees (width-1, height-1) as its
/// up-left neighbour, and (width-1, height-1) sees (0, 0) as its down-right one.
pub proof fn lemma_toroidal_wrap(g: Seq<Seq<Cell>>, x: int, y: int)
    requires
        is_rectangular(g),
        0 <= x < width_of(g),
        0 <= y < height_of(g),
    ensures
        alive_at(g, 0 - 1, 0 - 1) == g[height_of(g) - 1][width_of(g) - 1].is_alive,
        alive_at(g, width_of(g), height_of(g)) == g[0][0].is_alive,
        alive_at(g, 0 - 1, y) == g[y][width_of(g) - 1].is_alive,
        alive_at(g, width_of(g), y) == g[y][0].is_alive,
        alive_at(g, x, 0 - 1) == g[height_of(g) - 1][x].is_alive,
        alive_at(g, x, height_of(g)) == g[0][x].is_alive,
{
    let w = width_of(g);
    let h = height_of(g);
    lemma_wrap_adjacent(0, w);
    lemma_wrap_adjacent(0, h);
    lemma_wrap_adjacent(w - 1, w);
    lemma_wrap_adjacent(h - 1, h);
    lemma_wrap_adjacent(x, w);
    lemma_wrap_adjacent(y, h);
}

/// On a grid of at least 3x3 whose only live cell is one corner, the opposite
/// corner counts exactly one live neighbour: (0, 0) and (width-1, height-1)
/// are diagonal neighbours across the wrap.
pub proof fn lemma_opposite_corners_are_neighbors(g: Seq<Seq<Cell>>)
    requires
        is_rectangular(g),
        width_of(g) >= 3,
        height_of(g) >= 3,
    ensures
        (forall|y: int, x: int|
            0 <= y < height_of(g) && 0 <= x < width_of(g) ==> (#[trigger] g[y][x]).is_alive == (x
                == width_of(g) - 1 && y == height_of(g) - 1)) ==> neighbor_count(g, 0, 0) == 1,
        (forall|y: int, x: int|
            0 <= y < height_of(g) && 0 <= x < width_of(g) ==> (#[trigger] g[y][x]).is_alive == (x
                == 0 && y == 0)) ==> neighbor_count(g, width_of(g) - 1, height_of(g) - 1) == 1,
{
    let w = width_of(g);
    let h = height_of(g);
    lemma_wrap_adjacent(0, w);
    lemma_wrap_adjacent(0, h);
    lemma_wrap_adjacent(1, w);
    lemma_wrap_adjacent(1, h);
    lemma_wrap_adjacent(w - 1, w);
    lemma_wrap_adjacent(h - 1, h);
    lemma_wrap_adjacent(w - 2, w);
    lemma_wrap_adjacent(h - 2, h);
}

/// The alive cells of `g` are exactly the 2x2 square with top-left corner (bx, by).
pub open spec fn is_lone_block(g: Seq<Seq<Cell>>, bx: int, by: int) -> bool {
    forall|y: int, x: int|
        0 <= y < height_of(g) && 0 <= x < width_of(g) ==> (#[trigger] g[y][x]).is_alive == (bx
            <= x <= bx + 1 && by <= y <= by + 1)
}

/// The grid after `n` generations under `rule`.
pub open spec fn generations(g: Seq<Seq<Cell>>, rule: RuleModel, n: nat) -> Seq<Seq<Cell>>
    decreases n,
{
    if n == 0 {
        g
    } else {
        step(generations(g, rule, (n - 1) as nat), rule)
    }
}

proof fn lemma_block_neighbors(g: Seq<Seq<Cell>>, bx: int, by: int, x: int, y: int)
    requires
        is_rectangular(g),
        width_of(g) >= 4,
        height_of(g) >= 4,
        0 <= bx && bx + 1 < width_of(g),
        0 <= by && by + 1 < height_of(g),
        is_lone_block(g, bx, by),
        0 <= x < width_of(g),
        0 <= y < height_of(g),
    ensures
        (bx <= x <= bx + 1 && by <= y <= by + 1) ==> neighbor_count(g, x, y) == 3,
        !(bx <= x <= bx + 1 && by <= y <= by + 1) ==> neighbor_count(g, x, y) <= 2,
{
    let w = width_of(g);
    let h = height_of(g);
    lemma_wrap_adjacent(x, w);
    lemma_wrap_adjacent(y, h);
    let l = wrap(x - 1, w);
    let r = wrap(x + 1, w);
    let u = wrap(y - 1, h);
    let d = wrap(y + 1, h);
    assert(g[u].len() == w && g[y].len() == w && g[d].len() == w);
    let inx = |c: int| bx <= c <= bx + 1;
    let iny = |c: int| by <= c <= by + 1;
    assert(g[u][l].is_alive == (inx(l) && iny(u)));
    assert(g[u][x].is_alive == (inx(x) && iny(u)));
    assert(g[u][r].is_alive == (inx(r) && iny(u)));
    assert(g[y][l].is_alive == (inx(l) && iny(y)));
    assert(g[y][r].is_alive == (inx(r) && iny(y)));
    assert(g[d][l].is_alive == (inx(l) && iny(d)));
    assert(g[d][x].is_alive == (inx(x) && iny(d)));
    assert(g[d][r].is_alive == (inx(r) && iny(d)));
}

proof fn lemma_conway_counts(k: int)
    requires
        0 <= k <= 8,
    ensures
        RuleSet::Conway.model().survival.contains(k as usize) == (k == 2 || k == 3),
        RuleSet::Conway.model().birth.contains(k as usize) == (k == 3),
{
    let s = RuleSet::Conway.model().survival;
    let b = RuleSet::Conway.model().birth;
    if k == 2 {
        assert(s[0] == 2);
    }
    if k == 3 {
        assert(s[1] == 3);
        assert(b[0] == 3);
    }
}

/// Under Conway's rule a lone 2x2 block on a grid of at least 4x4 is a still
/// life: one generation leaves every cell exactly as it was, activation counts
/// included, and so does any number of generations.
pub proof fn lemma_block_still_life(g: Seq<Seq<Cell>>, bx: int, by: int, n: nat)
    requires
        is_rectangular(g),
        width_of(g) >= 4,
        height_of(g) >= 4,
        0 <= bx && bx + 1 < width_of(g),
        0 <= by && by + 1 < height_of(g),
        is_lone_block(g, bx, by),
    ensures
        step(g, RuleSet::Conway.model()) == g,
        generations(g, RuleSet::Conway.model(), n) == g,
    decreases n,
{
    let rule = RuleSet::Conway.model();
    let s = step(g, rule);
    assert forall|y: int| 0 <= y < g.len() implies #[trigger] s[y] == g[y] by {
        assert(g[y].len() == width_of(g));
        assert forall|x: int| 0 <= x < g[y].len() implies s[y][x] == g[y][x] by {
            lemma_block_neighbors(g, bx, by, x, y);
            let k = neighbor_count(g, x, y);
            lemma_conway_counts(k);
        }
        assert(s[y] =~= g[y]);
    }
    assert(s =~= g);
    if n > 0 {
        lemma_block_still_life(g, bx, by, (n - 1) as nat);
    }
}

/// Under Seeds (no survival count, birth on two) every live cell dies each
/// generation, whatever its neighbours, and a dead cell comes alive exactly when
/// it has two live neighbours.
pub proof fn lemma_seeds(g: Seq<Seq<Cell>>)
    requires
        is_rectangular(g),
    ensures
        forall|y: int, x: int|
            0 <= y < height_of(g) && 0 <= x < width_of(g) && g[y][x].is_alive ==> !(#[trigger] step(
                g,
                RuleSet::Seeds.model(),
            )[y][x]).is_alive,
        forall|y: int, x: int|
            0 <= y < height_of(g) && 0 <= x < width_of(g) && !g[y][x].is_alive ==> (#[trigger] step(
                g,
                RuleSet::Seeds.model(),
            )[y][x]).is_alive == (neighbor_count(g, x, y) == 2),
{
    let rule = RuleSet::Seeds.model();
    assert forall|y: int, x: int|
        0 <= y < height_of(g) && 0 <= x < width_of(g) implies (#[trigger] step(g, rule)[y][x]).is_alive
        == if g[y][x].is_alive {
        false
    } else {
        neighbor_count(g, x, y) == 2
    } by {
        assert(g[y].len() == width_of(g));
        let k = neighbor_count(g, x, y);
        if k == 2 {
            assert(rule.birth[0] == 2);
        }
    }
}

/// Over one generation each activation count moves by exactly one (wrapping past
/// `u32::MAX`) when its cell goes from dead to alive, and stays put otherwise.
pub proof fn lemma_activation_step(g: Seq<Seq<Cell>>, rule: RuleModel)
    requires
        is_rectangular(g),
    ensures
        forall|y: int, x: int|
            0 <= y < height_of(g) && 0 <= x < width_of(g) ==> (#[trigger] step(g, rule)[y][x]).activation_count
                == if !g[y][x].is_alive && step(g, rule)[y][x].is_alive {
                bump(g[y][x].activation_count)
            } else {
                g[y][x].activation_count
            },
{
    assert forall|y: int, x: int| 0 <= y < height_of(g) && 0 <= x < width_of(g) implies (#[trigger] step(
        g,
        rule,
    )[y][x]).activation_count == if !g[y][x].is_alive && step(g, rule)[y][x].is_alive {
        bump(g[y][x].activation_count)
    } else {
        g[y][x].activation_count
    } by {
        assert(g[y].len() == width_of(g));
    }
}

/// How many times the cell (x, y) goes from dead to alive over the first `n`
/// generations.
pub open spec fn activations(g: Seq<Seq<Cell>>, rule: RuleModel, n: nat, x: int, y: int) -> nat
    decreases n,
{
    if n == 0 {
        0
    } else {
        let before = generations(g, rule, (n - 1) as nat);
        activations(g, rule, (n - 1) as nat, x, y) + if !before[y][x].is_alive && step(
            before,
            rule,
        )[y][x].is_alive {
            1nat
        } else {
            0nat
        }
    }
}

/// A generation keeps the grid's shape.
pub proof fn lemma_step_shape(g: Seq<Seq<Cell>>, rule: RuleModel)
    requires
        is_rectangular(g),
    ensures
        is_rectangular(step(g, rule)),
        height_of(step(g, rule)) == height_of(g),
        width_of(step(g, rule)) == width_of(g),
{
    let s = step(g, rule);
    assert forall|y: int| 0 <= y < s.len() implies (#[trigger] s[y]).len() == s[0].len() by {
        assert(g[y].len() == g[0].len());
    }
}

/// Any number of generations keep the grid's shape.
pub proof fn lemma_generations_shape(g: Seq<Seq<Cell>>, rule: RuleModel, n: nat)
    requires
        is_rectangular(g),
    ensures
        is_rectangular(generations(g, rule, n)),
        height_of(generations(g, rule, n)) == height_of(g),
        width_of(generations(g, rule, n)) == width_of(g),
    decreases n,
{
    if n > 0 {
        lemma_generations_shape(g, rule, (n - 1) as nat);
        lemma_step_shape(generations(g, rule, (n - 1) as nat), rule);
    }
}

/// Over any sequence of generations a cell's activation count is its starting
/// count plus the number of its dead-to-alive transitions, modulo 2^32: it moves
/// by one on each such transition and never otherwise.
pub proof fn lemma_activation_history(g: Seq<Seq<Cell>>, rule: RuleModel, n: nat, x: int, y: int)
    requires
        is_rectangular(g),
        0 <= x < width_of(g),
        0 <= y < height_of(g),
    ensures
        generations(g, rule, n)[y][x].activation_count == (g[y][x].activation_count + activations(
            g,
            rule,
            n,
            x,
            y,
        )) % 0x1_0000_0000,
    decreases n,
{
    let m: int = 0x1_0000_0000;
    if n == 0 {
        vstd::arithmetic::div_mod::lemma_small_mod(g[y][x].activation_count as nat, m as nat);
    } else {
        let before = generations(g, rule, (n - 1) as nat);
        lemma_activation_history(g, rule, (n - 1) as nat, x, y);
        lemma_generations_shape(g, rule, (n - 1) as nat);
        lemma_activation_step(before, rule);
        let a = g[y][x].activation_count + activations(g, rule, (n - 1) as nat, x, y);
        let c = before[y][x].activation_count;
        assert(c == a % m);
        if !before[y][x].is_alive && step(before, rule)[y][x].is_alive {
            assert(bump(c) == (c + 1) % m) by {
                if c + 1 < m {
                    vstd::arithmetic::div_mod::lemma_small_mod((c + 1) as nat, m as nat);
                } else {
                    vstd::arithmetic::div_mod::lemma_mod_self_0(m);
                }
            }
            assert((a % m + 1) % m == (a + 1) % m) by {
                vstd::arithmetic::div_mod::lemma_add_mod_noop(a, 1, m);
                vstd::arithmetic::div_mod::lemma_small_mod(1, m as nat);
                vstd::arithmetic::div_mod::lemma_mod_twice(a, m);
            }
        }
    }
}

} // verus!
