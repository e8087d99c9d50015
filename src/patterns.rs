use crate::state::Cell;
use vstd::prelude::*;

verus! {

/// Number of patterns in the catalog.
pub const PATTERN_COUNT: usize = 19;

/// The named seed shapes of the catalog, in navigation order.
#[derive(Clone, Copy, PartialEq, Eq, Structural, Debug)]
pub enum Pattern {
    Single,
    Glider,
    Blinker,
    Toad,
    Beacon,
    Pulsar,
    Block,
    LightweightSpaceship,
    MiddleweightSpaceship,
    HeavyweightSpaceship,
    PentaDecathlon,
    Clock,
    Beehive,
    Loaf,
    Boat,
    Tub,
    GosperGliderGun,
    Diehard,
    Acorn,
}

/// Whether some offset of `offsets`, added to the anchor (ax, ay), lands on (cx, cy).
pub open spec fn covers(offsets: Seq<(usize, usize)>, ax: int, ay: int, cx: int, cy: int) -> bool {
    exists|i: int|
        0 <= i < offsets.len() && ax + (#[trigger] offsets[i]).0 == cx && ay + offsets[i].1 == cy
}

/// The cell after a stamp that reaches it (`hit`) or not: a reached cell is alive,
/// and its activation count is kept either way.
pub open spec fn stamped(c: Cell, hit: bool) -> Cell {
    if hit {
        Cell { is_alive: true, activation_count: c.activation_count }
    } else {
        c
    }
}

impl Pattern {
    /// Position of the pattern in the catalog.
    pub open spec fn index(self) -> nat {
        match self {
            Pattern::Single => 0,
            Pattern::Glider => 1,
            Pattern::Blinker => 2,
            Pattern::Toad => 3,
            Pattern::Beacon => 4,
            Pattern::Pulsar => 5,
            Pattern::Block => 6,
            Pattern::LightweightSpaceship => 7,
            Pattern::MiddleweightSpaceship => 8,
            Pattern::HeavyweightSpaceship => 9,
            Pattern::PentaDecathlon => 10,
            Pattern::Clock => 11,
            Pattern::Beehive => 12,
            Pattern::Loaf => 13,
            Pattern::Boat => 14,
            Pattern::Tub => 15,
            Pattern::GosperGliderGun => 16,
            Pattern::Diehard => 17,
            Pattern::Acorn => 18,
        }
    }

    /// The pattern at a position of the catalog (the last one for positions past the end).
    pub open spec fn from_index(i: nat) -> Pattern {
        if i == 0 {
            Pattern::Single
        } else if i == 1 {
            Pattern::Glider
        } else if i == 2 {
            Pattern::Blinker
        } else if i == 3 {
            Pattern::Toad
        } else if i == 4 {
            Pattern::Beacon
        } else if i == 5 {
            Pattern::Pulsar
        } else if i == 6 {
            Pattern::Block
        } else if i == 7 {
            Pattern::LightweightSpaceship
        } else if i == 8 {
            Pattern::MiddleweightSpaceship
        } else if i == 9 {
            Pattern::HeavyweightSpaceship
        } else if i == 10 {
            Pattern::PentaDecathlon
        } else if i == 11 {
            Pattern::Clock
        } else if i == 12 {
            Pattern::Beehive
        } else if i == 13 {
            Pattern::Loaf
        } else if i == 14 {
            Pattern::Boat
        } else if i == 15 {
            Pattern::Tub
        } else if i == 16 {
            Pattern::GosperGliderGun
        } else if i == 17 {
            Pattern::Diehard
        } else {
            Pattern::Acorn
        }
    }

    /// The pattern after this one, wrapping from the last to the first.
    pub open spec fn spec_next(self) -> Pattern {
        Pattern::from_index((self.index() + 1) % (PATTERN_COUNT as nat))
    }

    /// The pattern before this one, wrapping from the first to the last.
    pub open spec fn spec_previous(self) -> Pattern {
        Pattern::from_index((self.index() + (PATTERN_COUNT - 1) as nat) % (PATTERN_COUNT as nat))
    }

    /// The pattern reached after `n` steps forward.
    pub open spec fn next_n(self, n: nat) -> Pattern
        decreases n,
    {
        if n == 0 {
            self
        } else {
            self.next_n((n - 1) as nat).spec_next()
        }
    }

    /// The (dx, dy) offsets of the live cells of each shape, relative to its anchor.
    pub open spec fn spec_offsets(self) -> Seq<(usize, usize)> {
        match self {
            Pattern::Single => seq![(0usize, 0usize)],
            Pattern::Glider => seq![(0usize, 1usize), (1, 2), (2, 0), (2, 1), (2, 2)],
            Pattern::Blinker => seq![(0usize, 1usize), (1, 1), (2, 1)],
            Pattern::Toad => seq![(1usize, 0usize), (2, 0), (3, 0), (0, 1), (1, 1), (2, 1)],
            Pattern::Beacon => seq![
                (0usize, 0usize), (1, 0), (0, 1), (1, 1), (2, 2), (3, 2), (2, 3),
                (3, 3)
            ],
            Pattern::Pulsar => seq![
                (2usize, 0usize), (3, 0), (4, 0), (8, 0), (9, 0), (10, 0), (0, 2),
                (5, 2), (7, 2), (12, 2), (0, 3), (5, 3), (7, 3), (12, 3), (0, 4),
                (5, 4), (7, 4), (12, 4), (2, 5), (3, 5), (4, 5), (8, 5), (9, 5),
                (10, 5), (2, 7), (3, 7), (4, 7), (8, 7), (9, 7), (10, 7), (0, 8),
                (5, 8), (7, 8), (12, 8), (0, 9), (5, 9), (7, 9), (12, 9), (0, 10),
                (5, 10), (7, 10), (12, 10), (2, 12), (3, 12), (4, 12), (8, 12),
                (9, 12), (10, 12)
            ],
            Pattern::Block => seq![(0usize, 0usize), (1, 0), (0, 1), (1, 1)],
            Pattern::LightweightSpaceship => seq![
                (0usize, 1usize), (3, 1), (4, 2), (0, 3), (4, 3), (1, 4), (2, 4),
                (3, 4)
            ],
            Pattern::MiddleweightSpaceship => seq![
                (0usize, 1usize), (4, 1), (5, 2), (0, 3), (5, 3), (1, 4), (2, 4),
                (3, 4), (4, 4)
            ],
            Pattern::HeavyweightSpaceship => seq![
                (0usize, 1usize), (5, 1), (6, 2), (0, 3), (6, 3), (1, 4), (2, 4),
                (3, 4), (4, 4), (5, 4)
            ],
            Pattern::PentaDecathlon => seq![
                (1usize, 0usize), (1, 1), (1, 2), (1, 3), (1, 5), (1, 6), (1, 7),
                (1, 8), (0, 4), (2, 4)
            ],
            Pattern::Clock => seq![
                (1usize, 0usize), (2, 0), (0, 1), (3, 1), (0, 2), (3, 2), (1, 3),
                (2, 3)
            ],
            Pattern::Beehive => seq![(1usize, 0usize), (2, 0), (0, 1), (3, 1), (1, 2), (2, 2)],
            Pattern::Loaf => seq![(1usize, 0usize), (2, 0), (0, 1), (3, 1), (1, 2), (3, 2), (2, 3)],
            Pattern::Boat => seq![(0usize, 0usize), (1, 0), (2, 1), (0, 1), (1, 2)],
            Pattern::Tub => seq![(1usize, 0usize), (0, 1), (2, 1), (1, 2)],
            Pattern::GosperGliderGun => seq![
                (0usize, 4usize), (1, 4), (0, 5), (1, 5), (10, 4), (10, 5), (10, 6),
                (11, 3), (11, 7), (12, 2), (12, 8), (13, 2), (13, 8), (14, 5), (15, 3),
                (15, 7), (16, 4), (16, 5), (16, 6), (17, 5), (20, 2), (20, 3), (20, 4),
                (21, 2), (21, 3), (21, 4), (22, 1), (22, 5), (24, 0), (24, 1), (24, 5),
                (24, 6), (34, 2), (34, 3), (35, 2), (35, 3)
            ],
            Pattern::Diehard => seq![(0usize, 1usize), (1, 1), (1, 2), (5, 2), (6, 2), (7, 2), (6, 0)],
            Pattern::Acorn => seq![(1usize, 0usize), (3, 1), (0, 2), (1, 2), (4, 2), (5, 2), (6, 2)],
        }
    }

    /// The (dx, dy) offsets of the live cells of this shape, relative to its anchor.
    pub fn offsets(&self) -> (r: Vec<(usize, usize)>)
        ensures
            r@ == self.spec_offsets(),
    {
        let r = match self {
            Pattern::Single => vec![(0, 0)],
            Pattern::Glider => vec![(0, 1), (1, 2), (2, 0), (2, 1), (2, 2)],
            Pattern::Blinker => vec![(0, 1), (1, 1), (2, 1)],
            Pattern::Toad => vec![(1, 0), (2, 0), (3, 0), (0, 1), (1, 1), (2, 1)],
            Pattern::Beacon => vec![(0, 0), (1, 0), (0, 1), (1, 1), (2, 2), (3, 2), (2, 3), (3, 3)],
            Pattern::Pulsar => vec![
                (2, 0), (3, 0), (4, 0), (8, 0), (9, 0), (10, 0), (0, 2), (5, 2),
                (7, 2), (12, 2), (0, 3), (5, 3), (7, 3), (12, 3), (0, 4), (5, 4),
                (7, 4), (12, 4), (2, 5), (3, 5), (4, 5), (8, 5), (9, 5), (10, 5),
                (2, 7), (3, 7), (4, 7), (8, 7), (9, 7), (10, 7), (0, 8), (5, 8),
                (7, 8), (12, 8), (0, 9), (5, 9), (7, 9), (12, 9), (0, 10), (5, 10),
                (7, 10), (12, 10), (2, 12), (3, 12), (4, 12), (8, 12), (9, 12),
                (10, 12)
            ],
            Pattern::Block => vec![(0, 0), (1, 0), (0, 1), (1, 1)],
            Pattern::LightweightSpaceship => vec![(0, 1), (3, 1), (4, 2), (0, 3), (4, 3), (1, 4), (2, 4), (3, 4)],
            Pattern::MiddleweightSpaceship => vec![(0, 1), (4, 1), (5, 2), (0, 3), (5, 3), (1, 4), (2, 4), (3, 4), (4, 4)],
            Pattern::HeavyweightSpaceship => vec![
                (0, 1), (5, 1), (6, 2), (0, 3), (6, 3), (1, 4), (2, 4), (3, 4), (4, 4),
                (5, 4)
            ],
            Pattern::PentaDecathlon => vec![
                (1, 0), (1, 1), (1, 2), (1, 3), (1, 5), (1, 6), (1, 7), (1, 8), (0, 4),
                (2, 4)
            ],
            Pattern::Clock => vec![(1, 0), (2, 0), (0, 1), (3, 1), (0, 2), (3, 2), (1, 3), (2, 3)],
            Pattern::Beehive => vec![(1, 0), (2, 0), (0, 1), (3, 1), (1, 2), (2, 2)],
            Pattern::Loaf => vec![(1, 0), (2, 0), (0, 1), (3, 1), (1, 2), (3, 2), (2, 3)],
            Pattern::Boat => vec![(0, 0), (1, 0), (2, 1), (0, 1), (1, 2)],
            Pattern::Tub => vec![(1, 0), (0, 1), (2, 1), (1, 2)],
            Pattern::GosperGliderGun => vec![
                (0, 4), (1, 4), (0, 5), (1, 5), (10, 4), (10, 5), (10, 6), (11, 3),
                (11, 7), (12, 2), (12, 8), (13, 2), (13, 8), (14, 5), (15, 3), (15, 7),
                (16, 4), (16, 5), (16, 6), (17, 5), (20, 2), (20, 3), (20, 4), (21, 2),
                (21, 3), (21, 4), (22, 1), (22, 5), (24, 0), (24, 1), (24, 5), (24, 6),
                (34, 2), (34, 3), (35, 2), (35, 3)
            ],
            Pattern::Diehard => vec![(0, 1), (1, 1), (1, 2), (5, 2), (6, 2), (7, 2), (6, 0)],
            Pattern::Acorn => vec![(1, 0), (3, 1), (0, 2), (1, 2), (4, 2), (5, 2), (6, 2)],
        };
        assert(r@ =~= self.spec_offsets());
        r
    }

    /// Stamps the shape with its anchor at (x, y): every offset that lands inside
    /// the grid makes that cell alive; offsets that fall outside are skipped. No
    /// cell is killed, no activation count changes, and the grid keeps its shape.
    pub fn add_to_grid(&self, cells: &mut [Vec<Cell>], x: usize, y: usize)
        ensures
            final(cells)@.len() == old(cells)@.len(),
            forall|cy: int|
                0 <= cy < old(cells)@.len() ==> (#[trigger] final(cells)@[cy])@.len()
                    == old(cells)@[cy]@.len(),
            forall|cy: int, cx: int|
                0 <= cy < old(cells)@.len() && 0 <= cx < old(cells)@[cy]@.len()
                    ==> #[trigger] final(cells)@[cy]@[cx] == stamped(
                    old(cells)@[cy]@[cx],
                    covers(self.spec_offsets(), x as int, y as int, cx, cy),
                ),
    {
        let offsets = self.offsets();
        let ghost offs = self.spec_offsets();
        let mut i: usize = 0;
        while i < offsets.len()
            invariant
                offsets@ == offs,
                i <= offs.len(),
                cells@.len() == old(cells)@.len(),
                forall|cy: int|
                    0 <= cy < old(cells)@.len() ==> (#[trigger] cells@[cy])@.len()
                        == old(cells)@[cy]@.len(),
                forall|cy: int, cx: int|
                    0 <= cy < old(cells)@.len() && 0 <= cx < old(cells)@[cy]@.len()
                        ==> #[trigger] cells@[cy]@[cx] == stamped(
                        old(cells)@[cy]@[cx],
                        covers(offs.take(i as int), x as int, y as int, cx, cy),
                    ),
            decreases offs.len() - i,
        {
            let (dx, dy) = offsets[i];
            let h = cells.len();
            if dy < h && y < h - dy {
                let ny = y + dy;
                let w = cells[ny].len();
                if dx < w && x < w - dx {
                    let nx = x + dx;
                    cells[ny][nx].is_alive = true;
                }
            }
            proof {
                assert forall|cy: int, cx: int|
                    0 <= cy < old(cells)@.len() && 0 <= cx < old(cells)@[cy]@.len() implies
                    #[trigger] cells@[cy]@[cx] == stamped(
                        old(cells)@[cy]@[cx],
                        covers(offs.take(i + 1), x as int, y as int, cx, cy),
                    ) by {
                    let hit_before = covers(offs.take(i as int), x as int, y as int, cx, cy);
                    let hit_now = covers(offs.take(i + 1), x as int, y as int, cx, cy);
                    if hit_before {
                        let j = choose|j: int|
                            0 <= j < offs.take(i as int).len() && x + (#[trigger] offs.take(
                                i as int,
                            )[j]).0 == cx && y + offs.take(i as int)[j].1 == cy;
                        assert(offs.take(i + 1)[j] == offs.take(i as int)[j]);
                    }
                    if x + dx == cx && y + dy == cy {
                        assert(offs.take(i + 1)[i as int] == (dx, dy));
                    }
                    if hit_now && !hit_before {
                        let j = choose|j: int|
                            0 <= j < offs.take(i + 1).len() && x + (#[trigger] offs.take(
                                i + 1,
                            )[j]).0 == cx && y + offs.take(i + 1)[j].1 == cy;
                        if j < i {
                            assert(offs.take(i as int)[j] == offs.take(i + 1)[j]);
                        }
                    }
                }
            }
            i += 1;
        }
        assert(offs.take(offs.len() as int) =~= offs);
    }

    /// The next pattern of the catalog; the last wraps to the first.
    pub fn next(&self) -> (r: Pattern)
        ensures
            r == self.spec_next(),
    {
        match self {
            Pattern::Single => Pattern::Glider,
            Pattern::Glider => Pattern::Blinker,
            Pattern::Blinker => Pattern::Toad,
            Pattern::Toad => Pattern::Beacon,
            Pattern::Beacon => Pattern::Pulsar,
            Pattern::Pulsar => Pattern::Block,
            Pattern::Block => Pattern::LightweightSpaceship,
            Pattern::LightweightSpaceship => Pattern::MiddleweightSpaceship,
            Pattern::MiddleweightSpaceship => Pattern::HeavyweightSpaceship,
            Pattern::HeavyweightSpaceship => Pattern::PentaDecathlon,
            Pattern::PentaDecathlon => Pattern::Clock,
            Pattern::Clock => Pattern::Beehive,
            Pattern::Beehive => Pattern::Loaf,
            Pattern::Loaf => Pattern::Boat,
            Pattern::Boat => Pattern::Tub,
            Pattern::Tub => Pattern::GosperGliderGun,
            Pattern::GosperGliderGun => Pattern::Diehard,
            Pattern::Diehard => Pattern::Acorn,
            Pattern::Acorn => Pattern::Single,
        }
    }

    /// The previous pattern of the catalog; the first wraps to the last.
    pub fn previous(&self) -> (r: Pattern)
        ensures
            r == self.spec_previous(),
    {
        match self {
            Pattern::Single => Pattern::Acorn,
            Pattern::Glider => Pattern::Single,
            Pattern::Blinker => Pattern::Glider,
            Pattern::Toad => Pattern::Blinker,
            Pattern::Beacon => Pattern::Toad,
            Pattern::Pulsar => Pattern::Beacon,
            Pattern::Block => Pattern::Pulsar,
            Pattern::LightweightSpaceship => Pattern::Block,
            Pattern::MiddleweightSpaceship => Pattern::LightweightSpaceship,
            Pattern::HeavyweightSpaceship => Pattern::MiddleweightSpaceship,
            Pattern::PentaDecathlon => Pattern::HeavyweightSpaceship,
            Pattern::Clock => Pattern::PentaDecathlon,
            Pattern::Beehive => Pattern::Clock,
            Pattern::Loaf => Pattern::Beehive,
            Pattern::Boat => Pattern::Loaf,
            Pattern::Tub => Pattern::Boat,
            Pattern::GosperGliderGun => Pattern::Tub,
            Pattern::Diehard => Pattern::GosperGliderGun,
            Pattern::Acorn => Pattern::Diehard,
        }
    }
}

/// Every pattern sits at its own position of the catalog.
pub proof fn lemma_pattern_index_round_trip(id: Pattern)
    ensures
        id.index() < PATTERN_COUNT,
        Pattern::from_index(id.index()) == id,
{
}

/// Steps forward move the catalog position by one each, modulo the catalog size.
pub proof fn lemma_pattern_next_n_index(id: Pattern, n: nat)
    ensures
        id.next_n(n).index() == (id.index() + n) % (PATTERN_COUNT as nat),
    decreases n,
{
    if n > 0 {
        lemma_pattern_next_n_index(id, (n - 1) as nat);
        let p = id.next_n((n - 1) as nat);
        assert(p.spec_next().index() == (p.index() + 1) % 19);
        assert(((id.index() + (n - 1)) % 19 + 1) % 19 == (id.index() + n) % 19) by {
            vstd::arithmetic::div_mod::lemma_add_mod_noop(id.index() + (n - 1), 1, 19);
            vstd::arithmetic::div_mod::lemma_small_mod(1, 19);
        }
    }
}

/// Cyclic navigation: stepping forward once per pattern of the catalog comes back
/// to the starting pattern, and a step back undoes a step forward (and the reverse).
pub proof fn lemma_pattern_cycle(id: Pattern)
    ensures
        id.next_n(PATTERN_COUNT as nat) == id,
        id.spec_next().spec_previous() == id,
        id.spec_previous().spec_next() == id,
{
    lemma_pattern_next_n_index(id, PATTERN_COUNT as nat);
    vstd::arithmetic::div_mod::lemma_mod_add_multiples_vanish(id.index() as int, 19);
    vstd::arithmetic::div_mod::lemma_small_mod(id.index(), 19);
    lemma_pattern_index_round_trip(id);
    lemma_pattern_index_round_trip(id.next_n(PATTERN_COUNT as nat));
}

} // verus!
