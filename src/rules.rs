use vstd::prelude::*;

verus! {

/// The neighbour counts under which a live cell survives and a dead cell is born.
pub struct Rules {
    pub survival_counts: Vec<usize>,
    pub birth_counts: Vec<usize>,
}

/// What a rule says, as mathematical sequences of neighbour counts.
pub struct RuleModel {
    pub survival: Seq<usize>,
    pub birth: Seq<usize>,
}

impl View for Rules {
    type V = RuleModel;

    open spec fn view(&self) -> RuleModel {
        RuleModel { survival: self.survival_counts@, birth: self.birth_counts@ }
    }
}

/// Number of rules in the catalog.
pub const RULE_COUNT: usize = 13;

/// The named rules of the catalog, in navigation order.
#[derive(Copy, Clone, PartialEq, Eq, Structural, PartialOrd, Ord, Debug)]
pub enum RuleSet {
    Conway,
    Highlife,
    DayAndNight,
    Seeds,
    LifeWithoutDeath,
    Maze,
    Anneal,
    Diamoeba,
    TwoByTwo,
    Morley,
    Replicator,
    Fredkin,
    Stains,
}

impl RuleSet {
    /// Position of the rule in the catalog.
    pub open spec fn index(self) -> nat {
        match self {
            RuleSet::Conway => 0,
            RuleSet::Highlife => 1,
            RuleSet::DayAndNight => 2,
            RuleSet::Seeds => 3,
            RuleSet::LifeWithoutDeath => 4,
            RuleSet::Maze => 5,
            RuleSet::Anneal => 6,
            RuleSet::Diamoeba => 7,
            RuleSet::TwoByTwo => 8,
            RuleSet::Morley => 9,
            RuleSet::Replicator => 10,
            RuleSet::Fredkin => 11,
            RuleSet::Stains => 12,
        }
    }

    /// The rule at a position of the catalog (the last one for positions past the end).
    pub open spec fn from_index(i: nat) -> RuleSet {
        if i == 0 {
            RuleSet::Conway
        } else if i == 1 {
            RuleSet::Highlife
        } else if i == 2 {
            RuleSet::DayAndNight
        } else if i == 3 {
            RuleSet::Seeds
        } else if i == 4 {
            RuleSet::LifeWithoutDeath
        } else if i == 5 {
            RuleSet::Maze
        } else if i == 6 {
            RuleSet::Anneal
        } else if i == 7 {
            RuleSet::Diamoeba
        } else if i == 8 {
            RuleSet::TwoByTwo
        } else if i == 9 {
            RuleSet::Morley
        } else if i == 10 {
            RuleSet::Replicator
        } else if i == 11 {
            RuleSet::Fredkin
        } else {
            RuleSet::Stains
        }
    }

    /// The rule after this one, wrapping from the last to the first.
    pub open spec fn spec_next(self) -> RuleSet {
        RuleSet::from_index((self.index() + 1) % (RULE_COUNT as nat))
    }

    /// The rule before this one, wrapping from the first to the last.
    pub open spec fn spec_previous(self) -> RuleSet {
        RuleSet::from_index((self.index() + (RULE_COUNT - 1) as nat) % (RULE_COUNT as nat))
    }

    /// The rule reached after `n` steps forward.
    pub open spec fn next_n(self, n: nat) -> RuleSet
        decreases n,
    {
        if n == 0 {
            self
        } else {
            self.next_n((n - 1) as nat).spec_next()
        }
    }

    /// The survival and birth counts of each named rule.
    pub open spec fn model(self) -> RuleModel {
        match self {
            RuleSet::Conway => RuleModel { survival: seq![2, 3], birth: seq![3] },
            RuleSet::Highlife => RuleModel { survival: seq![2, 3], birth: seq![3, 6] },
            RuleSet::DayAndNight => RuleModel {
                survival: seq![3, 4, 6, 7, 8],
                birth: seq![3, 6, 7, 8],
            },
            RuleSet::Seeds => RuleModel { survival: seq![], birth: seq![2] },
            RuleSet::LifeWithoutDeath => RuleModel {
                survival: seq![1, 2, 3, 4, 5, 6, 7, 8],
                birth: seq![3],
            },
            RuleSet::Maze => RuleModel { survival: seq![1, 2, 3, 4, 5], birth: seq![3] },
            RuleSet::Anneal => RuleModel {
                survival: seq![4, 6, 7, 8],
                birth: seq![3, 5, 6, 7, 8],
            },
            RuleSet::Diamoeba => RuleModel {
                survival: seq![5, 6, 7, 8],
                birth: seq![3, 5, 6, 7, 8],
            },
            RuleSet::TwoByTwo => RuleModel { survival: seq![1, 2, 5], birth: seq![3, 6] },
            RuleSet::Morley => RuleModel { survival: seq![2, 4, 5], birth: seq![3, 6, 8] },
            RuleSet::Replicator => RuleModel {
                survival: seq![1, 3, 5, 7],
                birth: seq![1, 3, 5, 7],
            },
            RuleSet::Fredkin => RuleModel {
                survival: seq![0, 2, 4, 6, 8],
                birth: seq![1, 3, 5, 7],
            },
            RuleSet::Stains => RuleModel {
                survival: seq![2, 3, 5, 6],
                birth: seq![3, 6, 7, 8],
            },
        }
    }

    /// The survival and birth counts of this rule.
    pub fn to_rules(self) -> (r: Rules)
        ensures
            r@ == self.model(),
    {
        match self {
            RuleSet::Conway => Rules::conway(),
            RuleSet::Highlife => Rules::highlife(),
            RuleSet::DayAndNight => Rules::day_and_night(),
            RuleSet::Seeds => Rules::seeds(),
            RuleSet::LifeWithoutDeath => Rules::life_without_death(),
            RuleSet::Maze => Rules::maze(),
            RuleSet::Anneal => Rules::anneal(),
            RuleSet::Diamoeba => Rules::diamoeba(),
            RuleSet::TwoByTwo => Rules::two_by_two(),
            RuleSet::Morley => Rules::morley(),
            RuleSet::Replicator => Rules::replicator(),
            RuleSet::Fredkin => Rules::fredkin(),
            RuleSet::Stains => Rules::stains(),
        }
    }

    /// The next rule of the catalog; the last wraps to the first.
    pub fn next(&self) -> (r: RuleSet)
        ensures
            r == self.spec_next(),
    {
        match self {
            RuleSet::Conway => RuleSet::Highlife,
            RuleSet::Highlife => RuleSet::DayAndNight,
            RuleSet::DayAndNight => RuleSet::Seeds,
            RuleSet::Seeds => RuleSet::LifeWithoutDeath,
            RuleSet::LifeWithoutDeath => RuleSet::Maze,
            RuleSet::Maze => RuleSet::Anneal,
            RuleSet::Anneal => RuleSet::Diamoeba,
            RuleSet::Diamoeba => RuleSet::TwoByTwo,
            RuleSet::TwoByTwo => RuleSet::Morley,
            RuleSet::Morley => RuleSet::Replicator,
            RuleSet::Replicator => RuleSet::Fredkin,
            RuleSet::Fredkin => RuleSet::Stains,
            RuleSet::Stains => RuleSet::Conway,
        }
    }

    /// The previous rule of the catalog; the first wraps to the last.
    pub fn previous(&self) -> (r: RuleSet)
        ensures
            r == self.spec_previous(),
    {
        match self {
            RuleSet::Conway => RuleSet::Stains,
            RuleSet::Highlife => RuleSet::Conway,
            RuleSet::DayAndNight => RuleSet::Highlife,
            RuleSet::Seeds => RuleSet::DayAndNight,
            RuleSet::LifeWithoutDeath => RuleSet::Seeds,
            RuleSet::Maze => RuleSet::LifeWithoutDeath,
            RuleSet::Anneal => RuleSet::Maze,
            RuleSet::Diamoeba => RuleSet::Anneal,
            RuleSet::TwoByTwo => RuleSet::Diamoeba,
            RuleSet::Morley => RuleSet::TwoByTwo,
            RuleSet::Replicator => RuleSet::Morley,
            RuleSet::Fredkin => RuleSet::Replicator,
            RuleSet::Stains => RuleSet::Fredkin,
        }
    }
}

impl Rules {
    /// Conway's Life: B3/S23.
    pub fn conway() -> (r: Self)
        ensures
            r@ == RuleSet::Conway.model(),
    {
        let r = Self { survival_counts: vec![2, 3], birth_counts: vec![3] };
        assert(r.survival_counts@ =~= seq![2usize, 3]);
        assert(r.birth_counts@ =~= seq![3usize]);
        r
    }

    /// HighLife: B36/S23.
    pub fn highlife() -> (r: Self)
        ensures
            r@ == RuleSet::Highlife.model(),
    {
        let r = Self { survival_counts: vec![2, 3], birth_counts: vec![3, 6] };
        assert(r.survival_counts@ =~= seq![2usize, 3]);
        assert(r.birth_counts@ =~= seq![3usize, 6]);
        r
    }

    /// Day & Night: B3678/S34678.
    pub fn day_and_night() -> (r: Self)
        ensures
            r@ == RuleSet::DayAndNight.model(),
    {
        let r = Self { survival_counts: vec![3, 4, 6, 7, 8], birth_counts: vec![3, 6, 7, 8] };
        assert(r.survival_counts@ =~= seq![3usize, 4, 6, 7, 8]);
        assert(r.birth_counts@ =~= seq![3usize, 6, 7, 8]);
        r
    }

    /// Seeds: B2/S (no cell survives).
    pub fn seeds() -> (r: Self)
        ensures
            r@ == RuleSet::Seeds.model(),
    {
        let r = Self { survival_counts: Vec::new(), birth_counts: vec![2] };
        assert(r.survival_counts@ =~= seq![]);
        assert(r.birth_counts@ =~= seq![2usize]);
        r
    }

    /// Life without Death: B3/S12345678.
    pub fn life_without_death() -> (r: Self)
        ensures
            r@ == RuleSet::LifeWithoutDeath.model(),
    {
        let r = Self { survival_counts: vec![1, 2, 3, 4, 5, 6, 7, 8], birth_counts: vec![3] };
        assert(r.survival_counts@ =~= seq![1usize, 2, 3, 4, 5, 6, 7, 8]);
        assert(r.birth_counts@ =~= seq![3usize]);
        r
    }

    /// Maze: B3/S12345.
    pub fn maze() -> (r: Self)
        ensures
            r@ == RuleSet::Maze.model(),
    {
        let r = Self { survival_counts: vec![1, 2, 3, 4, 5], birth_counts: vec![3] };
        assert(r.survival_counts@ =~= seq![1usize, 2, 3, 4, 5]);
        assert(r.birth_counts@ =~= seq![3usize]);
        r
    }

    /// Anneal: B35678/S4678.
    pub fn anneal() -> (r: Self)
        ensures
            r@ == RuleSet::Anneal.model(),
    {
        let r = Self { survival_counts: vec![4, 6, 7, 8], birth_counts: vec![3, 5, 6, 7, 8] };
        assert(r.survival_counts@ =~= seq![4usize, 6, 7, 8]);
        assert(r.birth_counts@ =~= seq![3usize, 5, 6, 7, 8]);
        r
    }

    /// Diamoeba: B35678/S5678.
    pub fn diamoeba() -> (r: Self)
        ensures
            r@ == RuleSet::Diamoeba.model(),
    {
        let r = Self { survival_counts: vec![5, 6, 7, 8], birth_counts: vec![3, 5, 6, 7, 8] };
        assert(r.survival_counts@ =~= seq![5usize, 6, 7, 8]);
        assert(r.birth_counts@ =~= seq![3usize, 5, 6, 7, 8]);
        r
    }

    /// 2x2: B36/S125.
    pub fn two_by_two() -> (r: Self)
        ensures
            r@ == RuleSet::TwoByTwo.model(),
    {
        let r = Self { survival_counts: vec![1, 2, 5], birth_counts: vec![3, 6] };
        assert(r.survival_counts@ =~= seq![1usize, 2, 5]);
        assert(r.birth_counts@ =~= seq![3usize, 6]);
        r
    }

    /// Morley: B368/S245.
    pub fn morley() -> (r: Self)
        ensures
            r@ == RuleSet::Morley.model(),
    {
        let r = Self { survival_counts: vec![2, 4, 5], birth_counts: vec![3, 6, 8] };
        assert(r.survival_counts@ =~= seq![2usize, 4, 5]);
        assert(r.birth_counts@ =~= seq![3usize, 6, 8]);
        r
    }

    /// Replicator: B1357/S1357.
    pub fn replicator() -> (r: Self)
        ensures
            r@ == RuleSet::Replicator.model(),
    {
        let r = Self { survival_counts: vec![1, 3, 5, 7], birth_counts: vec![1, 3, 5, 7] };
        assert(r.survival_counts@ =~= seq![1usize, 3, 5, 7]);
        assert(r.birth_counts@ =~= seq![1usize, 3, 5, 7]);
        r
    }

    /// Fredkin: B1357/S02468.
    pub fn fredkin() -> (r: Self)
        ensures
            r@ == RuleSet::Fredkin.model(),
    {
        let r = Self { survival_counts: vec![0, 2, 4, 6, 8], birth_counts: vec![1, 3, 5, 7] };
        assert(r.survival_counts@ =~= seq![0usize, 2, 4, 6, 8]);
        assert(r.birth_counts@ =~= seq![1usize, 3, 5, 7]);
        r
    }

    /// Stains: B3678/S235.
    pub fn stains() -> (r: Self)
        ensures
            r@ == RuleSet::Stains.model(),
    {
        let r = Self { survival_counts: vec![2, 3, 5, 6], birth_counts: vec![3, 6, 7, 8] };
        assert(r.survival_counts@ =~= seq![2usize, 3, 5, 6]);
        assert(r.birth_counts@ =~= seq![3usize, 6, 7, 8]);
        r
    }
}

/// Every rule sits at its own position of the catalog.
pub proof fn lemma_rule_index_round_trip(id: RuleSet)
    ensures
        id.index() < RULE_COUNT,
        RuleSet::from_index(id.index()) == id,
{
}

/// Steps forward move the catalog position by one each, modulo the catalog size.
pub proof fn lemma_rule_next_n_index(id: RuleSet, n: nat)
    ensures
        id.next_n(n).index() == (id.index() + n) % (RULE_COUNT as nat),
    decreases n,
{
    if n > 0 {
        lemma_rule_next_n_index(id, (n - 1) as nat);
        let p = id.next_n((n - 1) as nat);
        assert(p.spec_next().index() == (p.index() + 1) % 13);
        assert(((id.index() + (n - 1)) % 13 + 1) % 13 == (id.index() + n) % 13) by {
            vstd::arithmetic::div_mod::lemma_add_mod_noop(id.index() + (n - 1), 1, 13);
            vstd::arithmetic::div_mod::lemma_small_mod(1, 13);
        }
    }
}

/// Cyclic navigation: stepping forward once per rule of the catalog comes back
/// to the starting rule, and a step back undoes a step forward (and the reverse).
pub proof fn lemma_rule_cycle(id: RuleSet)
    ensures
        id.next_n(RULE_COUNT as nat) == id,
        id.spec_next().spec_previous() == id,
        id.spec_previous().spec_next() == id,
{
    lemma_rule_next_n_index(id, RULE_COUNT as nat);
    vstd::arithmetic::div_mod::lemma_mod_add_multiples_vanish(id.index() as int, 13);
    vstd::arithmetic::div_mod::lemma_small_mod(id.index(), 13);
    lemma_rule_index_round_trip(id);
    lemma_rule_index_round_trip(id.next_n(RULE_COUNT as nat));
}

} // verus!
