use game_of_life::args::DisplayMode;
use game_of_life::config::Mode;
use game_of_life::patterns::{Pattern, PATTERN_COUNT};
use game_of_life::rules::{RuleSet, Rules, RULE_COUNT};
use game_of_life::state::Cell;
use game_of_life::systems::generate_empty_grid;

const ALL_RULES: [RuleSet; 13] = [
    RuleSet::Conway,
    RuleSet::Highlife,
    RuleSet::DayAndNight,
    RuleSet::Seeds,
    RuleSet::LifeWithoutDeath,
    RuleSet::Maze,
    RuleSet::Anneal,
    RuleSet::Diamoeba,
    RuleSet::TwoByTwo,
    RuleSet::Morley,
    RuleSet::Replicator,
    RuleSet::Fredkin,
    RuleSet::Stains,
];

const ALL_PATTERNS: [Pattern; 19] = [
    Pattern::Single,
    Pattern::Glider,
    Pattern::Blinker,
    Pattern::Toad,
    Pattern::Beacon,
    Pattern::Pulsar,
    Pattern::Block,
    Pattern::LightweightSpaceship,
    Pattern::MiddleweightSpaceship,
    Pattern::HeavyweightSpaceship,
    Pattern::PentaDecathlon,
    Pattern::Clock,
    Pattern::Beehive,
    Pattern::Loaf,
    Pattern::Boat,
    Pattern::Tub,
    Pattern::GosperGliderGun,
    Pattern::Diehard,
    Pattern::Acorn,
];

#[test]
fn rule_catalog_cycles() {
    assert_eq!(RULE_COUNT, ALL_RULES.len());
    for (i, &id) in ALL_RULES.iter().enumerate() {
        assert_eq!(id.next(), ALL_RULES[(i + 1) % RULE_COUNT]);
        assert_eq!(id.next().previous(), id);
        assert_eq!(id.previous().next(), id);
        let mut r = id;
        for _ in 0..RULE_COUNT {
            r = r.next();
        }
        assert_eq!(r, id);
    }
    assert_eq!(RuleSet::Stains.next(), RuleSet::Conway);
    assert_eq!(RuleSet::Conway.previous(), RuleSet::Stains);
}

#[test]
fn pattern_catalog_cycles() {
    assert_eq!(PATTERN_COUNT, ALL_PATTERNS.len());
    for (i, &id) in ALL_PATTERNS.iter().enumerate() {
        assert_eq!(id.next(), ALL_PATTERNS[(i + 1) % PATTERN_COUNT]);
        assert_eq!(id.next().previous(), id);
        assert_eq!(id.previous().next(), id);
        let mut p = id;
        for _ in 0..PATTERN_COUNT {
            p = p.next();
        }
        assert_eq!(p, id);
    }
    assert_eq!(Pattern::Acorn.next(), Pattern::Single);
    assert_eq!(Pattern::Single.previous(), Pattern::Acorn);
}

#[test]
fn rule_tables() {
    let c = RuleSet::Conway.to_rules();
    assert_eq!(c.survival_counts, vec![2, 3]);
    assert_eq!(c.birth_counts, vec![3]);
    let s = RuleSet::Seeds.to_rules();
    assert!(s.survival_counts.is_empty());
    assert_eq!(s.birth_counts, vec![2]);
    let f = RuleSet::Fredkin.to_rules();
    assert_eq!(f.survival_counts, vec![0, 2, 4, 6, 8]);
    assert_eq!(f.birth_counts, vec![1, 3, 5, 7]);
    let d = Rules::day_and_night();
    assert_eq!(d.survival_counts, vec![3, 4, 6, 7, 8]);
    assert_eq!(d.birth_counts, vec![3, 6, 7, 8]);
    let l = RuleSet::LifeWithoutDeath.to_rules();
    assert_eq!(l.survival_counts, vec![1, 2, 3, 4, 5, 6, 7, 8]);
    for id in ALL_RULES {
        let r = id.to_rules();
        assert!(r.survival_counts.iter().all(|&k| k <= 8));
        assert!(r.birth_counts.iter().all(|&k| k <= 8));
    }
}

#[test]
fn pattern_tables() {
    assert_eq!(Pattern::Single.offsets(), vec![(0, 0)]);
    assert_eq!(Pattern::Glider.offsets(), vec![(0, 1), (1, 2), (2, 0), (2, 1), (2, 2)]);
    assert_eq!(Pattern::Pulsar.offsets().len(), 48);
    assert_eq!(Pattern::GosperGliderGun.offsets().len(), 36);
    assert_eq!(Pattern::HeavyweightSpaceship.offsets().len(), 10);
    assert_eq!(Pattern::Acorn.offsets(), vec![(1, 0), (3, 1), (0, 2), (1, 2), (4, 2), (5, 2), (6, 2)]);
}

#[test]
fn stamp_inside_the_grid() {
    let mut cells = generate_empty_grid(10, 10);
    cells[0][0].activation_count = 4;
    Pattern::Blinker.add_to_grid(&mut cells, 3, 4);
    let alive: Vec<(usize, usize)> = (0..10)
        .flat_map(|y| (0..10).map(move |x| (x, y)))
        .filter(|&(x, y)| cells[y][x].is_alive)
        .collect();
    assert_eq!(alive, vec![(3, 5), (4, 5), (5, 5)]);
    assert_eq!(cells[0][0].activation_count, 4);
}

#[test]
fn stamp_clips_at_the_edge() {
    let mut cells = generate_empty_grid(20, 12);
    cells[0][0].is_alive = true;
    cells[0][0].activation_count = 7;
    Pattern::GosperGliderGun.add_to_grid(&mut cells, 10, 5);
    assert_eq!(cells.len(), 12);
    assert!(cells.iter().all(|r| r.len() == 20));
    // Previously alive cells stay alive and keep their counts.
    assert_eq!(cells[0][0], Cell { is_alive: true, activation_count: 7 });
    let mut expected = vec![vec![false; 20]; 12];
    expected[0][0] = true;
    for (dx, dy) in Pattern::GosperGliderGun.offsets() {
        if 10 + dx < 20 && 5 + dy < 12 {
            expected[5 + dy][10 + dx] = true;
        }
    }
    for y in 0..12 {
        for x in 0..20 {
            assert_eq!(cells[y][x].is_alive, expected[y][x]);
        }
    }
    assert!(cells[9][10].is_alive);
    assert!(!cells[11][19].is_alive);
    assert_eq!(cells.iter().flatten().filter(|c| c.is_alive).count(), 5);
}

#[test]
fn stamp_with_anchor_outside_does_nothing() {
    let mut cells = generate_empty_grid(5, 5);
    Pattern::Pulsar.add_to_grid(&mut cells, 5, 0);
    Pattern::Pulsar.add_to_grid(&mut cells, 0, 9);
    Pattern::Block.add_to_grid(&mut cells, usize::MAX, usize::MAX);
    assert!(cells.iter().flatten().all(|c| !c.is_alive));
}

#[test]
fn display_mode_converts() {
    assert_eq!(Mode::from(DisplayMode::Color), Mode::Color);
    assert_eq!(Mode::from(DisplayMode::Image), Mode::Image);
}
