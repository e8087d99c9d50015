use game_of_life::config::Mode;
use game_of_life::patterns::Pattern;
use game_of_life::rules::{RuleSet, Rules};
use game_of_life::state::{Cell, GameState};
use game_of_life::systems::{
    change_selected_pattern, change_selected_rules, count_alive_neighbors, generate_empty_grid,
    generate_random_grid, is_rectangular_grid, kill_all_cells, tick, trigger_selected_pattern,
    update_cells,
};

fn state(width: usize, height: usize, rules: RuleSet) -> GameState {
    GameState::new(width, height, Mode::Color, Pattern::Glider, rules)
}

fn alive_set(s: &GameState) -> Vec<(usize, usize)> {
    let mut out = Vec::new();
    for (y, row) in s.cells.iter().enumerate() {
        for (x, c) in row.iter().enumerate() {
            if c.is_alive {
                out.push((x, y));
            }
        }
    }
    out
}

fn set_alive(s: &mut GameState, points: &[(usize, usize)]) {
    for &(x, y) in points {
        s.cells[y][x].is_alive = true;
    }
}

#[test]
fn blinker_oscillates_with_period_two() {
    let mut s = state(15, 15, RuleSet::Conway);
    set_alive(&mut s, &[(10, 10), (11, 10), (12, 10)]);
    update_cells(&mut s);
    assert_eq!(alive_set(&s), vec![(11, 9), (11, 10), (11, 11)]);
    update_cells(&mut s);
    assert_eq!(alive_set(&s), vec![(10, 10), (11, 10), (12, 10)]);
}

#[test]
fn block_is_a_still_life() {
    let mut s = state(8, 8, RuleSet::Conway);
    set_alive(&mut s, &[(3, 3), (4, 3), (3, 4), (4, 4)]);
    let before = s.cells.clone();
    for _ in 0..10 {
        update_cells(&mut s);
        assert_eq!(s.cells, before);
    }
}

#[test]
fn block_across_the_wrap_is_a_still_life() {
    let mut s = state(6, 6, RuleSet::Conway);
    set_alive(&mut s, &[(5, 5), (0, 5), (5, 0), (0, 0)]);
    let before = s.cells.clone();
    for _ in 0..4 {
        update_cells(&mut s);
        assert_eq!(s.cells, before);
    }
}

#[test]
fn seeds_kills_every_live_cell_and_births_on_two() {
    let mut s = state(10, 10, RuleSet::Seeds);
    // A 2x2 square: every live cell has three live neighbours.
    set_alive(&mut s, &[(4, 4), (5, 4), (4, 5), (5, 5)]);
    update_cells(&mut s);
    for &(x, y) in &[(4usize, 4usize), (5, 4), (4, 5), (5, 5)] {
        assert!(!s.cells[y][x].is_alive);
    }
    // Cells touching exactly two of the square are born, the diagonal ones are not.
    assert!(s.cells[3][4].is_alive);
    assert!(s.cells[3][5].is_alive);
    assert!(s.cells[6][4].is_alive);
    assert!(s.cells[4][3].is_alive);
    assert!(s.cells[5][6].is_alive);
    assert!(!s.cells[3][3].is_alive);
    assert!(!s.cells[6][6].is_alive);
    assert_eq!(alive_set(&s).len(), 8);
}

#[test]
fn seeds_lone_pair_dies_and_spawns() {
    let mut s = state(9, 9, RuleSet::Seeds);
    set_alive(&mut s, &[(4, 4), (5, 4)]);
    update_cells(&mut s);
    assert_eq!(alive_set(&s), vec![(4, 3), (5, 3), (4, 5), (5, 5)]);
}

#[test]
fn corner_counts_opposite_corner() {
    let mut s = state(7, 5, RuleSet::Conway);
    set_alive(&mut s, &[(6, 4)]);
    assert_eq!(count_alive_neighbors(&s.cells, 0, 0), 1);
    assert_eq!(count_alive_neighbors(&s.cells, 5, 3), 1);
    assert_eq!(count_alive_neighbors(&s.cells, 3, 2), 0);
    let mut t = state(7, 5, RuleSet::Conway);
    set_alive(&mut t, &[(0, 0)]);
    assert_eq!(count_alive_neighbors(&t.cells, 6, 4), 1);
    assert_eq!(count_alive_neighbors(&t.cells, 6, 0), 1);
    assert_eq!(count_alive_neighbors(&t.cells, 0, 4), 1);
}

#[test]
fn edges_wrap_to_opposite_edges() {
    let mut s = state(6, 6, RuleSet::Conway);
    set_alive(&mut s, &[(0, 3)]);
    assert_eq!(count_alive_neighbors(&s.cells, 5, 3), 1);
    assert_eq!(count_alive_neighbors(&s.cells, 5, 2), 1);
    assert_eq!(count_alive_neighbors(&s.cells, 5, 4), 1);
    let mut t = state(6, 6, RuleSet::Conway);
    set_alive(&mut t, &[(2, 5)]);
    assert_eq!(count_alive_neighbors(&t.cells, 2, 0), 1);
    assert_eq!(count_alive_neighbors(&t.cells, 1, 0), 1);
    assert_eq!(count_alive_neighbors(&t.cells, 3, 0), 1);
}

#[test]
fn full_neighbourhood_counts_eight() {
    let mut s = state(3, 3, RuleSet::Conway);
    for y in 0..3 {
        for x in 0..3 {
            s.cells[y][x].is_alive = true;
        }
    }
    assert_eq!(count_alive_neighbors(&s.cells, 1, 1), 8);
    assert_eq!(count_alive_neighbors(&s.cells, 0, 0), 8);
}

#[test]
fn tiny_grids_count_wrapped_neighbours_with_repeats() {
    let mut s = state(1, 1, RuleSet::Conway);
    s.cells[0][0].is_alive = true;
    assert_eq!(count_alive_neighbors(&s.cells, 0, 0), 8);
    let mut t = state(2, 1, RuleSet::Conway);
    t.cells[0][1].is_alive = true;
    assert_eq!(count_alive_neighbors(&t.cells, 0, 0), 6);
}

#[test]
fn ticks_are_deterministic() {
    let mut a = state(20, 20, RuleSet::Highlife);
    Pattern::GosperGliderGun.add_to_grid(&mut a.cells, 1, 1);
    Pattern::Acorn.add_to_grid(&mut a.cells, 10, 12);
    let mut b = state(20, 20, RuleSet::Highlife);
    b.cells = a.cells.clone();
    for _ in 0..15 {
        update_cells(&mut a);
        update_cells(&mut b);
        assert_eq!(a.cells, b.cells);
        assert_eq!(a.next_cells, b.next_cells);
    }
}

#[test]
fn next_cells_hold_the_decisions() {
    let mut s = state(15, 15, RuleSet::Conway);
    set_alive(&mut s, &[(10, 10), (11, 10), (12, 10)]);
    update_cells(&mut s);
    for y in 0..15 {
        for x in 0..15 {
            assert_eq!(s.next_cells[y][x], s.cells[y][x].is_alive);
        }
    }
    assert_eq!(s.next_cells.len(), 15);
    assert_eq!(s.next_cells[0].len(), 15);
}

#[test]
fn activation_counts_follow_births() {
    let mut s = state(15, 15, RuleSet::Conway);
    set_alive(&mut s, &[(10, 10), (11, 10), (12, 10)]);
    update_cells(&mut s);
    // Born cells count one activation, the survivor none, the dead ends none.
    assert_eq!(s.cells[9][11].activation_count, 1);
    assert_eq!(s.cells[11][11].activation_count, 1);
    assert_eq!(s.cells[10][11].activation_count, 0);
    assert_eq!(s.cells[10][10].activation_count, 0);
    update_cells(&mut s);
    assert_eq!(s.cells[10][10].activation_count, 1);
    assert_eq!(s.cells[10][12].activation_count, 1);
    assert_eq!(s.cells[9][11].activation_count, 1);
    for _ in 0..4 {
        update_cells(&mut s);
    }
    assert_eq!(s.cells[9][11].activation_count, 3);
    assert_eq!(s.cells[10][10].activation_count, 3);
    assert_eq!(s.cells[10][11].activation_count, 0);
}

#[test]
fn activation_counts_never_decrease() {
    let mut s = state(12, 12, RuleSet::DayAndNight);
    Pattern::Pulsar.add_to_grid(&mut s.cells, 0, 0);
    for _ in 0..10 {
        let before = s.cells.clone();
        update_cells(&mut s);
        for y in 0..12 {
            for x in 0..12 {
                let old = before[y][x];
                let new = s.cells[y][x];
                if !old.is_alive && new.is_alive {
                    assert_eq!(new.activation_count, old.activation_count + 1);
                } else {
                    assert_eq!(new.activation_count, old.activation_count);
                }
            }
        }
    }
}

#[test]
fn activation_count_wraps_at_the_top() {
    let mut s = state(5, 5, RuleSet::Conway);
    set_alive(&mut s, &[(1, 2), (2, 1), (3, 2)]);
    s.cells[2][2].activation_count = u32::MAX;
    update_cells(&mut s);
    assert!(s.cells[2][2].is_alive);
    assert_eq!(s.cells[2][2].activation_count, 0);
}

#[test]
fn tick_leaves_selections_alone() {
    let mut s = GameState::new(6, 6, Mode::Image, Pattern::Toad, RuleSet::Maze);
    update_cells(&mut s);
    assert_eq!(s.mode, Mode::Image);
    assert_eq!(s.selected_pattern, Pattern::Toad);
    assert_eq!(s.selected_rules, RuleSet::Maze);
}

#[test]
fn new_state_is_dead_and_fresh() {
    let s = GameState::new(4, 3, Mode::Color, Pattern::Single, RuleSet::Conway);
    assert_eq!(s.cells.len(), 3);
    assert_eq!(s.next_cells.len(), 3);
    for y in 0..3 {
        assert_eq!(s.cells[y].len(), 4);
        assert_eq!(s.next_cells[y], vec![false; 4]);
        for x in 0..4 {
            assert_eq!(s.cells[y][x], Cell { is_alive: false, activation_count: 0 });
        }
    }
}

#[test]
fn empty_grid_has_the_requested_shape() {
    let g = generate_empty_grid(5, 2);
    assert_eq!(g.len(), 2);
    assert!(g.iter().all(|r| r.len() == 5));
    assert!(g.iter().flatten().all(|c| !c.is_alive && c.activation_count == 0));
    assert!(generate_empty_grid(3, 0).is_empty());
}

#[test]
fn random_grid_with_certain_odds() {
    let all = generate_random_grid(6, 4, 1, 1);
    assert_eq!(all.len(), 4);
    assert!(all.iter().all(|r| r.len() == 6));
    assert!(all.iter().flatten().all(|c| c.is_alive && c.activation_count == 0));
    let none = generate_random_grid(6, 4, 0, 5);
    assert!(none.iter().flatten().all(|c| !c.is_alive && c.activation_count == 0));
    let some = generate_random_grid(50, 50, 1, 5);
    let alive = some.iter().flatten().filter(|c| c.is_alive).count();
    assert!(alive > 0 && alive < 2500);
}

#[test]
fn rectangular_grid_check() {
    assert!(is_rectangular_grid(&generate_empty_grid(3, 2)));
    assert!(!is_rectangular_grid(&generate_empty_grid(0, 2)));
    assert!(!is_rectangular_grid(&generate_empty_grid(3, 0)));
    let mut g = generate_empty_grid(3, 2);
    g[1].pop();
    assert!(!is_rectangular_grid(&g));
}

#[test]
fn kill_all_keeps_counts() {
    let mut s = state(15, 15, RuleSet::Conway);
    set_alive(&mut s, &[(10, 10), (11, 10), (12, 10)]);
    update_cells(&mut s);
    kill_all_cells(&mut s);
    assert!(alive_set(&s).is_empty());
    assert_eq!(s.cells[9][11].activation_count, 1);
    assert_eq!(s.cells.len(), 15);
}

#[test]
fn trigger_stamps_selected_pattern_at_clamped_anchor() {
    let mut s = GameState::new(10, 10, Mode::Color, Pattern::Block, RuleSet::Conway);
    trigger_selected_pattern(&mut s, -5, -7);
    assert_eq!(alive_set(&s), vec![(0, 0), (1, 0), (0, 1), (1, 1)]);
    let mut t = GameState::new(10, 10, Mode::Color, Pattern::Block, RuleSet::Conway);
    trigger_selected_pattern(&mut t, 40, 3);
    // Anchor clamps to x = 9; the second column falls off the grid.
    assert_eq!(alive_set(&t), vec![(9, 3), (9, 4)]);
    let mut u = GameState::new(10, 10, Mode::Color, Pattern::Glider, RuleSet::Conway);
    trigger_selected_pattern(&mut u, 4, 5);
    assert_eq!(alive_set(&u), vec![(6, 5), (4, 6), (6, 6), (5, 7), (6, 7)]);
}

#[test]
fn selection_changes_follow_the_flags() {
    let mut s = state(3, 3, RuleSet::Conway);
    change_selected_pattern(&mut s, true, false);
    assert_eq!(s.selected_pattern, Pattern::Blinker);
    change_selected_pattern(&mut s, false, true);
    change_selected_pattern(&mut s, false, true);
    assert_eq!(s.selected_pattern, Pattern::Single);
    change_selected_pattern(&mut s, true, true);
    assert_eq!(s.selected_pattern, Pattern::Glider);
    change_selected_pattern(&mut s, false, false);
    assert_eq!(s.selected_pattern, Pattern::Glider);
    change_selected_rules(&mut s, false, true);
    assert_eq!(s.selected_rules, RuleSet::Stains);
    change_selected_rules(&mut s, true, false);
    assert_eq!(s.selected_rules, RuleSet::Conway);
    change_selected_rules(&mut s, false, false);
    assert_eq!(s.selected_rules, RuleSet::Conway);
}

#[test]
fn custom_rule_counts_above_eight_never_match() {
    let mut a = state(15, 15, RuleSet::Conway);
    set_alive(&mut a, &[(10, 10), (11, 10), (12, 10), (3, 3), (4, 3), (3, 4)]);
    let mut b = state(15, 15, RuleSet::Conway);
    b.cells = a.cells.clone();
    let odd = Rules { survival_counts: vec![2, 9, 3, 100], birth_counts: vec![42, 3] };
    for _ in 0..5 {
        tick(&mut a.cells, &mut a.next_cells, &odd);
        update_cells(&mut b);
        assert_eq!(a.cells, b.cells);
    }
}

#[test]
fn empty_rule_kills_everything() {
    let mut s = state(6, 6, RuleSet::Conway);
    set_alive(&mut s, &[(1, 1), (2, 1), (1, 2), (2, 2), (4, 4)]);
    let none = Rules { survival_counts: vec![], birth_counts: vec![] };
    tick(&mut s.cells, &mut s.next_cells, &none);
    assert!(alive_set(&s).is_empty());
    assert!(s.next_cells.iter().flatten().all(|&b| !b));
    assert_eq!(s.cells[1][1].activation_count, 0);
}

#[test]
fn tick_fills_a_mismatched_buffer() {
    let mut cells = generate_empty_grid(4, 3);
    cells[1][1].is_alive = true;
    let mut next: Vec<Vec<bool>> = vec![vec![true; 9]];
    let birth_on_one = Rules { survival_counts: vec![], birth_counts: vec![1] };
    tick(&mut cells, &mut next, &birth_on_one);
    assert_eq!(next.len(), 3);
    assert!(next.iter().all(|r| r.len() == 4));
    // The eight neighbours of (1, 1) are born; (1, 1) dies; (3, y) has none.
    assert!(!cells[1][1].is_alive);
    assert!(cells[0][0].is_alive && cells[2][2].is_alive && cells[1][2].is_alive);
    assert!(!cells[0][3].is_alive);
    assert_eq!(cells[0][0].activation_count, 1);
}
