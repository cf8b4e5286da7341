use game_of_life::{CellState, InitPolicy, World2D};

fn world_with(cells_x: u32, cells_y: u32, alive: &[(i32, i32)]) -> World2D {
    let mut world = World2D::new(cells_x, cells_y, InitPolicy::AllDead).unwrap();
    for &(x, y) in alive {
        world.set_cell(x, y, CellState::ALIVE);
    }
    world
}

fn alive_in(world: &World2D) -> Vec<(i32, i32)> {
    let mut found = Vec::new();
    let (width, height) = world.dimensions();
    for y in 0..height as i32 {
        for x in 0..width as i32 {
            if world.get_cell(x, y).unwrap().state == CellState::ALIVE {
                found.push((x, y));
            }
        }
    }
    found
}

#[test]
fn full_three_by_three_keeps_only_its_corners() {
    let mut world = World2D::all(3, CellState::ALIVE).unwrap();
    assert_eq!(world.generation(), 0);
    world.tick();
    assert_eq!(world.generation(), 1);
    assert_eq!(world.get_cell(1, 1).unwrap().state, CellState::DEAD);
    assert_eq!(world.get_cell(1, 0).unwrap().state, CellState::DEAD);
    assert_eq!(world.get_cell(0, 1).unwrap().state, CellState::DEAD);
    assert_eq!(world.get_cell(2, 1).unwrap().state, CellState::DEAD);
    assert_eq!(world.get_cell(1, 2).unwrap().state, CellState::DEAD);
    assert_eq!(alive_in(&world), vec![(0, 0), (2, 0), (0, 2), (2, 2)]);
}

#[test]
fn full_three_by_three_is_empty_after_two_ticks() {
    let mut world = World2D::all(3, CellState::ALIVE).unwrap();
    world.tick();
    world.tick();
    assert_eq!(world.generation(), 2);
    assert!(alive_in(&world).is_empty());
}

#[test]
fn full_wide_world_keeps_only_its_corners() {
    let mut world = World2D::new(5, 2, InitPolicy::AllAlive).unwrap();
    world.tick();
    assert_eq!(alive_in(&world), vec![(0, 0), (4, 0), (0, 1), (4, 1)]);
}

#[test]
fn block_is_a_still_life() {
    let block = [(1, 1), (2, 1), (1, 2), (2, 2)];
    let mut world = world_with(4, 4, &block);
    for &(x, y) in &block {
        assert_eq!(world.get_neighbours(x, y), 3);
    }
    world.tick();
    assert_eq!(alive_in(&world), block.to_vec());
    assert_eq!(world.generation(), 1);
    for _ in 0..5 {
        world.tick();
    }
    assert_eq!(alive_in(&world), block.to_vec());
    assert_eq!(world.generation(), 6);
}

#[test]
fn block_in_a_corner_is_a_still_life() {
    let block = [(4, 5), (5, 5), (4, 6), (5, 6)];
    let mut world = world_with(6, 7, &block);
    world.tick();
    assert_eq!(alive_in(&world), block.to_vec());
    let mut tight = World2D::all(2, CellState::ALIVE).unwrap();
    tight.tick();
    assert_eq!(alive_in(&tight), vec![(0, 0), (1, 0), (0, 1), (1, 1)]);
}

#[test]
fn no_dead_cell_next_to_a_block_has_three_neighbours() {
    let world = world_with(4, 4, &[(1, 1), (2, 1), (1, 2), (2, 2)]);
    for y in 0..4 {
        for x in 0..4 {
            if world.get_cell(x, y).unwrap().state == CellState::DEAD {
                assert_ne!(world.get_neighbours(x, y), 3);
            }
        }
    }
}

#[test]
fn blinker_turns_and_turns_back() {
    let across = vec![(1, 2), (2, 2), (3, 2)];
    let down = vec![(2, 1), (2, 2), (2, 3)];
    let mut world = world_with(5, 5, &across);
    world.tick();
    assert_eq!(alive_in(&world), down);
    assert_eq!(world.generation(), 1);
    world.tick();
    assert_eq!(alive_in(&world), across);
    assert_eq!(world.generation(), 2);
}

#[test]
fn blinker_in_the_smallest_world_that_holds_it() {
    let mut world = world_with(3, 3, &[(0, 1), (1, 1), (2, 1)]);
    world.tick();
    assert_eq!(alive_in(&world), vec![(1, 0), (1, 1), (1, 2)]);
    world.tick();
    assert_eq!(alive_in(&world), vec![(0, 1), (1, 1), (2, 1)]);
}

#[test]
fn blinker_cut_by_the_edge_dies_out() {
    let mut world = world_with(3, 1, &[(0, 0), (1, 0), (2, 0)]);
    world.tick();
    assert_eq!(alive_in(&world), vec![(1, 0)]);
    world.tick();
    assert!(alive_in(&world).is_empty());
}

#[test]
fn glider_moves_one_cell_diagonally_in_four_ticks() {
    let glider = [(1, 0), (2, 1), (0, 2), (1, 2), (2, 2)];
    let mut world = world_with(8, 8, &glider);
    for _ in 0..4 {
        world.tick();
    }
    let mut moved: Vec<(i32, i32)> = glider.iter().map(|&(x, y)| (x + 1, y + 1)).collect();
    moved.sort_by_key(|&(x, y)| (y, x));
    assert_eq!(alive_in(&world), moved);
    assert_eq!(world.generation(), 4);
}

#[test]
fn lonely_cell_dies() {
    let mut world = world_with(3, 3, &[(1, 1)]);
    world.tick();
    assert!(alive_in(&world).is_empty());
}

#[test]
fn dead_world_stays_dead_and_counts_generations() {
    let mut world = World2D::new(6, 4, InitPolicy::AllDead).unwrap();
    for expected in 1..=10 {
        world.tick();
        assert_eq!(world.generation(), expected);
        assert!(alive_in(&world).is_empty());
        assert_eq!(world.dimensions(), (6, 4));
    }
}

#[test]
fn tick_matches_the_rule_cell_by_cell() {
    let mut world = World2D::new(12, 9, InitPolicy::RandomUniform).unwrap();
    for _ in 0..3 {
        let mut expected = Vec::new();
        for y in 0..9 {
            for x in 0..12 {
                let state = world.get_cell(x, y).unwrap().state;
                if state.next(world.get_neighbours(x, y)) == CellState::ALIVE {
                    expected.push((x, y));
                }
            }
        }
        let generation = world.generation();
        world.tick();
        assert_eq!(alive_in(&world), expected);
        assert_eq!(world.generation(), generation + 1);
        assert_eq!(world.dimensions(), (12, 9));
    }
}

#[test]
fn tick_keeps_every_cell_at_its_position() {
    let mut world = World2D::new(5, 6, InitPolicy::RandomUniform).unwrap();
    world.tick();
    for (y, row) in world.cells().iter().enumerate() {
        for (x, cell) in row.iter().enumerate() {
            assert_eq!((cell.grid_x, cell.grid_y), (x as i32, y as i32));
        }
    }
}
