use invaders::{AlienDirection, AlienType, Cell, PlayerDirection, Sprite, Universe};

#[test]
fn new_world_state() {
    let u = Universe::new(64, 32);
    assert!(u.get_is_running());
    assert_eq!(u.get_player_score(), 0);
    assert_eq!(u.get_player_lives(), 3);
    assert_eq!(u.cells().len(), 64 * 32);
    assert!(u.cells().iter().all(|c| *c == Cell::Empty));
    assert_eq!(u.player.x, 32);
    assert_eq!(u.player.y, 24);
    assert_eq!(u.player.direction, PlayerDirection::Not);
    assert_eq!(u.aliens.len(), 0);
    assert_eq!(u.missiles.len(), 0);
    assert_eq!(u.bombs.len(), 0);
}

#[test]
fn cell_decoding() {
    assert_eq!(Cell::from_u8(0), Cell::Empty);
    assert_eq!(Cell::from_u8(1), Cell::Filled);
    assert_eq!(Cell::from_u8(2), Cell::Index);
}

#[test]
fn grid_length_is_constant() {
    let mut u = Universe::new(50, 60);
    u.add_aliens();
    assert_eq!(u.cells().len(), 3000);
    for _ in 0..150 {
        u.tick();
        assert_eq!(u.cells().len(), 3000);
    }
}

#[test]
fn formation_spawn_counts_types_and_values() {
    let mut u = Universe::new(200, 200);
    u.add_aliens();
    assert_eq!(u.aliens.len(), 55);
    let kinds = [AlienType::A, AlienType::B, AlienType::B, AlienType::C, AlienType::C];
    let values = [100u32, 50, 25, 12, 6];
    for row in 0..5usize {
        for col in 0..11usize {
            let a = &u.aliens[row * 11 + col];
            assert_eq!(a.alien_type, kinds[row]);
            assert_eq!(a.value, values[row]);
            assert_eq!(a.x, (col as u32) * 20 + 4);
            assert_eq!(a.y, (row as u32) * 13 + 2);
            assert!(a.alive);
            assert!(!a.remove);
        }
    }
}

#[test]
fn heading_alternates_on_wraps() {
    let mut u = Universe::new(200, 200);
    u.add_aliens();
    assert_eq!(u.animation_info.alien_direction, AlienDirection::Right);
    for _ in 0..101 {
        u.tick();
    }
    assert_eq!(u.animation_info.alien_direction, AlienDirection::Left);
    for _ in 0..101 {
        u.tick();
    }
    assert_eq!(u.animation_info.alien_direction, AlienDirection::Right);
}

#[test]
fn empty_formation_stops_the_game() {
    let mut u = Universe::new(20, 20);
    assert!(u.get_is_running());
    let cells_before: Vec<Cell> = u.cells().clone();
    u.tick();
    assert!(!u.get_is_running());
    assert_eq!(u.get_player_lives(), 3);
    assert_eq!(u.get_player_score(), 0);
    assert_eq!(u.animation_info.game_counter, 0);
    assert_eq!(u.missiles.len(), 0);
    assert_eq!(u.bombs.len(), 0);
    assert_eq!(u.cells().len(), cells_before.len());
    assert!(u.cells().iter().zip(cells_before.iter()).all(|(a, b)| a == b));
}

#[test]
fn player_movement_clamps_at_edges() {
    let mut u = Universe::new(40, 40);
    u.add_aliens();
    u.handle_player_movement(PlayerDirection::Right);
    for _ in 0..40 {
        u.tick();
    }
    assert_eq!(u.player.x, 30);
    u.handle_player_movement(PlayerDirection::Left);
    for _ in 0..40 {
        u.tick();
    }
    assert_eq!(u.player.x, 2);
}

#[test]
fn rasterizer_stamps_mask() {
    let mut grid = vec![Cell::Empty; 25];
    let sprite = Sprite::new(2, 2, vec![1, 0, 0, 1]);
    invaders::sprite::draw_sprite(1, 1, &sprite, &mut grid, 5);
    assert_eq!(grid[6], Cell::Filled);
    assert_eq!(grid[7], Cell::Empty);
    assert_eq!(grid[11], Cell::Empty);
    assert_eq!(grid[12], Cell::Filled);
    assert_eq!(grid[0], Cell::Empty);
}

#[test]
fn rasterizer_index_helper() {
    assert_eq!(invaders::sprite::get_index(3, 2, 10), 23);
    assert_eq!(invaders::sprite::get_index(0, 0, 10), 0);
}

#[test]
fn sprite_clipped_at_arena_edge() {
    // an 11-wide player at x = 4 in an 8-wide arena: only grid columns 4..8 are
    // drawn, and nothing wraps around to the start of the next row
    let mut u = Universe::new(8, 100);
    u.add_aliens();
    u.tick();
    let cells = u.cells();
    for cx in 4..8u32 {
        assert_eq!(cells[(96 * 8 + cx) as usize], Cell::Filled);
    }
    for cx in 0..4u32 {
        assert_eq!(cells[(96 * 8 + cx) as usize], Cell::Empty);
    }
}

#[test]
fn bombs_drop_every_fortieth_tick() {
    let mut u = Universe::new(200, 200);
    u.add_aliens();
    u.tick(); // frame counter 0: first drop
    assert_eq!(u.bombs.len(), 1);
    for _ in 0..39 {
        u.tick();
    }
    assert_eq!(u.bombs.len(), 1);
    u.tick(); // frame counter 40
    assert_eq!(u.bombs.len(), 2);
}

#[test]
fn formation_steps_every_twentieth_tick() {
    let mut u = Universe::new(200, 200);
    u.add_aliens();
    assert_eq!(u.aliens[0].x, 4);
    assert!(!u.aliens[0].animation);
    u.tick(); // frame counter 0: a stepping tick, heading Right
    assert_eq!(u.aliens[0].x, 9);
    assert!(u.aliens[0].animation);
    for _ in 0..19 {
        u.tick();
    }
    assert_eq!(u.aliens[0].x, 9);
    u.tick(); // frame counter 20
    assert_eq!(u.aliens[0].x, 14);
    assert!(!u.aliens[0].animation);
}
