use invaders::{is_a_hit, Alien, AlienType, Missile, Universe};

#[test]
fn eleventh_missile_is_dropped() {
    let mut u = Universe::new(200, 200);
    for _ in 0..11 {
        u.fire_missile();
    }
    assert_eq!(u.missiles.len(), 10);
}

#[test]
fn missile_cap_holds_under_any_fire_sequence() {
    let mut u = Universe::new(200, 200);
    u.add_aliens();
    for t in 0..100 {
        u.fire_missile();
        u.fire_missile();
        if t % 3 == 0 {
            u.tick();
        }
        assert!(u.missiles.len() <= 10);
    }
}

#[test]
fn fire_missile_spawns_at_cannon() {
    let mut u = Universe::new(100, 100);
    u.fire_missile();
    assert_eq!(u.missiles.len(), 1);
    assert_eq!(u.missiles[0].x, 55);
    assert_eq!(u.missiles[0].y, 92);
    assert!(!u.missiles[0].remove);
}

#[test]
fn missile_in_alien_box_is_a_hit() {
    let alien = Alien::new(10, 10, 100, AlienType::A);
    let missile = Missile { x: 12, y: 12, remove: false };
    assert!(is_a_hit(&alien, &missile));
    // outside the box, or against a dead alien, there is no hit
    let far = Missile { x: 40, y: 12, remove: false };
    assert!(!is_a_hit(&alien, &far));
    let mut dead = alien;
    dead.alive = false;
    assert!(!is_a_hit(&dead, &missile));
}

#[test]
fn score_never_decreases() {
    let mut u = Universe::new(200, 200);
    u.add_aliens();
    u.fire_missile();
    let mut last = u.get_player_score();
    for _ in 0..300 {
        u.tick();
        let s = u.get_player_score();
        assert!(s >= last);
        last = s;
    }
}

#[test]
fn hit_credits_score_and_removes_alien() {
    let mut u = Universe::new(200, 200);
    u.add_aliens();
    u.fire_missile();
    let mut hit_seen = false;
    for _ in 0..120 {
        u.tick();
        if u.get_player_score() > 0 {
            hit_seen = true;
            break;
        }
    }
    assert!(hit_seen);
    // the missile flew into the bottom row, whose aliens are worth 6
    assert_eq!(u.get_player_score(), 6);
    // the dead alien shows its explosion frame, then leaves the collection on
    // the next formation step; no alien ever stays flagged across a tick
    let mut shrunk = false;
    for _ in 0..40 {
        u.tick();
        assert!(u.aliens.iter().all(|a| !a.remove));
        if u.aliens.len() == 54 {
            shrunk = true;
            break;
        }
    }
    assert!(shrunk);
    assert_eq!(u.get_player_score(), 6);
}

#[test]
fn final_life_hit_stops_the_game() {
    // a narrow arena keeps the player under the bomb lanes of the first column
    let mut u = Universe::new(8, 100);
    u.add_aliens();
    let mut saw_zero_lives_running = false;
    let mut stopped = false;
    for _ in 0..500 {
        u.tick();
        if !u.get_is_running() {
            // the game stops on the hit taken at zero lives, not before
            assert_eq!(u.get_player_lives(), 0);
            stopped = true;
            break;
        }
        if u.get_player_lives() == 0 {
            saw_zero_lives_running = true;
        }
    }
    assert!(saw_zero_lives_running);
    assert!(stopped);
}
