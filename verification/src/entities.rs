use vstd::prelude::*;

verus! {

/// The three visual/behaviour kinds of alien, one per formation row band.
#[derive(Clone, Copy, Debug, PartialEq, Eq, Structural)]
pub enum AlienType {
    A,
    B,
    C,
}

/// The player's movement intent, set by the host and applied on the next tick.
#[derive(Clone, Copy, Debug, PartialEq, Eq, Structural)]
pub enum PlayerDirection {
    Left,
    Right,
    Not,
}

/// The shared heading of the alien formation.  `Down` is a per-alien step target
/// only; the wrap transition never selects it.
#[derive(Clone, Copy, Debug, PartialEq, Eq, Structural)]
pub enum AlienDirection {
    Right,
    Down,
    Left,
}

/// One alien of the formation.
#[derive(Clone, Copy, Debug, PartialEq, Eq, Structural)]
pub struct Alien {
    pub x: u32,
    pub y: u32,
    pub value: u32,
    pub animation: bool,
    pub alive: bool,
    pub remove: bool,
    pub alien_type: AlienType,
    pub animation_counter: u8,
}

impl Alien {
    /// A freshly spawned alien: alive, unflagged, at walk phase zero.
    pub fn new(x: u32, y: u32, value: u32, alien_type: AlienType) -> (a: Alien)
        ensures
            a == (Alien {
                x,
                y,
                value,
                alien_type,
                animation: false,
                alive: true,
                remove: false,
                animation_counter: 0,
            }),
    {
        Alien { x, y, value, alien_type, animation: false, alive: true, remove: false, animation_counter: 0 }
    }
}

/// The player: position, life state, death-animation counter, heading, lives and score.
#[derive(Clone, Copy, Debug, PartialEq, Eq, Structural)]
pub struct Player {
    pub x: u32,
    pub y: u32,
    pub alive: bool,
    pub animation_counter: u8,
    pub direction: PlayerDirection,
    pub life: u8,
    pub score: u32,
}

impl Player {
    /// A fresh player: three lives, zero score, alive, not moving.
    pub fn new(x: u32, y: u32) -> (p: Player)
        ensures
            p == (Player {
                x,
                y,
                alive: true,
                animation_counter: 0,
                direction: PlayerDirection::Not,
                life: 3,
                score: 0,
            }),
    {
        let life: u8 = 3;
        let score: u32 = 0;
        let alive = true;
        let animation_counter: u8 = 0;
        let direction = PlayerDirection::Not;
        Player { x, y, alive, animation_counter, direction, life, score }
    }
}

/// A player-owned projectile travelling upward.
#[derive(Clone, Copy, Debug, PartialEq, Eq, Structural)]
pub struct Missile {
    pub x: u32,
    pub y: u32,
    pub remove: bool,
}

/// An alien-owned projectile travelling downward.
#[derive(Clone, Copy, Debug, PartialEq, Eq, Structural)]
pub struct Bomb {
    pub x: u32,
    pub y: u32,
    pub remove: bool,
}

/// The free-running frame counter (wraps past 100) and the formation heading.
#[derive(Clone, Copy, Debug, PartialEq, Eq, Structural)]
pub struct AnimationInfo {
    pub game_counter: u8,
    pub alien_direction: AlienDirection,
}

impl AnimationInfo {
    /// Zeroed counter, formation headed right.
    pub fn new() -> (info: AnimationInfo)
        ensures
            info == (AnimationInfo { game_counter: 0, alien_direction: AlienDirection::Right }),
    {
        AnimationInfo { game_counter: 0, alien_direction: AlienDirection::Right }
    }
}

} // verus!
