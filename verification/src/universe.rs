use vstd::arithmetic::div_mod::lemma_fundamental_div_mod_converse;
use vstd::prelude::*;

use crate::cell::Cell;
use crate::collision::is_a_hit;
use crate::entities::{
    Alien, AlienDirection, AlienType, AnimationInfo, Bomb, Missile, Player, PlayerDirection,
};
use crate::masks::{
    alien_one_mask_one, alien_one_mask_two, alien_three_mask_one, alien_three_mask_two,
    alien_two_mask_one, alien_two_mask_two, bomb_mask, bomb_mask_data, explosion_mask,
    missile_mask, missile_mask_data, player_explosion_mask, player_explosion_mask_data, player_mask,
    player_mask_data,
};
use crate::model::{
    alien_landed, alien_mask_data, alien_missile_pass, alien_stepped, aliens_nudged_down,
    aliens_pass, bomb_stepped, bombs_render, bombs_stepped, flipped, keep_aliens, keep_missiles,
    lemma_aliens_pass_basics, lemma_missile_pass_basics, lemma_pass_after_landing,
    lemma_some_bomb_hits_extend, missile_stepped, missiles_stepped, nudged_down,
    player_after_death_anim, player_moved, sat_sub_u8, some_bomb_hits_player,
};
use crate::sprite::{draw_sprite, stamped_grid, Sprite};

verus! {

/// The world state of one game: arena dimensions, the committed cell buffer, the
/// entity collections, the player, and the frame counter with the formation heading.
pub struct Universe {
    pub width: u32,
    pub height: u32,
    pub is_running: bool,
    pub cells: Vec<Cell>,
    pub max_missiles: usize,
    pub aliens: Vec<Alien>,
    pub missiles: Vec<Missile>,
    pub bombs: Vec<Bomb>,
    pub player: Player,
    pub animation_info: AnimationInfo,
}

/// The alien kind of formation row `row`: A in front, then two rows of B, then two of C.
pub open spec fn row_kind(row: int) -> AlienType {
    if row == 0 {
        AlienType::A
    } else if row <= 2 {
        AlienType::B
    } else {
        AlienType::C
    }
}

/// The point value of formation row `row`: 100 at the front, halving per row
/// (integer division).
pub open spec fn row_points(row: int) -> u32
    decreases row,
{
    if row <= 0 {
        100
    } else {
        (row_points(row - 1) / 2) as u32
    }
}

/// The alien spawned at formation slot (row, col): fixed margins, column spacing
/// of sprite width + 8, row spacing of sprite height + 5.
pub open spec fn formation_alien(row: int, col: int) -> Alien {
    Alien {
        x: (col * 20 + 4) as u32,
        y: (row * 13 + 2) as u32,
        value: row_points(row),
        animation: false,
        alive: true,
        remove: false,
        alien_type: row_kind(row),
        animation_counter: 0,
    }
}

/// The initial 5-row x 11-column formation, row-major.
pub open spec fn formation() -> Seq<Alien> {
    Seq::new(55, |i: int| formation_alien(i / 11, i % 11))
}

/// End-of-tick cleanup: the aliens not flagged for removal, in order.
fn retained_aliens(v: &Vec<Alien>) -> (out: Vec<Alien>)
    ensures
        out@ == keep_aliens(v@),
        out@.len() <= v@.len(),
        forall|k: int| 0 <= k < out@.len() ==> !out@[k].remove,
{
    let mut out: Vec<Alien> = Vec::new();
    let mut i: usize = 0;
    while i < v.len()
        invariant
            0 <= i <= v@.len(),
            out@ == keep_aliens(v@.take(i as int)),
            out@.len() <= i,
            forall|k: int| 0 <= k < out@.len() ==> !out@[k].remove,
        decreases v@.len() - i,
    {
        let a = v[i];
        proof {
            assert(v@.take(i as int + 1).drop_last() =~= v@.take(i as int));
        }
        if !a.remove {
            out.push(a);
        }
        i = i + 1;
    }
    proof {
        assert(v@.take(v@.len() as int) =~= v@);
    }
    out
}

/// End-of-tick cleanup: the missiles not flagged for removal, in order.
fn retained_missiles(v: &Vec<Missile>) -> (out: Vec<Missile>)
    ensures
        out@ == keep_missiles(v@),
        out@.len() <= v@.len(),
{
    let mut out: Vec<Missile> = Vec::new();
    let mut i: usize = 0;
    while i < v.len()
        invariant
            0 <= i <= v@.len(),
            out@ == keep_missiles(v@.take(i as int)),
            out@.len() <= i,
        decreases v@.len() - i,
    {
        let m = v[i];
        proof {
            assert(v@.take(i as int + 1).drop_last() =~= v@.take(i as int));
        }
        if !m.remove {
            out.push(m);
        }
        i = i + 1;
    }
    proof {
        assert(v@.take(v@.len() as int) =~= v@);
    }
    out
}

/// A fresh all-empty cell buffer of width * height cells.
fn empty_grid(width: u32, height: u32) -> (cells: Vec<Cell>)
    requires
        width as int * height as int <= u32::MAX as int,
    ensures
        cells@.len() == width as int * height as int,
        forall|i: int| 0 <= i < cells@.len() ==> cells@[i] == Cell::Empty,
{
    let n = width * height;
    let n_us = n as usize;
    let mut cells: Vec<Cell> = Vec::new();
    while cells.len() < n_us
        invariant
            cells@.len() <= n_us,
            n_us == width as int * height as int,
            forall|i: int| 0 <= i < cells@.len() ==> cells@[i] == Cell::Empty,
        decreases n_us - cells.len(),
    {
        cells.push(Cell::Empty);
    }
    cells
}

/// One alien attempts a step in the shared heading.  If its lower edge has
/// reached the arena floor the formation has landed: the alien is left untouched
/// and `true` is returned.  Otherwise it steps, its walk phase toggles, and a
/// dead alien is flagged for removal.
fn update_alien_position(alien_direction: AlienDirection, alien: &mut Alien, ground: u32) -> (landed: bool)
    requires
        ground >= 5,
    ensures
        landed == alien_landed(*old(alien), ground),
        landed ==> *final(alien) == *old(alien),
        !landed ==> *final(alien) == alien_stepped(alien_direction, *old(alien)),
{
    if alien.y > ground - 5 {
        return true;
    }
    match alien_direction {
        AlienDirection::Right => {
            if alien.x <= u32::MAX - 5 {
                alien.x = alien.x + 5;
            } else {
                alien.x = u32::MAX;
            }
        },
        AlienDirection::Left => {
            if alien.x >= 5 {
                alien.x = alien.x - 5;
            } else {
                alien.x = 0;
            }
        },
        AlienDirection::Down => {
            alien.y = alien.y + 5;
        },
    }
    alien.animation = !alien.animation;
    if !alien.alive {
        alien.remove = true;
    }
    false
}

impl Universe {
    /// Well-formedness: the structural invariants every public operation preserves.
    /// The grid always covers the arena, the missile collection respects its cap,
    /// the player sits within the arena one sprite height above the floor, the
    /// counters stay in their wrap ranges, and the formation heading is never Down.
    pub open spec fn wf(self) -> bool {
        &&& self.height >= 8
        &&& self.width as int * self.height as int <= u32::MAX as int
        &&& self.width <= u32::MAX / 8
        &&& self.cells@.len() == self.width as int * self.height as int
        &&& self.max_missiles == 10
        &&& self.missiles@.len() <= self.max_missiles as int
        &&& self.player.x <= self.width
        &&& self.player.y as int == self.height as int - 8
        &&& self.player.animation_counter <= 11
        &&& self.player.life <= 3
        &&& self.animation_info.game_counter <= 100
        &&& self.animation_info.alien_direction != AlienDirection::Down
    }

    /// Whether the formation steps this tick (every 20th frame).
    pub open spec fn spec_stepping(self) -> bool {
        self.animation_info.game_counter % 20 == 0
    }

    /// Whether a bomb is dropped this tick (every 40th frame).
    pub open spec fn spec_dropping(self) -> bool {
        self.animation_info.game_counter % 40 == 0
    }

    /// Whether the frame counter wraps at the end of this tick.
    pub open spec fn spec_wrapping(self) -> bool {
        self.animation_info.game_counter + 1 > 100
    }

    /// The missiles after this tick's advance, before collisions.
    pub open spec fn spec_missiles_after_advance(self) -> Seq<Missile> {
        missiles_stepped(self.missiles@)
    }

    /// The bombs after this tick's periodic drop (from the first alien in
    /// formation — deterministic by design), before they advance.
    pub open spec fn spec_bombs_after_drop(self) -> Seq<Bomb> {
        if self.spec_dropping() {
            self.bombs@.push(Bomb { x: self.aliens@[0].x, y: self.aliens@[0].y, remove: false })
        } else {
            self.bombs@
        }
    }

    /// The player after this tick's lateral movement.
    pub open spec fn spec_player_after_move(self) -> Player {
        player_moved(self.player, self.width)
    }

    /// The player after the death animation step (and a possible respawn).
    pub open spec fn spec_player_after_anim(self) -> Player {
        player_after_death_anim(self.spec_player_after_move(), self.width)
    }

    /// Whether some bomb hits the player this tick.  The left edge of the hit box
    /// is the live (possibly respawned) player position; the right and bottom
    /// edges were captured before the respawn; the asymmetry is deliberate.
    pub open spec fn spec_player_hit(self) -> bool {
        some_bomb_hits_player(
            self.spec_bombs_after_drop(),
            self.height,
            self.spec_player_after_anim().x,
            self.spec_player_after_move().x + 11,
            self.player.y,
            self.player.y + 7,
        )
    }

    /// The bombs after this tick's advance.
    pub open spec fn spec_bombs_after_advance(self) -> Seq<Bomb> {
        bombs_stepped(self.spec_bombs_after_drop(), self.height)
    }

    /// The running flag after the bomb pass: a hit with no life left ends the game.
    pub open spec fn spec_running_after_bombs(self) -> bool {
        self.is_running && !(self.spec_player_hit() && self.spec_player_after_anim().life < 1)
    }

    /// The fresh all-empty buffer this tick starts from.
    pub open spec fn spec_grid_blank(self) -> Seq<Cell> {
        Seq::new((self.width as int * self.height as int) as nat, |ci: int| Cell::Empty)
    }

    /// The buffer after the bomb pass has drawn every advancing, non-hitting bomb.
    pub open spec fn spec_grid_after_bombs(self) -> Seq<Cell> {
        bombs_render(
            self.spec_bombs_after_drop(),
            self.height,
            self.spec_player_after_anim().x,
            self.spec_player_after_move().x + 11,
            self.player.y,
            self.player.y + 7,
            self.spec_grid_blank(),
            self.width as int,
        )
    }

    /// The mask the player is drawn with this tick: the explosion variant when
    /// the player entered the tick dead or a bomb hits during it.
    pub open spec fn spec_player_mask(self) -> Seq<u8> {
        if !self.player.alive || self.spec_player_hit() {
            player_explosion_mask_data()
        } else {
            player_mask_data()
        }
    }

    /// The buffer after the 11 x 7 player sprite is stamped at the player's
    /// (possibly respawned) position.
    pub open spec fn spec_grid_after_player(self) -> Seq<Cell> {
        stamped_grid(
            self.spec_grid_after_bombs(),
            self.spec_player_after_anim().x as int,
            self.player.y as int,
            11,
            7,
            self.spec_player_mask(),
            self.width as int,
        )
    }

    /// The formation pass of this tick: stepping, landing, collisions, score,
    /// and the rendering of missiles and aliens over the bomb-and-player buffer.
    pub open spec fn spec_formation_pass(self) -> (Seq<Alien>, Seq<Missile>, u32, bool, Seq<Cell>) {
        aliens_pass(
            self.aliens@,
            self.spec_missiles_after_advance(),
            self.player.score,
            self.animation_info.alien_direction,
            self.spec_stepping(),
            self.height,
            self.spec_grid_after_player(),
            self.width as int,
        )
    }

    /// The cell buffer committed by this tick.
    pub open spec fn spec_cells_after_tick(self) -> Seq<Cell> {
        self.spec_formation_pass().4
    }

    /// The alien collection committed by this tick: flagged aliens are dropped,
    /// and on a wrap the whole formation is nudged one row down.
    pub open spec fn spec_aliens_after_tick(self) -> Seq<Alien> {
        let kept = keep_aliens(self.spec_formation_pass().0);
        if self.spec_wrapping() {
            aliens_nudged_down(kept)
        } else {
            kept
        }
    }

    /// The missile collection committed by this tick.
    pub open spec fn spec_missiles_after_tick(self) -> Seq<Missile> {
        keep_missiles(self.spec_formation_pass().1)
    }

    /// The player committed by this tick.
    pub open spec fn spec_player_after_tick(self) -> Player {
        Player {
            alive: self.spec_player_after_anim().alive && !self.spec_player_hit(),
            score: self.spec_formation_pass().2,
            ..self.spec_player_after_anim()
        }
    }

    /// The running flag committed by this tick.
    pub open spec fn spec_running_after_tick(self) -> bool {
        self.spec_running_after_bombs() && !self.spec_formation_pass().3
    }

    /// The frame counter committed by this tick.
    pub open spec fn spec_counter_after_tick(self) -> u8 {
        if self.spec_wrapping() {
            0
        } else {
            (self.animation_info.game_counter + 1) as u8
        }
    }

    /// The formation heading committed by this tick.
    pub open spec fn spec_heading_after_tick(self) -> AlienDirection {
        if self.spec_wrapping() {
            flipped(self.animation_info.alien_direction)
        } else {
            self.animation_info.alien_direction
        }
    }

    /// A law of the tick: on a stepping tick on which the formation does not
    /// land, an alien that entered the tick already dead leaves the formation
    /// pass flagged for removal.  Since `tick` commits exactly the unflagged
    /// aliens of that pass (nudged down on a wrap), such an alien — its
    /// explosion frame now shown — is absent from the committed collection.
    pub proof fn lemma_dead_alien_gone(self, i: int)
        requires
            self.spec_stepping(),
            0 <= i < self.aliens@.len(),
            !self.aliens@[i].alive,
            !self.spec_formation_pass().3,
        ensures
            self.spec_formation_pass().0[i].remove,
    {
        crate::model::lemma_dead_alien_flagged(
            self.aliens@,
            self.spec_missiles_after_advance(),
            self.player.score,
            self.animation_info.alien_direction,
            self.height,
            self.spec_grid_after_player(),
            self.width as int,
            i,
        );
    }

    /// A fresh world: an all-empty grid, no entities, a centred player at the
    /// bottom of the arena, and a zeroed frame counter with the formation
    /// headed right.
    pub fn new(width: u32, height: u32) -> (u: Universe)
        requires
            height >= 8,
            width as int * height as int <= u32::MAX as int,
        ensures
            u.wf(),
            u.width == width,
            u.height == height,
            u.is_running == true,
            u.max_missiles == 10,
            u.aliens@.len() == 0,
            u.missiles@.len() == 0,
            u.bombs@.len() == 0,
            u.player == (Player {
                x: width / 2,
                y: (height - 8) as u32,
                alive: true,
                animation_counter: 0,
                direction: PlayerDirection::Not,
                life: 3,
                score: 0,
            }),
            u.animation_info == (AnimationInfo {
                game_counter: 0,
                alien_direction: AlienDirection::Right,
            }),
            u.cells@.len() == width as int * height as int,
            forall|i: int| 0 <= i < u.cells@.len() ==> u.cells@[i] == Cell::Empty,
    {
        proof {
            assert(width <= u32::MAX / 8) by (nonlinear_arith)
                requires
                    height >= 8,
                    width as int * height as int <= u32::MAX as int,
            ;
        }
        let cells = empty_grid(width, height);
        let max_missiles: usize = 10;
        let is_running = true;
        let aliens: Vec<Alien> = Vec::new();
        let missiles: Vec<Missile> = Vec::new();
        let bombs: Vec<Bomb> = Vec::new();
        let player = Player::new(width / 2, height - 8);
        let animation_info = AnimationInfo::new();
        Universe {
            width,
            height,
            cells,
            max_missiles,
            is_running,
            aliens,
            missiles,
            bombs,
            player,
            animation_info,
        }
    }

    /// Whether the game is still running.
    pub fn get_is_running(&self) -> (r: bool)
        ensures
            r == self.is_running,
    {
        self.is_running
    }

    /// The player's score.
    pub fn get_player_score(&self) -> (r: usize)
        ensures
            r == self.player.score as usize,
    {
        self.player.score as usize
    }

    /// The player's remaining lives.
    pub fn get_player_lives(&self) -> (r: usize)
        ensures
            r == self.player.life as usize,
    {
        self.player.life as usize
    }

    /// A read-only view of the committed cell buffer, for the external renderer.
    pub fn cells(&self) -> (r: &Vec<Cell>)
        ensures
            r@ == self.cells@,
    {
        &self.cells
    }

    /// Spawns a player missile at the cannon mouth, unless the concurrent
    /// missile cap is already reached (then this is a silent no-op).
    pub fn fire_missile(&mut self)
        requires
            old(self).wf(),
        ensures
            final(self).wf(),
            *final(self) == (Universe { missiles: final(self).missiles, ..*old(self) }),
            old(self).missiles@.len() < 10 ==> final(self).missiles@ == old(self).missiles@.push(
                Missile {
                    x: (old(self).player.x + 5) as u32,
                    y: (old(self).height - 8) as u32,
                    remove: false,
                },
            ),
            old(self).missiles@.len() >= 10 ==> final(self).missiles@ == old(self).missiles@,
            final(self).missiles@.len() <= 10,
    {
        if self.missiles.len() < self.max_missiles {
            let missile_x = self.player.x + 5;
            let missile_y = self.height - 8;
            let new_missile = Missile { x: missile_x, y: missile_y, remove: false };
            self.missiles.push(new_missile);
        }
    }

    /// Updates the player's movement intent; it takes effect on the next tick.
    pub fn handle_player_movement(&mut self, dir: PlayerDirection)
        ensures
            final(self).player == (Player { direction: dir, ..old(self).player }),
            *final(self) == (Universe { player: final(self).player, ..*old(self) }),
            old(self).wf() ==> final(self).wf(),
    {
        self.player.direction = dir;
    }

    /// If the alien collection is empty the game is over: the running flag is
    /// cleared and nothing else changes.
    fn check_for_gameover(&mut self) -> (over: bool)
        ensures
            over == (old(self).aliens@.len() == 0),
            over ==> *final(self) == (Universe { is_running: false, ..*old(self) }),
            !over ==> *final(self) == *old(self),
    {
        if self.aliens.len() == 0 {
            self.is_running = false;
            return true;
        }
        false
    }

    /// Advances every missile three cells up; one within three cells of the top
    /// edge is flagged for removal instead.
    fn update_missile_positions(&mut self)
        ensures
            final(self).missiles@ == missiles_stepped(old(self).missiles@),
            *final(self) == (Universe { missiles: final(self).missiles, ..*old(self) }),
    {
        let ghost ms0 = self.missiles@;
        let mut i: usize = 0;
        while i < self.missiles.len()
            invariant
                0 <= i <= ms0.len(),
                self.missiles@.len() == ms0.len(),
                forall|k: int| 0 <= k < i ==> self.missiles@[k] == missile_stepped(ms0[k]),
                forall|k: int| i <= k < ms0.len() ==> self.missiles@[k] == ms0[k],
                *self == (Universe { missiles: self.missiles, ..*old(self) }),
            decreases ms0.len() - i,
        {
            let m = self.missiles[i];
            if m.y > 3 {
                self.missiles.set(i, Missile { y: m.y - 3, ..m });
            } else {
                self.missiles.set(i, Missile { remove: true, ..m });
            }
            i = i + 1;
        }
        proof {
            assert(self.missiles@ =~= missiles_stepped(ms0));
        }
    }

    /// Drops a bomb from the first alien in formation (deterministic by design,
    /// despite what the name may suggest).
    fn drop_bomb(&mut self)
        requires
            old(self).aliens@.len() > 0,
        ensures
            final(self).bombs@ == old(self).bombs@.push(
                Bomb { x: old(self).aliens@[0].x, y: old(self).aliens@[0].y, remove: false },
            ),
            *final(self) == (Universe { bombs: final(self).bombs, ..*old(self) }),
    {
        let alien_x = self.aliens[0].x;
        let alien_y = self.aliens[0].y;
        let new_bomb = Bomb { x: alien_x, y: alien_y, remove: false };
        self.bombs.push(new_bomb);
    }

    /// The 100-tick wrap: every alien is nudged one row down, and the shared
    /// heading flips between Right and Left (Down has no successor).
    fn change_direction(&mut self)
        ensures
            final(self).aliens@ == aliens_nudged_down(old(self).aliens@),
            final(self).animation_info == (AnimationInfo {
                alien_direction: flipped(old(self).animation_info.alien_direction),
                ..old(self).animation_info
            }),
            old(self).animation_info.alien_direction == AlienDirection::Right
                ==> final(self).animation_info.alien_direction == AlienDirection::Left,
            old(self).animation_info.alien_direction == AlienDirection::Left
                ==> final(self).animation_info.alien_direction == AlienDirection::Right,
            old(self).animation_info.alien_direction != AlienDirection::Down
                ==> final(self).animation_info.alien_direction != AlienDirection::Down,
            *final(self) == (Universe {
                aliens: final(self).aliens,
                animation_info: final(self).animation_info,
                ..*old(self)
            }),
    {
        let ghost as0 = self.aliens@;
        let mut i: usize = 0;
        while i < self.aliens.len()
            invariant
                0 <= i <= as0.len(),
                self.aliens@.len() == as0.len(),
                forall|k: int| 0 <= k < i ==> self.aliens@[k] == nudged_down(as0[k]),
                forall|k: int| i <= k < as0.len() ==> self.aliens@[k] == as0[k],
                *self == (Universe { aliens: self.aliens, ..*old(self) }),
            decreases as0.len() - i,
        {
            let a = self.aliens[i];
            if a.y <= u32::MAX - 5 {
                self.aliens.set(i, Alien { y: a.y + 5, ..a });
            } else {
                self.aliens.set(i, Alien { y: u32::MAX, ..a });
            }
            i = i + 1;
        }
        proof {
            assert(self.aliens@ =~= aliens_nudged_down(as0));
        }
        match self.animation_info.alien_direction {
            AlienDirection::Left => {
                self.animation_info.alien_direction = AlienDirection::Right;
            },
            AlienDirection::Right => {
                self.animation_info.alien_direction = AlienDirection::Left;
            },
            AlienDirection::Down => {
                // the wrap transition has no successor for Down; nothing moves
            },
        }
    }

    /// Re-centres and revives the player after the death animation, taking one
    /// life (saturating at zero).
    fn reset_player(&mut self)
        ensures
            final(self).player == (Player {
                x: old(self).width / 2,
                alive: true,
                life: sat_sub_u8(old(self).player.life, 1),
                animation_counter: 0,
                ..old(self).player
            }),
            *final(self) == (Universe { player: final(self).player, ..*old(self) }),
    {
        self.player.x = self.width / 2;
        self.player.alive = true;
        if self.player.life >= 1 {
            self.player.life = self.player.life - 1;
        } else {
            self.player.life = 0;
        }
        self.player.animation_counter = 0;
    }

    /// Populates the alien collection with the fixed 5 x 11 formation: row kinds
    /// A, B, B, C, C; values 100, 50, 25, 12, 6 front to back.
    #[verifier::loop_isolation(false)]
    pub fn add_aliens(&mut self)
        ensures
            final(self).aliens@ == old(self).aliens@ + formation(),
            *final(self) == (Universe { aliens: final(self).aliens, ..*old(self) }),
            old(self).wf() ==> final(self).wf(),
    {
        let ghost as0 = self.aliens@;
        let mut value: u32 = 100;
        let mut row: u32 = 0;
        while row < 5
            invariant
                0 <= row <= 5,
                value == row_points(row as int),
                self.aliens@ == as0 + Seq::new(
                    (row * 11) as nat,
                    |i: int| formation_alien(i / 11, i % 11),
                ),
                *self == (Universe { aliens: self.aliens, ..*old(self) }),
            decreases 5 - row,
        {
            let y = row * 13 + 2;
            let alien_row = if row == 0 {
                AlienType::A
            } else if row <= 2 {
                AlienType::B
            } else {
                AlienType::C
            };
            let mut col: u32 = 0;
            while col < 11
                invariant
                    0 <= col <= 11,
                    row < 5,
                    value == row_points(row as int),
                    y == row * 13 + 2,
                    alien_row == row_kind(row as int),
                    self.aliens@ == as0 + Seq::new(
                        (row * 11 + col) as nat,
                        |i: int| formation_alien(i / 11, i % 11),
                    ),
                    *self == (Universe { aliens: self.aliens, ..*old(self) }),
                decreases 11 - col,
            {
                let x = col * 20 + 4;
                let alien = Alien::new(x, y, value, alien_row);
                self.aliens.push(alien);
                proof {
                    let n = row as int * 11 + col as int;
                    lemma_fundamental_div_mod_converse(n, 11, row as int, col as int);
                    assert(formation_alien(n / 11, n % 11) == alien);
                    assert(as0 + Seq::new(
                        (n + 1) as nat,
                        |i: int| formation_alien(i / 11, i % 11),
                    ) =~= (as0 + Seq::new(n as nat, |i: int| formation_alien(i / 11, i % 11))).push(
                        alien,
                    ));
                }
                col = col + 1;
            }
            value = value / 2;
            row = row + 1;
        }
        proof {
            assert(self.aliens@ == as0 + formation());
        }
    }

    /// The formation pass of one tick: each alien in order is given its sprite,
    /// attempts its lockstep step on a stepping tick (landing ends the game and
    /// aborts the pass), runs its missile pass — every surviving missile either
    /// scores on it or is rasterized, interleaved per alien — and is drawn.
    #[verifier::loop_isolation(false)]
    #[verifier::rlimit(100)]
    fn update_alien_positions(&mut self, new_cells: &mut Vec<Cell>)
        requires
            old(self).height >= 8,
            old(self).width <= u32::MAX / 8,
            old(new_cells)@.len() <= u32::MAX as int,
            old(self).width == 0 ==> old(new_cells)@.len() == 0,
        ensures
            ({
                let r = aliens_pass(
                    old(self).aliens@,
                    old(self).missiles@,
                    old(self).player.score,
                    old(self).animation_info.alien_direction,
                    old(self).animation_info.game_counter % 20 == 0,
                    old(self).height,
                    old(new_cells)@,
                    old(self).width as int,
                );
                &&& final(self).aliens@ == r.0
                &&& final(self).missiles@ == r.1
                &&& final(self).player == (Player { score: r.2, ..old(self).player })
                &&& final(self).is_running == (old(self).is_running && !r.3)
                &&& final(new_cells)@ == r.4
            }),
            final(self).width == old(self).width,
            final(self).height == old(self).height,
            final(self).max_missiles == old(self).max_missiles,
            final(self).bombs@ == old(self).bombs@,
            final(self).cells@ == old(self).cells@,
            final(self).animation_info == old(self).animation_info,
            final(new_cells)@.len() == old(new_cells)@.len(),
    {
        let ghost as0 = self.aliens@;
        let ghost ms0 = self.missiles@;
        let ghost sc0 = self.player.score;
        let ghost g_in = new_cells@;
        let ghost wg = self.width as int;
        let stepping = self.animation_info.game_counter % 20 == 0;
        let dir = self.animation_info.alien_direction;
        let ground = self.height;
        let missile_sprite = Sprite::new(1, 3, missile_mask());
        let mut landed_any = false;
        let mut i: usize = 0;
        while i < self.aliens.len() && !landed_any
            invariant
                0 <= i <= as0.len(),
                self.aliens@.len() == as0.len(),
                !landed_any ==> ({
                    let r = aliens_pass(as0.take(i as int), ms0, sc0, dir, stepping, ground, g_in, wg);
                    &&& self.aliens@ == r.0 + as0.skip(i as int)
                    &&& self.missiles@ == r.1
                    &&& self.player.score == r.2
                    &&& !r.3
                    &&& new_cells@ == r.4
                }),
                landed_any ==> ({
                    let r = aliens_pass(as0, ms0, sc0, dir, stepping, ground, g_in, wg);
                    &&& self.aliens@ == r.0
                    &&& self.missiles@ == r.1
                    &&& self.player.score == r.2
                    &&& r.3
                    &&& new_cells@ == r.4
                }),
                self.player == (Player { score: self.player.score, ..old(self).player }),
                self.is_running == (old(self).is_running && !landed_any),
                self.bombs@ == old(self).bombs@,
                self.cells@ == old(self).cells@,
                self.animation_info == old(self).animation_info,
                self.width == old(self).width,
                self.height == old(self).height,
                self.max_missiles == old(self).max_missiles,
                new_cells@.len() == old(new_cells)@.len(),
                missile_sprite.wf(),
                missile_sprite.width == 1,
                missile_sprite.height == 3,
                missile_sprite.data@ == missile_mask_data(),
            decreases as0.len() - i,
        {
            proof {
                assert(as0.take(i as int + 1).drop_last() =~= as0.take(i as int));
                assert(as0.take(i as int + 1).last() == as0[i as int]);
                lemma_aliens_pass_basics(as0.take(i as int), ms0, sc0, dir, stepping, ground, g_in, wg);
            }
            let mut alien = self.aliens[i];
            let data = if !alien.alive {
                explosion_mask()
            } else {
                match alien.alien_type {
                    AlienType::A => if alien.animation {
                        alien_one_mask_one()
                    } else {
                        alien_one_mask_two()
                    },
                    AlienType::B => if alien.animation {
                        alien_two_mask_one()
                    } else {
                        alien_two_mask_two()
                    },
                    AlienType::C => if alien.animation {
                        alien_three_mask_one()
                    } else {
                        alien_three_mask_two()
                    },
                }
            };
            let sprite = Sprite::new(12, 8, data);
            proof {
                assert(sprite.data@ == alien_mask_data(as0[i as int]));
            }
            let mut landed_now = false;
            if stepping {
                landed_now = update_alien_position(dir, &mut alien, ground);
            }
            if landed_now {
                self.is_running = false;
                landed_any = true;
                proof {
                    let rk = aliens_pass(as0.take(i as int), ms0, sc0, dir, stepping, ground, g_in, wg);
                    lemma_pass_after_landing(as0, ms0, sc0, dir, stepping, ground, g_in, wg, i as int + 1);
                    assert(rk.0.push(as0[i as int]) + as0.skip(i as int + 1) =~= rk.0 + as0.skip(
                        i as int,
                    ));
                }
            } else {
                let ghost a_stepped = alien;
                let ghost ms_in = self.missiles@;
                let ghost sc_in = self.player.score;
                let ghost g_ai = new_cells@;
                let ghost aliens_in = self.aliens@;
                let mut j: usize = 0;
                #[verifier::loop_isolation(true)]
                while j < self.missiles.len()
                    invariant
                        0 <= i < as0.len(),
                        wg == self.width as int,
                        new_cells@.len() <= u32::MAX as int,
                        self.width == 0 ==> new_cells@.len() == 0,
                        0 <= j <= ms_in.len(),
                        self.missiles@.len() == ms_in.len(),
                        ({
                            let p = alien_missile_pass(a_stepped, ms_in.take(j as int), sc_in, g_ai, wg);
                            &&& alien == p.0
                            &&& self.missiles@ == p.1 + ms_in.skip(j as int)
                            &&& self.player.score == p.2
                            &&& new_cells@ == p.3
                        }),
                        self.aliens@ == aliens_in,
                        self.player == (Player { score: self.player.score, ..old(self).player }),
                        self.is_running == (old(self).is_running && !landed_any),
                        self.bombs@ == old(self).bombs@,
                        self.cells@ == old(self).cells@,
                        self.animation_info == old(self).animation_info,
                        self.width == old(self).width,
                        self.height == old(self).height,
                        self.max_missiles == old(self).max_missiles,
                        new_cells@.len() == old(new_cells)@.len(),
                        missile_sprite.wf(),
                        missile_sprite.width == 1,
                        missile_sprite.height == 3,
                        missile_sprite.data@ == missile_mask_data(),
                        sprite.wf(),
                        sprite.width == 12,
                        sprite.height == 8,
                        sprite.data@ == alien_mask_data(as0[i as int]),
                    decreases ms_in.len() - j,
                {
                    proof {
                        assert(ms_in.take(j as int + 1).drop_last() =~= ms_in.take(j as int));
                        assert(ms_in.take(j as int + 1).last() == ms_in[j as int]);
                        lemma_missile_pass_basics(a_stepped, ms_in.take(j as int), sc_in, g_ai, wg);
                    }
                    let ghost p_prev = alien_missile_pass(a_stepped, ms_in.take(j as int), sc_in, g_ai, wg);
                    let m = self.missiles[j];
                    if is_a_hit(&alien, &m) {
                        alien.alive = false;
                        self.missiles.set(j, Missile { remove: true, ..m });
                        let v = alien.value;
                        if self.player.score <= u32::MAX - v {
                            self.player.score = self.player.score + v;
                        } else {
                            self.player.score = u32::MAX;
                        }
                        proof {
                            assert(p_prev.1.push(Missile { remove: true, ..m }) + ms_in.skip(
                                j as int + 1,
                            ) =~= (p_prev.1 + ms_in.skip(j as int)).update(
                                j as int,
                                Missile { remove: true, ..m },
                            ));
                        }
                    } else {
                        draw_sprite(m.x, m.y, &missile_sprite, new_cells, self.width);
                        proof {
                            assert(p_prev.1.push(m) + ms_in.skip(j as int + 1) =~= p_prev.1
                                + ms_in.skip(j as int));
                        }
                    }
                    j = j + 1;
                }
                proof {
                    assert(ms_in.take(ms_in.len() as int) =~= ms_in);
                }
                proof {
                    lemma_missile_pass_basics(a_stepped, ms_in, sc_in, g_ai, wg);
                }
                draw_sprite(alien.x, alien.y, &sprite, new_cells, self.width);
                self.aliens.set(i, alien);
                proof {
                    let rk = aliens_pass(as0.take(i as int), ms0, sc0, dir, stepping, ground, g_in, wg);
                    let p = alien_missile_pass(a_stepped, ms_in, sc_in, g_ai, wg);
                    assert(rk.0.push(p.0) + as0.skip(i as int + 1) =~= (rk.0 + as0.skip(
                        i as int,
                    )).update(i as int, p.0));
                }
            }
            i = i + 1;
        }
        proof {
            if !landed_any {
                assert(as0.take(as0.len() as int) =~= as0);
                let r = aliens_pass(as0, ms0, sc0, dir, stepping, ground, g_in, wg);
                assert(r.0 + as0.skip(as0.len() as int) =~= r.0);
            }
        }
    }

    /// Advances the world by one frame, in a fixed order: game-over check
    /// (which stops the tick), fresh buffer, missile advance, periodic bomb drop,
    /// player movement and death animation, bomb advance with player collision,
    /// player rasterization, the formation pass, cleanup, buffer commit, and the
    /// frame-counter wrap with the heading flip.
    #[verifier::loop_isolation(false)]
    #[verifier::rlimit(100)]
    #[verifier::spinoff_prover]
    pub fn tick(&mut self)
        requires
            old(self).wf(),
        ensures
            final(self).wf(),
            final(self).width == old(self).width,
            final(self).height == old(self).height,
            final(self).max_missiles == old(self).max_missiles,
            old(self).player.score <= final(self).player.score,
            forall|k: int| 0 <= k < final(self).aliens@.len() ==> !final(self).aliens@[k].remove,
            old(self).aliens@.len() == 0 ==> *final(self) == (Universe {
                is_running: false,
                ..*old(self)
            }),
            old(self).aliens@.len() > 0 ==> {
                &&& final(self).aliens@ == old(self).spec_aliens_after_tick()
                &&& final(self).missiles@ == old(self).spec_missiles_after_tick()
                &&& final(self).bombs@ == old(self).spec_bombs_after_advance()
                &&& final(self).player == old(self).spec_player_after_tick()
                &&& final(self).is_running == old(self).spec_running_after_tick()
                &&& final(self).animation_info.game_counter == old(self).spec_counter_after_tick()
                &&& final(self).animation_info.alien_direction == old(
                    self,
                ).spec_heading_after_tick()
                &&& final(self).cells@ == old(self).spec_cells_after_tick()
                &&& final(self).cells@.len() == old(self).width as int * old(self).height as int
            },
    {
        if self.check_for_gameover() {
            return;
        }
        let mut new_cells = empty_grid(self.width, self.height);
        self.update_missile_positions();
        if self.animation_info.game_counter % 40 == 0 {
            self.drop_bomb();
        }
        if self.player.direction == PlayerDirection::Right && self.player.x + 11 < self.width {
            self.player.x = self.player.x + 2;
        }
        if self.player.direction == PlayerDirection::Left && self.player.x > 3 {
            self.player.x = self.player.x - 2;
        }
        let ghost p1 = self.player;
        let x_hi = self.player.x + 11;
        let y_lo = self.player.y;
        let y_hi = self.player.y + 7;
        let was_alive = self.player.alive;
        if !self.player.alive {
            self.player.animation_counter = self.player.animation_counter + 1;
            if self.player.animation_counter > 10 {
                self.reset_player();
            }
        }
        let ghost p2 = self.player;
        proof {
            assert(p2 == player_after_death_anim(p1, self.width));
        }
        let bomb_sprite = Sprite::new(3, 3, bomb_mask());
        let ghost bombs1 = self.bombs@;
        let ghost g_blank = new_cells@;
        proof {
            assert(g_blank =~= old(self).spec_grid_blank());
        }
        let mut bombed = false;
        let mut bi: usize = 0;
        #[verifier::loop_isolation(true)]
        while bi < self.bombs.len()
            invariant
                old(self).wf(),
                0 <= bi <= bombs1.len(),
                self.bombs@.len() == bombs1.len(),
                forall|k: int| 0 <= k < bi ==> self.bombs@[k] == bomb_stepped(
                    bombs1[k],
                    self.height,
                ),
                forall|k: int| bi <= k < bombs1.len() ==> self.bombs@[k] == bombs1[k],
                bombed == some_bomb_hits_player(
                    bombs1.take(bi as int),
                    self.height,
                    p2.x,
                    p1.x + 11,
                    p1.y,
                    p1.y + 7,
                ),
                self.player == (Player { alive: p2.alive && !bombed, ..p2 }),
                self.is_running == (old(self).is_running && !(bombed && p2.life < 1)),
                x_hi == p1.x + 11,
                y_lo == p1.y,
                y_hi == p1.y + 7,
                p1.y == p2.y,
                self.aliens@ == old(self).aliens@,
                self.missiles@ == missiles_stepped(old(self).missiles@),
                self.cells@ == old(self).cells@,
                self.animation_info == old(self).animation_info,
                self.width == old(self).width,
                self.height == old(self).height,
                self.max_missiles == old(self).max_missiles,
                new_cells@.len() == old(self).width as int * old(self).height as int,
                new_cells@ == bombs_render(
                    bombs1.take(bi as int),
                    self.height,
                    p2.x,
                    p1.x + 11,
                    p1.y,
                    p1.y + 7,
                    g_blank,
                    self.width as int,
                ),
                bomb_sprite.wf(),
                bomb_sprite.width == 3,
                bomb_sprite.height == 3,
                bomb_sprite.data@ == bomb_mask_data(),
            decreases bombs1.len() - bi,
        {
            let b = self.bombs[bi];
            if b.y < self.height - 3 {
                let b2 = Bomb { x: b.x, y: b.y + 1, remove: b.remove };
                self.bombs.set(bi, b2);
                if b2.x >= self.player.x && b2.x <= x_hi && b2.y >= y_lo && b2.y <= y_hi {
                    self.player.alive = false;
                    if self.player.life < 1 {
                        self.is_running = false;
                    }
                    bombed = true;
                } else {
                    draw_sprite(b2.x, b2.y, &bomb_sprite, &mut new_cells, self.width);
                }
            }
            proof {
                lemma_some_bomb_hits_extend(
                    bombs1,
                    self.height,
                    p2.x,
                    p1.x + 11,
                    p1.y,
                    p1.y + 7,
                    bi as int,
                );
                assert(bombs1.take(bi as int + 1).drop_last() =~= bombs1.take(bi as int));
                assert(bombs1.take(bi as int + 1).last() == bombs1[bi as int]);
            }
            bi = bi + 1;
        }
        proof {
            assert(bombs1.take(bombs1.len() as int) =~= bombs1);
            assert(self.bombs@ =~= bombs_stepped(bombs1, self.height));
            assert(new_cells@ == old(self).spec_grid_after_bombs());
        }
        let player_sprite = if !was_alive || bombed {
            Sprite::new(11, 7, player_explosion_mask())
        } else {
            Sprite::new(11, 7, player_mask())
        };
        proof {
            assert(player_sprite.data@ == old(self).spec_player_mask());
        }
        draw_sprite(self.player.x, self.player.y, &player_sprite, &mut new_cells, self.width);
        proof {
            assert(new_cells@ == old(self).spec_grid_after_player());
        }
        self.update_alien_positions(&mut new_cells);
        let kept_aliens = retained_aliens(&self.aliens);
        self.aliens = kept_aliens;
        let kept_missiles = retained_missiles(&self.missiles);
        self.missiles = kept_missiles;
        self.cells = new_cells;
        self.animation_info.game_counter = self.animation_info.game_counter + 1;
        if self.animation_info.game_counter > 100 {
            self.animation_info.game_counter = 0;
            self.change_direction();
        }
        proof {
            lemma_aliens_pass_basics(
                old(self).aliens@,
                missiles_stepped(old(self).missiles@),
                old(self).player.score,
                old(self).animation_info.alien_direction,
                old(self).animation_info.game_counter % 20 == 0,
                old(self).height,
                old(self).spec_grid_after_player(),
                old(self).width as int,
            );
            assert forall|k: int| 0 <= k < self.aliens@.len() implies !self.aliens@[k].remove by {}
        }
    }
}

} // verus!

