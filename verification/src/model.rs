use vstd::prelude::*;

use crate::cell::Cell;
use crate::collision::spec_hit;
use crate::entities::{Alien, AlienDirection, AlienType, Bomb, Missile, Player, PlayerDirection};
use crate::masks::{
    alien_one_mask_one_data, alien_one_mask_two_data, alien_three_mask_one_data,
    alien_three_mask_two_data, alien_two_mask_one_data, alien_two_mask_two_data, bomb_mask_data,
    explosion_mask_data, missile_mask_data,
};
use crate::sprite::stamped_grid;

verus! {

/// Saturating u32 addition: the clamping policy for coordinates and the score,
/// chosen where the arithmetic would otherwise leave the representable range.
pub open spec fn sat_add_u32(a: u32, b: u32) -> u32 {
    if a + b <= u32::MAX {
        (a + b) as u32
    } else {
        u32::MAX
    }
}

/// Saturating u32 subtraction.
pub open spec fn sat_sub_u32(a: u32, b: u32) -> u32 {
    if a >= b {
        (a - b) as u32
    } else {
        0
    }
}

/// Saturating u8 subtraction: the policy for the life counter.
pub open spec fn sat_sub_u8(a: u8, b: u8) -> u8 {
    if a >= b {
        (a - b) as u8
    } else {
        0
    }
}

/// One missile advanced by one tick: three cells up, or flagged for removal when
/// the remaining distance to the top edge is three or less.
pub open spec fn missile_stepped(m: Missile) -> Missile {
    if m.y > 3 {
        Missile { y: (m.y - 3) as u32, ..m }
    } else {
        Missile { remove: true, ..m }
    }
}

/// All missiles advanced in order.
pub open spec fn missiles_stepped(ms: Seq<Missile>) -> Seq<Missile> {
    ms.map_values(|m: Missile| missile_stepped(m))
}

/// Lateral player movement, clamped at both arena edges.
pub open spec fn player_moved(p: Player, width: u32) -> Player {
    if p.direction == PlayerDirection::Right && p.x + 11 < width {
        Player { x: (p.x + 2) as u32, ..p }
    } else if p.direction == PlayerDirection::Left && p.x > 3 {
        Player { x: (p.x - 2) as u32, ..p }
    } else {
        p
    }
}

/// Death animation: a dead player counts one more frame; past ten frames it
/// respawns re-centred, alive, with one life less (saturating at zero).
pub open spec fn player_after_death_anim(p: Player, width: u32) -> Player {
    if p.alive {
        p
    } else if p.animation_counter + 1 > 10 {
        Player { x: width / 2, alive: true, life: sat_sub_u8(p.life, 1), animation_counter: 0, ..p }
    } else {
        Player { animation_counter: (p.animation_counter + 1) as u8, ..p }
    }
}

/// A bomb still advances while its lower edge stays within the arena.
pub open spec fn bomb_advancing(b: Bomb, height: u32) -> bool {
    b.y + 3 < height
}

/// One bomb advanced by one tick (one cell down), if it still advances.
pub open spec fn bomb_stepped(b: Bomb, height: u32) -> Bomb {
    if bomb_advancing(b, height) {
        Bomb { y: (b.y + 1) as u32, ..b }
    } else {
        b
    }
}

/// All bombs advanced in order.
pub open spec fn bombs_stepped(bs: Seq<Bomb>, height: u32) -> Seq<Bomb> {
    bs.map_values(|b: Bomb| bomb_stepped(b, height))
}

/// An advancing bomb whose new position falls inside the player's hit box.
/// The left/top corner is the live player position; the right/bottom corner was
/// captured before any respawn this tick; the asymmetry is deliberate.
pub open spec fn bomb_hits_player(b: Bomb, height: u32, x_lo: u32, x_hi: int, y_lo: u32, y_hi: int) -> bool {
    &&& bomb_advancing(b, height)
    &&& b.x >= x_lo
    &&& b.x <= x_hi
    &&& b.y + 1 >= y_lo
    &&& b.y + 1 <= y_hi
}

/// Whether any bomb of the collection hits the player this tick.
pub open spec fn some_bomb_hits_player(
    bs: Seq<Bomb>,
    height: u32,
    x_lo: u32,
    x_hi: int,
    y_lo: u32,
    y_hi: int,
) -> bool {
    exists|i: int| 0 <= i < bs.len() && bomb_hits_player(bs[i], height, x_lo, x_hi, y_lo, y_hi)
}

/// The cells drawn by the bomb pass: each bomb in order that still advances and
/// does not hit the player has its 3 x 3 sprite stamped at its new position; a
/// hitting bomb, and one that no longer advances, leaves the grid as it stands.
pub open spec fn bombs_render(
    bs: Seq<Bomb>,
    height: u32,
    x_lo: u32,
    x_hi: int,
    y_lo: u32,
    y_hi: int,
    grid: Seq<Cell>,
    width: int,
) -> Seq<Cell>
    decreases bs.len(),
{
    if bs.len() == 0 {
        grid
    } else {
        let g = bombs_render(bs.drop_last(), height, x_lo, x_hi, y_lo, y_hi, grid, width);
        let b = bs.last();
        if bomb_advancing(b, height) && !bomb_hits_player(b, height, x_lo, x_hi, y_lo, y_hi) {
            stamped_grid(g, b.x as int, b.y + 1, 3, 3, bomb_mask_data(), width)
        } else {
            g
        }
    }
}

/// Extending the scanned prefix of the bomb collection by one bomb adds exactly
/// that bomb's own hit test to the "some bomb hits the player" disjunction.
pub proof fn lemma_some_bomb_hits_extend(
    bs: Seq<Bomb>,
    height: u32,
    x_lo: u32,
    x_hi: int,
    y_lo: u32,
    y_hi: int,
    n: int,
)
    requires
        0 <= n < bs.len(),
    ensures
        some_bomb_hits_player(bs.take(n + 1), height, x_lo, x_hi, y_lo, y_hi) == (
        some_bomb_hits_player(bs.take(n), height, x_lo, x_hi, y_lo, y_hi) || bomb_hits_player(
            bs[n],
            height,
            x_lo,
            x_hi,
            y_lo,
            y_hi,
        )),
{
    if some_bomb_hits_player(bs.take(n + 1), height, x_lo, x_hi, y_lo, y_hi) {
        let k = choose|k: int|
            0 <= k < bs.take(n + 1).len() && #[trigger] bomb_hits_player(
                bs.take(n + 1)[k],
                height,
                x_lo,
                x_hi,
                y_lo,
                y_hi,
            );
        if k < n {
            assert(bs.take(n)[k] == bs.take(n + 1)[k]);
            assert(some_bomb_hits_player(bs.take(n), height, x_lo, x_hi, y_lo, y_hi));
        } else {
            assert(bs.take(n + 1)[k] == bs[n]);
        }
    }
    if some_bomb_hits_player(bs.take(n), height, x_lo, x_hi, y_lo, y_hi) {
        let k = choose|k: int|
            0 <= k < bs.take(n).len() && #[trigger] bomb_hits_player(
                bs.take(n)[k],
                height,
                x_lo,
                x_hi,
                y_lo,
                y_hi,
            );
        assert(bs.take(n + 1)[k] == bs.take(n)[k]);
        assert(some_bomb_hits_player(bs.take(n + 1), height, x_lo, x_hi, y_lo, y_hi));
    }
    if bomb_hits_player(bs[n], height, x_lo, x_hi, y_lo, y_hi) {
        assert(bs.take(n + 1)[n] == bs[n]);
        assert(some_bomb_hits_player(bs.take(n + 1), height, x_lo, x_hi, y_lo, y_hi));
    }
}

/// The formation has landed when an alien's lower edge (y+5) has passed the floor.
pub open spec fn alien_landed(a: Alien, ground: u32) -> bool {
    a.y + 5 > ground
}

/// One alien stepped in the shared heading (coordinates clamp at the numeric
/// range); the walk phase toggles, and a dead alien is flagged for removal, its
/// explosion frame having now been shown.
pub open spec fn alien_stepped(dir: AlienDirection, a: Alien) -> Alien {
    let moved = match dir {
        AlienDirection::Right => Alien { x: sat_add_u32(a.x, 5), ..a },
        AlienDirection::Left => Alien { x: sat_sub_u32(a.x, 5), ..a },
        AlienDirection::Down => Alien { y: sat_add_u32(a.y, 5), ..a },
    };
    Alien { animation: !a.animation, remove: if !a.alive { true } else { a.remove }, ..moved }
}

/// The mask an alien is drawn with: chosen by (kind, walk phase) from the six
/// frame pairs, overridden by the shared explosion mask when the alien is dead.
pub open spec fn alien_mask_data(a: Alien) -> Seq<u8> {
    if !a.alive {
        explosion_mask_data()
    } else {
        match a.alien_type {
            AlienType::A => if a.animation {
                alien_one_mask_one_data()
            } else {
                alien_one_mask_two_data()
            },
            AlienType::B => if a.animation {
                alien_two_mask_one_data()
            } else {
                alien_two_mask_two_data()
            },
            AlienType::C => if a.animation {
                alien_three_mask_one_data()
            } else {
                alien_three_mask_two_data()
            },
        }
    }
}

/// The missile pass for one alien: each missile in order either scores a hit
/// (the alien dies, the missile is flagged, the alien's value is credited,
/// nothing is drawn for it) or is left as it is and its 1 x 3 sprite is drawn.
/// Returns the alien, the missiles, the score and the grid afterwards.
pub open spec fn alien_missile_pass(a: Alien, ms: Seq<Missile>, score: u32, grid: Seq<Cell>, width: int) -> (Alien, Seq<Missile>, u32, Seq<Cell>)
    decreases ms.len(),
{
    if ms.len() == 0 {
        (a, ms, score, grid)
    } else {
        let r = alien_missile_pass(a, ms.drop_last(), score, grid, width);
        let m = ms.last();
        if spec_hit(r.0, m) {
            (
                Alien { alive: false, ..r.0 },
                r.1.push(Missile { remove: true, ..m }),
                sat_add_u32(r.2, r.0.value),
                r.3,
            )
        } else {
            (r.0, r.1.push(m), r.2, stamped_grid(r.3, m.x as int, m.y as int, 1, 3, missile_mask_data(), width))
        }
    }
}

/// The formation pass: aliens in order.  On a stepping tick each alien first
/// checks for landing — which marks the pass as landed and leaves every later
/// alien untouched and undrawn — and then steps; afterwards its missile pass
/// runs and its 12 x 8 sprite (chosen from the pre-step walk phase) is stamped
/// at its stepped position.  Returns the aliens, the missiles, the score,
/// whether the formation landed, and the grid.
pub open spec fn aliens_pass(
    aliens: Seq<Alien>,
    ms: Seq<Missile>,
    score: u32,
    dir: AlienDirection,
    stepping: bool,
    ground: u32,
    grid: Seq<Cell>,
    width: int,
) -> (Seq<Alien>, Seq<Missile>, u32, bool, Seq<Cell>)
    decreases aliens.len(),
{
    if aliens.len() == 0 {
        (aliens, ms, score, false, grid)
    } else {
        let r = aliens_pass(aliens.drop_last(), ms, score, dir, stepping, ground, grid, width);
        let a = aliens.last();
        if r.3 {
            (r.0.push(a), r.1, r.2, true, r.4)
        } else if stepping && alien_landed(a, ground) {
            (r.0.push(a), r.1, r.2, true, r.4)
        } else {
            let a1 = if stepping {
                alien_stepped(dir, a)
            } else {
                a
            };
            let p = alien_missile_pass(a1, r.1, r.2, r.4, width);
            (
                r.0.push(p.0),
                p.1,
                p.2,
                false,
                stamped_grid(p.3, a1.x as int, a1.y as int, 12, 8, alien_mask_data(a), width),
            )
        }
    }
}

/// End-of-tick cleanup: the aliens not flagged for removal, in order.
pub open spec fn keep_aliens(aliens: Seq<Alien>) -> Seq<Alien>
    decreases aliens.len(),
{
    if aliens.len() == 0 {
        aliens
    } else {
        let r = keep_aliens(aliens.drop_last());
        if aliens.last().remove {
            r
        } else {
            r.push(aliens.last())
        }
    }
}

/// End-of-tick cleanup: the missiles not flagged for removal, in order.
pub open spec fn keep_missiles(ms: Seq<Missile>) -> Seq<Missile>
    decreases ms.len(),
{
    if ms.len() == 0 {
        ms
    } else {
        let r = keep_missiles(ms.drop_last());
        if ms.last().remove {
            r
        } else {
            r.push(ms.last())
        }
    }
}

/// The wrap transition of the formation heading: Right and Left swap.
/// Down has itself as successor: the wrap transition never selects it.
pub open spec fn flipped(d: AlienDirection) -> AlienDirection {
    match d {
        AlienDirection::Left => AlienDirection::Right,
        AlienDirection::Right => AlienDirection::Left,
        AlienDirection::Down => AlienDirection::Down,
    }
}

/// The drop-a-row nudge applied to every alien on a 100-tick wrap.
pub open spec fn nudged_down(a: Alien) -> Alien {
    Alien { y: sat_add_u32(a.y, 5), ..a }
}

/// All aliens nudged down one row.
pub open spec fn aliens_nudged_down(aliens: Seq<Alien>) -> Seq<Alien> {
    aliens.map_values(|a: Alien| nudged_down(a))
}

/// The missile pass keeps the number of missiles and never touches the alien's
/// value or removal flag, and the score never decreases.
pub proof fn lemma_missile_pass_basics(a: Alien, ms: Seq<Missile>, score: u32, grid: Seq<Cell>, width: int)
    ensures
        alien_missile_pass(a, ms, score, grid, width).1.len() == ms.len(),
        alien_missile_pass(a, ms, score, grid, width).0.value == a.value,
        alien_missile_pass(a, ms, score, grid, width).0.remove == a.remove,
        alien_missile_pass(a, ms, score, grid, width).0.x == a.x,
        alien_missile_pass(a, ms, score, grid, width).0.y == a.y,
        score <= alien_missile_pass(a, ms, score, grid, width).2,
    decreases ms.len(),
{
    if ms.len() > 0 {
        lemma_missile_pass_basics(a, ms.drop_last(), score, grid, width);
    }
}

/// The formation pass keeps the number of aliens and of missiles, and the score
/// never decreases.
pub proof fn lemma_aliens_pass_basics(
    aliens: Seq<Alien>,
    ms: Seq<Missile>,
    score: u32,
    dir: AlienDirection,
    stepping: bool,
    ground: u32,
    grid: Seq<Cell>,
    width: int,
)
    ensures
        aliens_pass(aliens, ms, score, dir, stepping, ground, grid, width).0.len() == aliens.len(),
        aliens_pass(aliens, ms, score, dir, stepping, ground, grid, width).1.len() == ms.len(),
        score <= aliens_pass(aliens, ms, score, dir, stepping, ground, grid, width).2,
    decreases aliens.len(),
{
    if aliens.len() > 0 {
        let r = aliens_pass(aliens.drop_last(), ms, score, dir, stepping, ground, grid, width);
        lemma_aliens_pass_basics(aliens.drop_last(), ms, score, dir, stepping, ground, grid, width);
        if !r.3 && !(stepping && alien_landed(aliens.last(), ground)) {
            let a1 = if stepping {
                alien_stepped(dir, aliens.last())
            } else {
                aliens.last()
            };
            lemma_missile_pass_basics(a1, r.1, r.2, r.4, width);
        }
    }
}

/// Once a prefix of the formation pass has landed, the whole pass is the prefix
/// result with every remaining alien untouched.
pub proof fn lemma_pass_after_landing(
    aliens: Seq<Alien>,
    ms: Seq<Missile>,
    score: u32,
    dir: AlienDirection,
    stepping: bool,
    ground: u32,
    grid: Seq<Cell>,
    width: int,
    k: int,
)
    requires
        0 <= k <= aliens.len(),
        aliens_pass(aliens.take(k), ms, score, dir, stepping, ground, grid, width).3,
    ensures
        ({
            let rk = aliens_pass(aliens.take(k), ms, score, dir, stepping, ground, grid, width);
            let r = aliens_pass(aliens, ms, score, dir, stepping, ground, grid, width);
            &&& r.0 == rk.0 + aliens.skip(k)
            &&& r.1 == rk.1
            &&& r.2 == rk.2
            &&& r.3
            &&& r.4 == rk.4
        }),
    decreases aliens.len() - k,
{
    let rk = aliens_pass(aliens.take(k), ms, score, dir, stepping, ground, grid, width);
    if k == aliens.len() {
        assert(aliens.take(k) =~= aliens);
        assert(rk.0 + aliens.skip(k) =~= rk.0);
    } else {
        assert(aliens.take(k + 1).drop_last() =~= aliens.take(k));
        assert(aliens.take(k + 1).last() == aliens[k]);
        let rk1 = aliens_pass(aliens.take(k + 1), ms, score, dir, stepping, ground, grid, width);
        assert(rk1 == (rk.0.push(aliens[k]), rk.1, rk.2, true, rk.4));
        lemma_pass_after_landing(aliens, ms, score, dir, stepping, ground, grid, width, k + 1);
        assert(rk.0.push(aliens[k]) + aliens.skip(k + 1) =~= rk.0 + aliens.skip(k));
    }
}

/// A law of the tick: on a stepping tick on which the formation does not land,
/// an alien that entered the tick already dead leaves the formation pass with its
/// removal flag set — its explosion frame has been shown — so the end-of-tick
/// cleanup drops it from the collection.
pub proof fn lemma_dead_alien_flagged(
    aliens: Seq<Alien>,
    ms: Seq<Missile>,
    score: u32,
    dir: AlienDirection,
    ground: u32,
    grid: Seq<Cell>,
    width: int,
    i: int,
)
    requires
        0 <= i < aliens.len(),
        !aliens[i].alive,
        !aliens_pass(aliens, ms, score, dir, true, ground, grid, width).3,
    ensures
        aliens_pass(aliens, ms, score, dir, true, ground, grid, width).0[i].remove,
    decreases aliens.len(),
{
    let r = aliens_pass(aliens.drop_last(), ms, score, dir, true, ground, grid, width);
    let a = aliens.last();
    lemma_aliens_pass_basics(aliens.drop_last(), ms, score, dir, true, ground, grid, width);
    if i == aliens.len() - 1 {
        let a1 = alien_stepped(dir, a);
        lemma_missile_pass_basics(a1, r.1, r.2, r.4, width);
    } else {
        lemma_dead_alien_flagged(aliens.drop_last(), ms, score, dir, ground, grid, width, i);
    }
}

/// A law of the missile pass: once the evolving alien is hit by missile `j`,
/// it leaves the pass dead, missile `j` leaves it flagged for removal, and the
/// score is credited with the alien's value at the hit (and cannot decrease
/// afterwards).
pub proof fn lemma_missile_pass_kills(
    a: Alien,
    ms: Seq<Missile>,
    score: u32,
    grid: Seq<Cell>,
    width: int,
    j: int,
)
    requires
        0 <= j < ms.len(),
        spec_hit(alien_missile_pass(a, ms.take(j), score, grid, width).0, ms[j]),
    ensures
        ({
            let rj = alien_missile_pass(a, ms.take(j), score, grid, width);
            let r = alien_missile_pass(a, ms, score, grid, width);
            &&& !r.0.alive
            &&& r.1[j].remove
            &&& sat_add_u32(rj.2, a.value) <= r.2
        }),
    decreases ms.len(),
{
    let rj = alien_missile_pass(a, ms.take(j), score, grid, width);
    lemma_missile_pass_basics(a, ms.take(j), score, grid, width);
    if j == ms.len() - 1 {
        assert(ms.take(j + 1) =~= ms);
        assert(ms.take(j + 1).drop_last() =~= ms.take(j));
    } else {
        assert(ms.drop_last().take(j) =~= ms.take(j));
        lemma_missile_pass_kills(a, ms.drop_last(), score, grid, width, j);
        let r1 = alien_missile_pass(a, ms.drop_last(), score, grid, width);
        lemma_missile_pass_basics(a, ms.drop_last(), score, grid, width);
        assert(!spec_hit(r1.0, ms.last()));
    }
}

/// A law of the heading machine: from Right or Left, the wrap transition strictly
/// alternates between the two and never yields Down.
pub proof fn lemma_heading_alternates(d: AlienDirection)
    requires
        d != AlienDirection::Down,
    ensures
        flipped(d) != d,
        flipped(d) != AlienDirection::Down,
        flipped(flipped(d)) == d,
{
}

} // verus!
