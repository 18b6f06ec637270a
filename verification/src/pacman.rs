use vstd::prelude::*;
use rand::rngs::ThreadRng;
use crate::direction::{Direction, dx, dy, heading_of};
use crate::random::{gen_range_u32, random_direction, random_color, random_angle, random_bool};

verus! {

/// Number of enemies on the board.
pub const NUM_ENEMIES: usize = 100;
/// Width of the board in pixels.
pub const WINDOW_WIDTH: u32 = 800;
/// Height of the board in pixels.
pub const WINDOW_HEIGHT: u32 = 600;

/// An opaque colour, one byte per channel.
#[derive(Clone, Copy, PartialEq, Eq, Structural, Debug)]
pub struct Rgb {
    pub r: u8,
    pub g: u8,
    pub b: u8,
}

impl Rgb {
    /// The opaque colour with the given red, green and blue channels.
    pub fn rgb(r: u8, g: u8, b: u8) -> (c: Rgb)
        ensures
            c == (Rgb { r, g, b }),
    {
        Rgb { r, g, b }
    }
}

/// The integer state of a chomper: where it is, where it heads, how wide its
/// mouth is open (in whole degrees) and whether it is closing, its colour, its
/// identity (an enemy's is its index plus one, the player's is 0) and how many
/// others it has eaten. Its radius is a real number and is kept beside it by
/// the renderer.
#[derive(Clone, Copy, PartialEq, Eq, Structural, Debug)]
pub struct Pacman {
    pub x: i32,
    pub y: i32,
    pub direction: Direction,
    pub color: Rgb,
    pub id: i32,
    pub mouth_angle: i32,
    pub mouth_closing: bool,
    pub pacmen_eaten: i32,
}

/// The mouth one animation step later, as (angle, closing): a closing mouth
/// widens by 5 degrees and turns back past 45, mirrored at 45; an opening
/// mouth narrows by 5 and turns back below 0, mirrored at 0.
pub open spec fn mouth_next(angle: int, closing: bool) -> (int, bool) {
    if closing {
        if angle + 5 > 45 {
            (45 - (angle + 5 - 45), false)
        } else {
            (angle + 5, true)
        }
    } else {
        if angle - 5 < 0 {
            (5 - angle, true)
        } else {
            (angle - 5, false)
        }
    }
}

/// Squared Euclidean distance between two points.
pub open spec fn sq_dist(ax: int, ay: int, bx: int, by: int) -> int {
    (ax - bx) * (ax - bx) + (ay - by) * (ay - by)
}

/// -1, 0 or 1 as `v` is negative, zero or positive.
pub open spec fn sign(v: int) -> int {
    if v < 0 { -1 } else if v == 0 { 0 } else { 1 }
}

/// The id of the enemy in slot `index`: the slot plus one, cast to `i32` (a
/// slot past `i32::MAX - 1` wraps, as the cast does).
pub open spec fn slot_id(index: int) -> i32 {
    (index + 1) as i32
}

/// What a freshly spawned enemy at index `index` looks like: inside the
/// board, heading anywhere but down-right, its id the index plus one, its
/// mouth opened less than 45 degrees, and nothing eaten yet.
pub open spec fn spawned(p: Pacman, index: int) -> bool {
    &&& 0 <= p.x < WINDOW_WIDTH
    &&& 0 <= p.y < WINDOW_HEIGHT
    &&& p.direction != Direction::DOWNRIGHT
    &&& p.id == slot_id(index)
    &&& 0 <= p.mouth_angle < 45
    &&& p.pacmen_eaten == 0
}

/// Every enemy's id is its index plus one.
pub open spec fn ids_in_order(enemies: Seq<Pacman>) -> bool {
    forall|i: int| 0 <= i < enemies.len() ==> #[trigger] enemies[i].id == i + 1
}

impl Pacman {
    /// The player at the start: centre of the board, heading right, yellow,
    /// id 0, mouth shut and about to close.
    pub fn new_player() -> (p: Pacman)
        ensures
            p.x == 400 && p.y == 300,
            p.direction == Direction::RIGHT,
            p.color == (Rgb { r: 255, g: 255, b: 0 }),
            p.id == 0,
            p.mouth_closing,
            p.mouth_angle == 0,
            p.pacmen_eaten == 0,
    {
        Pacman {
            x: 400,
            y: 300,
            direction: Direction::RIGHT,
            color: Rgb { r: 255, g: 255, b: 0 },
            id: 0,
            mouth_closing: true,
            mouth_angle: 0,
            pacmen_eaten: 0,
        }
    }

    /// One frame of the mouth animation; nothing else changes.
    pub fn animate_mouth(&mut self)
        requires
            !old(self).mouth_closing ==> i32::MIN + 5 < old(self).mouth_angle,
        ensures
            (final(self).mouth_angle as int, final(self).mouth_closing)
                == mouth_next(old(self).mouth_angle as int, old(self).mouth_closing),
            final(self).x == old(self).x,
            final(self).y == old(self).y,
            final(self).direction == old(self).direction,
            final(self).color == old(self).color,
            final(self).id == old(self).id,
            final(self).pacmen_eaten == old(self).pacmen_eaten,
            0 <= old(self).mouth_angle <= 45 ==> 0 <= final(self).mouth_angle <= 45,
    {
        if self.mouth_closing {
            if self.mouth_angle > 40 {
                self.mouth_closing = false;
                self.mouth_angle = 85 - self.mouth_angle;
            } else {
                self.mouth_angle = self.mouth_angle + 5;
            }
        } else {
            if self.mouth_angle < 5 {
                self.mouth_closing = true;
                self.mouth_angle = 5 - self.mouth_angle;
            } else {
                self.mouth_angle = self.mouth_angle - 5;
            }
        }
    }

    /// One step along the heading; nothing else changes.
    pub fn move_pacman(&mut self)
        requires
            i32::MIN <= old(self).x + dx(old(self).direction) <= i32::MAX,
            i32::MIN <= old(self).y + dy(old(self).direction) <= i32::MAX,
        ensures
            final(self).x == old(self).x + dx(old(self).direction),
            final(self).y == old(self).y + dy(old(self).direction),
            final(self).direction == old(self).direction,
            final(self).color == old(self).color,
            final(self).id == old(self).id,
            final(self).mouth_angle == old(self).mouth_angle,
            final(self).mouth_closing == old(self).mouth_closing,
            final(self).pacmen_eaten == old(self).pacmen_eaten,
    {
        match self.direction {
            Direction::RIGHT => { self.x = self.x + 1 },
            Direction::LEFT => { self.x = self.x - 1 },
            Direction::UP => { self.y = self.y - 1 },
            Direction::UPRIGHT => {
                self.y = self.y - 1;
                self.x = self.x + 1
            },
            Direction::UPLEFT => {
                self.y = self.y - 1;
                self.x = self.x - 1
            },
            Direction::DOWN => { self.y = self.y + 1 },
            Direction::DOWNLEFT => {
                self.y = self.y + 1;
                self.x = self.x - 1
            },
            Direction::DOWNRIGHT => {
                self.y = self.y + 1;
                self.x = self.x + 1
            },
        }
    }

    /// Turns toward `target`: the new heading's steps are the signs of the
    /// offsets to the target in each axis. On the target itself the heading
    /// is kept. Nothing else changes.
    pub fn steer_toward(&mut self, target: &Pacman)
        ensures
            final(self).direction == (match heading_of(
                sign(target.x - old(self).x),
                sign(target.y - old(self).y),
            ) {
                Some(d) => d,
                None => old(self).direction,
            }),
            final(self).x == old(self).x,
            final(self).y == old(self).y,
            final(self).color == old(self).color,
            final(self).id == old(self).id,
            final(self).mouth_angle == old(self).mouth_angle,
            final(self).mouth_closing == old(self).mouth_closing,
            final(self).pacmen_eaten == old(self).pacmen_eaten,
    {
        if target.x < self.x {
            if target.y < self.y {
                self.direction = Direction::UPLEFT;
            } else if target.y == self.y {
                self.direction = Direction::LEFT;
            } else {
                self.direction = Direction::DOWNLEFT;
            }
        } else if target.x == self.x {
            if target.y < self.y {
                self.direction = Direction::UP;
            } else if target.y == self.y {
            } else {
                self.direction = Direction::DOWN;
            }
        } else {
            if target.y < self.y {
                self.direction = Direction::UPRIGHT;
            } else if target.y == self.y {
                self.direction = Direction::RIGHT;
            } else {
                self.direction = Direction::DOWNRIGHT;
            }
        }
    }

    /// Turns toward the enemy whose id is `target_id`, found in slot
    /// `target_id - 1`; when the ids are in order that slot holds exactly
    /// that enemy.
    pub fn chase(&mut self, enemies: &Vec<Pacman>, target_id: i32)
        requires
            1 <= target_id <= enemies.len(),
        ensures
            ids_in_order(enemies@) ==> enemies@[target_id - 1].id == target_id,
            final(self).direction == (match heading_of(
                sign(enemies@[target_id - 1].x - old(self).x),
                sign(enemies@[target_id - 1].y - old(self).y),
            ) {
                Some(d) => d,
                None => old(self).direction,
            }),
            final(self).x == old(self).x,
            final(self).y == old(self).y,
            final(self).color == old(self).color,
            final(self).id == old(self).id,
            final(self).mouth_angle == old(self).mouth_angle,
            final(self).mouth_closing == old(self).mouth_closing,
            final(self).pacmen_eaten == old(self).pacmen_eaten,
    {
        let index: usize = (target_id - 1) as usize;
        let target = enemies[index];
        self.steer_toward(&target);
    }

    /// Counts one more eaten chomper.
    pub fn record_meal(&mut self)
        requires
            old(self).pacmen_eaten < i32::MAX,
        ensures
            final(self).pacmen_eaten == old(self).pacmen_eaten + 1,
            final(self).x == old(self).x,
            final(self).y == old(self).y,
            final(self).direction == old(self).direction,
            final(self).color == old(self).color,
            final(self).id == old(self).id,
            final(self).mouth_angle == old(self).mouth_angle,
            final(self).mouth_closing == old(self).mouth_closing,
    {
        self.pacmen_eaten = self.pacmen_eaten + 1;
    }
}

/// The squared distance between two points, in `i32` as the game computes it.
pub fn squared_distance(ax: i32, ay: i32, bx: i32, by: i32) -> (d: i32)
    requires
        i32::MIN <= ax - bx <= i32::MAX,
        i32::MIN <= ay - by <= i32::MAX,
        sq_dist(ax as int, ay as int, bx as int, by as int) <= i32::MAX,
    ensures
        d == sq_dist(ax as int, ay as int, bx as int, by as int),
{
    let ddx: i32 = ax - bx;
    let ddy: i32 = ay - by;
    assert(0 <= ddx * ddx && 0 <= ddy * ddy) by (nonlinear_arith);
    let sx: i32 = ddx * ddx;
    let sy: i32 = ddy * ddy;
    sx + sy
}

/// The enemy for slot `index` made of drawn values: the position (`x`, `y`),
/// the heading (which must be there), the colour, whether the mouth starts
/// out closing and its opening; nothing eaten yet.
pub fn enemy_from_draws(
    index: usize,
    x: u32,
    y: u32,
    direction: Option<Direction>,
    color: Rgb,
    mouth_closing: bool,
    mouth_angle: i32,
) -> (p: Pacman)
    requires
        index < usize::MAX,
        direction is Some,
    ensures
        p == (Pacman {
            x: x as i32,
            y: y as i32,
            direction: direction->0,
            color,
            id: slot_id(index as int),
            mouth_angle,
            mouth_closing,
            pacmen_eaten: 0,
        }),
{
    let id: i32 = #[verifier::truncate] ((index + 1) as i32);
    Pacman {
        x: #[verifier::truncate] (x as i32),
        y: #[verifier::truncate] (y as i32),
        direction: direction.unwrap(),
        color,
        id,
        mouth_closing,
        mouth_angle,
        pacmen_eaten: 0,
    }
}

/// A new enemy for slot `index`, at a random place on the board with a random
/// heading, colour, mouth and mouth motion, drawn in that order.
pub fn spawn_enemy(rng: &mut ThreadRng, index: usize) -> (p: Pacman)
    requires
        index < usize::MAX,
    ensures
        spawned(p, index as int),
{
    let x = gen_range_u32(rng, 0, WINDOW_WIDTH);
    let y = gen_range_u32(rng, 0, WINDOW_HEIGHT);
    let direction = random_direction(rng);
    let color = random_color(rng);
    let mouth_closing = random_bool();
    let mouth_angle = random_angle(rng);
    enemy_from_draws(index, x, y, direction, color, mouth_closing, mouth_angle)
}

/// A slot below `i32::MAX` gets the id slot plus one, without wrapping.
pub proof fn lemma_slot_id_small(index: int)
    requires
        0 <= index < i32::MAX,
    ensures
        slot_id(index) == index + 1,
{
}

/// `n` freshly spawned enemies, the one at index `i` spawned for slot `i`;
/// with at most `i32::MAX` of them, their ids are in order.
pub fn spawn_enemies(rng: &mut ThreadRng, n: usize) -> (enemies: Vec<Pacman>)
    ensures
        enemies.len() == n,
        forall|i: int| 0 <= i < n ==> spawned(#[trigger] enemies@[i], i),
        n <= i32::MAX ==> ids_in_order(enemies@),
{
    let mut enemies: Vec<Pacman> = Vec::new();
    for i in 0..n
        invariant
            enemies.len() == i,
            forall|j: int| 0 <= j < i ==> spawned(#[trigger] enemies@[j], j),
    {
        let p = spawn_enemy(rng, i);
        enemies.push(p);
    }
    proof {
        if n <= i32::MAX {
            assert forall|i: int| 0 <= i < enemies@.len() implies #[trigger] enemies@[i].id == i + 1 by {
                assert(spawned(enemies@[i], i));
                lemma_slot_id_small(i);
            }
        }
    }
    enemies
}

/// Replaces the enemy in slot `index` by a fresh one; the others stay. Ids
/// that were in order stay in order.
pub fn respawn(enemies: &mut Vec<Pacman>, rng: &mut ThreadRng, index: usize)
    requires
        index < old(enemies).len(),
    ensures
        final(enemies).len() == old(enemies).len(),
        spawned(final(enemies)@[index as int], index as int),
        forall|i: int| 0 <= i < old(enemies).len() && i != index ==> #[trigger] final(enemies)@[i] == old(enemies)@[i],
        ids_in_order(old(enemies)@) ==> ids_in_order(final(enemies)@),
{
    let ghost before = enemies@;
    let p = spawn_enemy(rng, index);
    enemies.set(index, p);
    proof {
        if ids_in_order(before) {
            assert(before[index as int].id == index + 1);
            lemma_slot_id_small(index as int);
        }
    }
}

impl Pacman {
    /// The player eats the enemy in slot `index`: one more meal is counted and
    /// the slot gets a fresh enemy. The player's other fields stay, the other
    /// slots stay, and ids that were in order stay in order.
    pub fn eat(&mut self, enemies: &mut Vec<Pacman>, rng: &mut ThreadRng, index: usize)
        requires
            old(self).pacmen_eaten < i32::MAX,
            index < old(enemies).len(),
        ensures
            *final(self) == (Pacman { pacmen_eaten: (old(self).pacmen_eaten + 1) as i32, ..*old(self) }),
            final(enemies).len() == old(enemies).len(),
            spawned(final(enemies)@[index as int], index as int),
            forall|i: int| 0 <= i < old(enemies).len() && i != index ==> #[trigger] final(enemies)@[i] == old(enemies)@[i],
            ids_in_order(old(enemies)@) ==> ids_in_order(final(enemies)@),
    {
        self.record_meal();
        respawn(enemies, rng, index);
    }
}

/// The mouth travels 5 degrees every frame, for every angle: a closing mouth
/// at most 40 degrees open widens by 5, an opening mouth at least 5 degrees
/// open narrows by 5, and a mouth that would pass 45 (or 0) turns there, its
/// travel to the turning point and back adding up to 5.
pub proof fn lemma_mouth_travels_five(a: int, closing: bool)
    ensures
        closing && a <= 40 ==> mouth_next(a, closing) == (a + 5, true),
        !closing && a >= 5 ==> mouth_next(a, closing) == (a - 5, false),
        closing && a > 40 ==> {
            &&& (45 - a) + (45 - mouth_next(a, closing).0) == 5
            &&& !mouth_next(a, closing).1
        },
        !closing && a < 5 ==> {
            &&& a + mouth_next(a, closing).0 == 5
            &&& mouth_next(a, closing).1
        },
{
}

/// A chaser that is not yet on its target and steps once along the heading
/// that `steer_toward` picks gets strictly closer to the target: the heading's
/// steps are the signs of the offsets, so each offset shrinks by one toward 0.
pub proof fn lemma_steer_then_move_closer(x: int, y: int, tx: int, ty: int)
    requires
        x != tx || y != ty,
    ensures
        heading_of(sign(tx - x), sign(ty - y)) is Some,
        ({
            let d = heading_of(sign(tx - x), sign(ty - y))->0;
            &&& dx(d) == sign(tx - x)
            &&& dy(d) == sign(ty - y)
            &&& sq_dist(x + dx(d), y + dy(d), tx, ty) < sq_dist(x, y, tx, ty)
        }),
{
    let d = heading_of(sign(tx - x), sign(ty - y))->0;
    let ox = x - tx;
    let oy = y - ty;
    let sx = sign(tx - x);
    let sy = sign(ty - y);
    assert((ox + sx) * (ox + sx) <= ox * ox) by (nonlinear_arith)
        requires
            sx == (if ox > 0 { -1int } else if ox == 0 { 0int } else { 1int }),
    ;
    assert((oy + sy) * (oy + sy) <= oy * oy) by (nonlinear_arith)
        requires
            sy == (if oy > 0 { -1int } else if oy == 0 { 0int } else { 1int }),
    ;
    assert(ox != 0 ==> (ox + sx) * (ox + sx) < ox * ox) by (nonlinear_arith)
        requires
            sx == (if ox > 0 { -1int } else if ox == 0 { 0int } else { 1int }),
    ;
    assert(oy != 0 ==> (oy + sy) * (oy + sy) < oy * oy) by (nonlinear_arith)
        requires
            sy == (if oy > 0 { -1int } else if oy == 0 { 0int } else { 1int }),
    ;
    assert(x + dx(d) - tx == ox + sx);
    assert(y + dy(d) - ty == oy + sy);
}

} // verus!
