use vstd::prelude::*;
use rand::rngs::ThreadRng;
use rand::Rng;
use crate::direction::{Direction, roll_direction, direction_of_roll};
use crate::pacman::Rgb;

verus! {

#[verifier::external_type_specification]
#[verifier::external_body]
pub struct ExThreadRng(ThreadRng);

/// `rand::Rng::gen_range` on the half-open `u32` range `low..high`. The rand
/// source panics on an empty range and otherwise returns a value of the
/// range; which one is left to chance, so only the bounds are stated.
#[verifier::external_body]
pub(crate) fn gen_range_u32(rng: &mut ThreadRng, low: u32, high: u32) -> (r: u32)
    requires
        low < high,
    ensures
        low <= r < high,
{
    rng.gen_range(low..high)
}

/// `rand::Rng::gen` for a `u8`: any byte may come back, so nothing is stated
/// of the result.
#[verifier::external_body]
fn gen_u8(rng: &mut ThreadRng) -> (r: u8) {
    rng.gen()
}

/// `rand::random` for a `bool`, drawn from the thread's own generator:
/// either value may come back, so nothing is stated of the result.
#[verifier::external_body]
pub(crate) fn random_bool() -> (r: bool) {
    rand::random()
}

/// A heading rolled with a die of faces 1 to 7: the roll never reaches 8, so
/// `DOWNRIGHT` is never chosen and the result is never `None`.
pub fn random_direction(rng: &mut ThreadRng) -> (res: Option<Direction>)
    ensures
        exists|roll: int| 1 <= roll < 8 && res == roll_direction(roll),
        res is Some,
        res != Some(Direction::DOWNRIGHT),
{
    let dir = gen_range_u32(rng, 1, 8);
    let dir: u8 = dir as u8;
    direction_of_roll(dir)
}

/// A colour whose three channels are independent random bytes.
pub fn random_color(rng: &mut ThreadRng) -> (c: Rgb) {
    let red: u8 = gen_u8(rng);
    let green: u8 = gen_u8(rng);
    let blue: u8 = gen_u8(rng);
    Rgb::rgb(red, green, blue)
}

/// A mouth opening, in whole degrees, drawn from `0..45`.
pub fn random_angle(rng: &mut ThreadRng) -> (a: i32)
    ensures
        0 <= a < 45,
{
    let a = gen_range_u32(rng, 0, 45);
    angle_of_draw(a)
}

/// The mouth opening, in whole degrees, that a drawn number stands for.
pub fn angle_of_draw(k: u32) -> (a: i32)
    ensures
        a == k as i32,
{
    #[verifier::truncate] (k as i32)
}

} // verus!
