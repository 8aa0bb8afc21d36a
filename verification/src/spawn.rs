//! Randomized parameters for a newly spawned cube, and the cube itself.
//!
//! A spawn draws a color (three random bytes) and a drop point on a disc
//! (a random angle and a random radius). The angle and radius are carried as
//! 32-bit fixed-point fractions of a full turn and of the maximum radius; the
//! host maps them to world coordinates.

use crate::scene::{Cube, SPAWN_Y_MILLI};
use vstd::prelude::*;

verus! {

/// Relies on rand::random: draws a value of `T` from thread-local entropy.
/// Nothing is promised of the value.
pub assume_specification<T>[ rand::random::<T> ]() -> (r: T)
    where
        rand::distr::StandardUniform: rand::distr::Distribution<T>,
;

/// An sRGB color with 8-bit channels.
#[derive(Clone, Copy, PartialEq, Eq, Structural)]
pub struct CubeColor {
    pub red: u8,
    pub green: u8,
    pub blue: u8,
}

/// The randomized parameters of one spawn: the cube's color and its drop
/// point on a horizontal disc, given as fractions (numerator over `u32::MAX`)
/// of a full turn and of the scene's maximum spawn radius.
#[derive(Clone, Copy, PartialEq, Eq, Structural)]
pub struct SpawnSeed {
    pub color: CubeColor,
    pub angle_frac: u32,
    pub radius_frac: u32,
}

/// A color with each channel drawn at random.
pub fn random_color() -> CubeColor {
    CubeColor { red: rand::random::<u8>(), green: rand::random::<u8>(), blue: rand::random::<u8>() }
}

/// The parameters of one spawn, all drawn at random.
pub fn random_spawn_seed() -> SpawnSeed {
    SpawnSeed {
        color: random_color(),
        angle_frac: rand::random::<u32>(),
        radius_frac: rand::random::<u32>(),
    }
}

/// The cube that a spawn puts into the scene: it starts at the spawn height,
/// which lies strictly above the culling threshold, so a fresh cube is
/// visible and is not a despawn target.
pub fn spawned_cube(id: u64) -> (r: Cube)
    ensures
        r.id == id,
        r.y_milli == SPAWN_Y_MILLI,
        crate::scene::is_visible(r),
        !crate::scene::is_fallen(r),
{
    Cube { id, y_milli: SPAWN_Y_MILLI }
}

} // verus!
