//! The one place the library draws randomness: the process generator of
//! the `rand` crate, behind a single trusted declaration. Nothing is
//! promised of a drawn value; everything derived from one is computed and
//! proved in ordinary verified code.

use vstd::prelude::*;

verus! {

use crate::fx::SCALE;
use vstd::arithmetic::div_mod::lemma_mod_bound;

/// Relies on rand::random: a value drawn from the process generator.
/// Nothing can be promised of it, so this declaration has no contract.
pub assume_specification<T>[ rand::random::<T> ]() -> (r: T)
    where
        rand::distributions::Standard: rand::distributions::Distribution<T>,
;

/// A drawn value reduced into `[0, bound]`.
pub fn rand_below(bound: u64) -> (r: u64)
    requires
        bound < 0xffff_ffff_ffff_ffff,
    ensures
        r <= bound,
{
    let x: u64 = rand::random::<u64>();
    proof {
        lemma_mod_bound(x as int, bound + 1 as int);
    }
    x % (bound + 1)
}

/// A drawn fixed-point value in `[0, 1]`: the unit draw the control
/// sources build their jitter from.
pub fn rand_unit_fx() -> (r: i64)
    ensures
        0 <= r <= SCALE,
{
    let x: u64 = rand_below(65536);
    x as i64
}

/// A drawn fixed-point value in `[-spread, spread]`, centered on zero.
pub fn rand_centered_fx(spread: i64) -> (r: i64)
    requires
        0 <= spread <= 0x7fff_ffff_ffff,
    ensures
        -spread <= r <= spread,
{
    let x: u64 = rand_below((2 * spread) as u64);
    (x as i64) - spread
}

} // verus!
