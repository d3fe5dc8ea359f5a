//! The one source of randomness the simulation uses. Nothing is assumed
//! about which value comes back: every caller handles every outcome.

use vstd::prelude::*;

verus! {

/// Relies on rand::random: draws a value of the standard distribution.
/// No clause constrains the result; callers are verified for every value.
pub assume_specification<T>[ rand::random::<T> ]() -> (r: T)
    where
        rand::distr::StandardUniform: rand::distr::Distribution<T>,
;

} // verus!
