//! The arithmetic of the example that lists the dogs of a daycare with
//! their age in human years.

use vstd::prelude::*;

verus! {

/// How many human years one year of a dog counts for.
pub const HUMAN_YEARS_PER_DOG_YEAR: i32 = 7;

/// The age of a dog in human years.
pub fn human_age(dog_age: i32) -> (years: i32)
    requires
        i32::MIN <= dog_age * HUMAN_YEARS_PER_DOG_YEAR <= i32::MAX,
    ensures
        years == dog_age * HUMAN_YEARS_PER_DOG_YEAR,
{
    dog_age * HUMAN_YEARS_PER_DOG_YEAR
}

/// The age of a dog in human years, where it can be told in 32 bits.
pub fn checked_human_age(dog_age: i32) -> (years: Option<i32>)
    ensures
        years == if i32::MIN <= dog_age * HUMAN_YEARS_PER_DOG_YEAR <= i32::MAX {
            Some((dog_age * HUMAN_YEARS_PER_DOG_YEAR) as i32)
        } else {
            None
        },
{
    if dog_age <= i32::MAX / HUMAN_YEARS_PER_DOG_YEAR && dog_age >= i32::MIN / HUMAN_YEARS_PER_DOG_YEAR {
        Some(human_age(dog_age))
    } else {
        None
    }
}

} // verus!
