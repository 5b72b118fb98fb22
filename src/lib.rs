//! # Crates IO
//!
//! `cratesio` is a collection of utilities to make performing certain
//! calculations more convenient.
use vstd::prelude::*;

verus! {

/// The successor of `x` in the mathematical integers.
pub open spec fn successor(x: int) -> int {
    x + 1
}

/// Adds one to the number given.
///
/// The result is exact: the input must leave room for one more, so
/// `i32::MAX` is not accepted. For example, `add_one(5)` is `6`.
pub fn add_one(x: i32) -> (r: i32)
    requires
        x < i32::MAX,
    ensures
        r as int == successor(x as int),
{
    x + 1
}

/// Adding one is not idempotent: applying it twice never gives the same
/// value as applying it once.
pub proof fn lemma_add_one_not_idempotent(x: i32)
    requires
        x < i32::MAX - 1,
    ensures
        successor(x as int) < i32::MAX,
        successor(successor(x as int)) != successor(x as int),
{
}

} // verus!
