//! Runs every listing once, in order, and collects what each of them observed.

use vstd::prelude::*;
use crate::aliasing::{listing_1_4, listing_1_5};
use crate::flows::{
    listing_1_1, listing_1_2, listing_1_6, listing_1_8, Flows, NestedWrite, Rebinding,
    SplitLifetime,
};
use crate::moves::{listing_1_3, listing_1_7, MoveAndCopy};

verus! {

/// What the listings observed during one run, in the order in which they ran.
#[derive(Clone, Copy, Debug, PartialEq, Eq)]
pub struct Observations {
    /// Rebinding a shared reference.
    pub rebinding: Rebinding,
    /// The two flows from one variable.
    pub flows: Flows,
    /// A scalar and a box around their stay in a tuple.
    pub move_and_copy: MoveAndCopy,
    /// The cached double.
    pub sum: i32,
    /// The output of the two guarded writes.
    pub outp: i32,
    /// A write through a reference to a reference.
    pub nested_write: NestedWrite,
    /// What the variable holds after its box was replaced.
    pub s: i32,
    /// The boxed value along the branch taken for an input of 1.
    pub split_lifetime: SplitLifetime,
}

/// Runs the eight listings in order, the last one on an input of 1.
///
/// Every listing builds its own values and shares nothing with the others, so
/// each observes in this run exactly what it observes when it runs alone.
pub fn run_all() -> (seen: Observations)
    ensures
        seen.rebinding == (Rebinding { var2_before: 42, var1_after: 42, var2_after: 43 }),
        seen.flows == (Flows { y: 42, y2: 42, x: 43 }),
        seen.move_and_copy == (MoveAndCopy { z_scalar: 42, z_boxed: 84, x2: 42 }),
        seen.sum == 6,
        seen.outp == 3,
        seen.nested_write == (NestedWrite { z_before: 42, z_after: 23, x: 42 }),
        seen.s == 84,
        seen.split_lifetime == (SplitLifetime { shown: Some((42i32, 42i32)), x: 42 }),
{
    let rebinding = listing_1_1();
    let flows = listing_1_2();
    let move_and_copy = listing_1_3();
    let sum: i32 = listing_1_4();
    let outp: i32 = listing_1_5();
    let nested_write = listing_1_6();
    let s: i32 = listing_1_7();
    let split_lifetime = listing_1_8(1);
    Observations { rebinding, flows, move_and_copy, sum, outp, nested_write, s, split_lifetime }
}

} // verus!
