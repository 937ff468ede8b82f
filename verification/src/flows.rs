//! Values, variables and the flows that references draw between them.

use vstd::prelude::*;

verus! {

/// What two shared references read while one of them is rebound.
#[derive(Clone, Copy, Debug, PartialEq, Eq)]
pub struct Rebinding {
    /// Read through `var2` while it still borrows the first value.
    pub var2_before: i32,
    /// Read through `var1` after `var2` has been rebound.
    pub var1_after: i32,
    /// Read through `var2` after it has been rebound to the second value.
    pub var2_after: i32,
}

/// What is read along the two flows that start at one variable.
#[derive(Clone, Copy, Debug, PartialEq, Eq)]
pub struct Flows {
    /// Read through the first shared reference, before the variable is reassigned.
    pub y: i32,
    /// Read through the second shared reference, before the variable is reassigned.
    pub y2: i32,
    /// Read from the variable itself, after it is reassigned.
    pub x: i32,
}

/// What is read around a write through a reference to a reference.
#[derive(Clone, Copy, Debug, PartialEq, Eq)]
pub struct NestedWrite {
    /// Read through both levels before the inner reference is replaced.
    pub z_before: i32,
    /// Read through both levels after the inner reference is replaced.
    pub z_after: i32,
    /// The value that the inner reference pointed to at first, read at the end.
    pub x: i32,
}

/// What is observed of a boxed value along the two branches of a lifetime.
#[derive(Clone, Copy, Debug, PartialEq, Eq)]
pub struct SplitLifetime {
    /// What the two shared references read, on the branch that keeps them alive.
    pub shown: Option<(i32, i32)>,
    /// The boxed value at the end.
    pub x: i32,
}

/// A variable that holds a shared reference can be pointed at another value;
/// the value it pointed at before, and other references to it, stay as they
/// were.
pub fn listing_1_1() -> (seen: Rebinding)
    ensures
        seen.var2_before == 42,
        seen.var1_after == 42,
        seen.var2_after == 43,
{
    let x: i32 = 42;
    let y: i32 = 43;
    let var1 = &x;
    let mut var2 = &x;
    let var2_before: i32 = *var2;
    var2 = &y;
    Rebinding { var2_before, var1_after: *var1, var2_after: *var2 }
}

/// Two shared references draw a flow from the first assignment to a variable;
/// assigning to the variable again starts a second, exclusive flow.
///
/// Nothing can be read before the first assignment, because there is no value
/// to draw a flow from. After the second assignment the two references are
/// never read again: their flow would conflict with that assignment.
pub fn listing_1_2() -> (seen: Flows)
    ensures
        seen.y == 42,
        seen.y2 == 42,
        seen.x == 43,
{
    let mut x: i32;
    x = 42;
    let y = &x;
    let y2 = &x;
    let seen_y: i32 = *y;
    let seen_y2: i32 = *y2;
    assert(*y == 42);
    assert(*y2 == 42);
    x = 43;
    assert(x == 43);
    Flows { y: seen_y, y2: seen_y2, x }
}

/// Mutability reaches only the memory that is referenced directly: through a
/// `&mut &i32` the inner reference can be replaced, while the integer that it
/// pointed to cannot be written and keeps its value.
pub fn listing_1_6() -> (seen: NestedWrite)
    ensures
        seen.z_before == 42,
        seen.z_after == 23,
        seen.x == 42,
{
    let x: i32 = 42;
    let mut y = &x;
    let z = &mut y;
    let z_before: i32 = **z;
    let x1: i32 = 23;
    *z = &x1;
    let z_after: i32 = **z;
    NestedWrite { z_before, z_after, x }
}

/// A lifetime need not be contiguous: two shared references to a boxed value
/// are alive on the branch that reads them, and not on the branch that writes
/// to the box, which therefore never reads them afterwards.
pub fn listing_1_8(input: i32) -> (seen: SplitLifetime)
    ensures
        input > 5 ==> seen.shown.is_none() && seen.x == 84,
        input <= 5 ==> seen.shown == Some((42i32, 42i32)) && seen.x == 42,
{
    let mut x: Box<i32> = Box::new(42);
    let r = &x;
    let r2 = &x;
    if input > 5 {
        *x = 84;
        SplitLifetime { shown: None, x: *x }
    } else {
        let shown: (i32, i32) = (**r, **r2);
        SplitLifetime { shown: Some(shown), x: *x }
    }
}

} // verus!
