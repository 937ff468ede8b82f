//! Moving, copying, and taking a value out from behind an exclusive reference.

use vstd::prelude::*;

verus! {

/// What is read of a scalar and a boxed value around their stay in a tuple.
#[derive(Clone, Copy, Debug, PartialEq, Eq)]
pub struct MoveAndCopy {
    /// The tuple's first field, which holds a copy of the scalar.
    pub z_scalar: i32,
    /// What the tuple's second field, the box that was moved into it, holds.
    pub z_boxed: i32,
    /// The scalar, read from its own variable after the tuple is dropped.
    pub x2: i32,
}

/// Specification of `core::mem::take`, which is believed and not proved: the
/// call returns the value that was behind `dest`, and leaves behind `dest` a
/// value that `T::default()` returns.
pub assume_specification<T: Default>[ core::mem::take::<T> ](dest: &mut T) -> (was: T)
    ensures
        was == *old(dest),
        T::default.ensures((), *final(dest)),
;

/// An `i32` is `Copy`, a `Box` is not: building a tuple from one of each copies
/// the integer and moves the box. When the tuple is dropped, the box goes with
/// it, and its variable cannot be used again; the integer's variable still
/// holds its value.
pub fn listing_1_3() -> (seen: MoveAndCopy)
    ensures
        seen.z_scalar == 42,
        seen.z_boxed == 84,
        seen.x2 == 42,
{
    let x1: i32 = 42;
    let y1: Box<i32> = Box::new(84);
    let z_scalar: i32;
    let z_boxed: i32;
    {
        let z = (x1, y1);
        z_scalar = z.0;
        z_boxed = *z.1;
    }
    let x2: i32 = x1;
    MoveAndCopy { z_scalar, z_boxed, x2 }
}

/// Puts a box that holds 84 behind `s` and returns the box that was there.
///
/// A value cannot simply be moved out from behind an exclusive reference, as
/// that would leave nothing behind it. It can be taken, which leaves the
/// default value; the place can be assigned to, which drops what was there;
/// and it can be swapped with another owned value.
///
/// The box behind `s` must not hold 84 already.
pub fn replace_with_84(s: &mut Box<i32>) -> (r: Box<i32>)
    requires
        **old(s) != 84,
    ensures
        **final(s) == 84,
        *r == **old(s),
        *r != 84,
{
    let was = std::mem::take(s);
    assert(**s == 0);
    *s = was;
    let mut r: Box<i32> = Box::new(84);
    std::mem::swap(s, &mut r);
    assert(*r != 84);
    r
}

/// Replaces a box that holds 42 and returns what the variable holds afterwards.
pub fn listing_1_7() -> (s: i32)
    ensures
        s == 84,
{
    let mut s: Box<i32> = Box::new(42);
    let _ = replace_with_84(&mut s);
    *s
}

} // verus!
