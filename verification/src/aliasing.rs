//! What a function may assume of a shared and an exclusive reference that it is
//! handed together: the shared one is never written through, and the exclusive
//! one is the only way to its target, so the two cannot name the same memory.

use vstd::prelude::*;

verus! {

/// Whether the first of the two guarded writes in [`noalias`] is performed.
pub open spec fn first_write_fires(input: i32) -> bool {
    input == 1
}

/// Whether the second of the two guarded writes in [`noalias`] is performed.
pub open spec fn second_write_fires(input: i32) -> bool {
    input != 1
}

/// The output after the first guarded write, given the output before it.
pub open spec fn after_first_write(input: i32, output: i32) -> i32 {
    if first_write_fires(input) {
        2
    } else {
        output
    }
}

/// The output after the second guarded write, given the output before it.
pub open spec fn after_second_write(input: i32, output: i32) -> i32 {
    if second_write_fires(input) {
        3
    } else {
        output
    }
}

/// What [`noalias`] leaves in its output: 2 for an input of 1, and 3 for every
/// other input.
pub open spec fn noalias_output(input: i32) -> i32 {
    if input == 1 {
        2
    } else {
        3
    }
}

/// Stores twice the input in `sum`.
///
/// The input is read twice, once on each side of the addition. Because it sits
/// behind a shared reference, and `sum` behind an exclusive one, the write to
/// `sum` cannot change what the second read sees.
///
/// Twice the input has to fit in an `i32`.
pub fn cache(input: &i32, sum: &mut i32)
    requires
        i32::MIN <= 2 * *input <= i32::MAX,
    ensures
        *final(sum) == 2 * *input,
{
    *sum = *input + *input;
    assert(*sum == 2 * *input);
}

/// Caches the double of 3 and returns it.
pub fn listing_1_4() -> (sum: i32)
    ensures
        sum == 6,
{
    let x: i32 = 3;
    let mut sum: i32 = 0;
    cache(&x, &mut sum);
    sum
}

/// Writes 2 to the output if the input is 1, and 3 if it is not.
///
/// The two writes are guarded separately, and the input is read again for the
/// second guard after the first write. Since the output is behind an exclusive
/// reference, that write cannot have changed the input, so the two guards are
/// always decided on the same value.
pub fn noalias(input: &i32, output: &mut i32)
    ensures
        *final(output) == noalias_output(*input),
        *final(output) == after_second_write(*input, after_first_write(*input, *old(output))),
{
    if *input == 1 {
        *output = 2;
    }
    if *input != 1 {
        *output = 3;
    }
}

/// Runs [`noalias`] on an input of 3 and an output that starts at 0, and returns
/// the output.
pub fn listing_1_5() -> (outp: i32)
    ensures
        outp == 3,
{
    let inp: i32 = 3;
    let mut outp: i32 = 0;
    noalias(&inp, &mut outp);
    outp
}

/// For every input exactly one of the two guarded writes of [`noalias`] fires.
pub proof fn lemma_exactly_one_write_fires(input: i32)
    ensures
        first_write_fires(input) != second_write_fires(input),
{
}

/// The two guarded writes of [`noalias`], one after the other, leave 2 for an
/// input of 1 and 3 for any other input, whatever the output held before.
pub proof fn lemma_writes_decide_output(input: i32, before: i32)
    ensures
        after_second_write(input, after_first_write(input, before)) == noalias_output(input),
        input == 1 ==> noalias_output(input) == 2,
        input != 1 ==> noalias_output(input) == 3,
{
}

} // verus!
