use chapter1::aliasing::{listing_1_4, listing_1_5};
use chapter1::demonstrator::{run_all, Observations};
use chapter1::flows::{
    listing_1_1, listing_1_2, listing_1_6, listing_1_8, Flows, NestedWrite, Rebinding,
    SplitLifetime,
};
use chapter1::moves::{listing_1_3, listing_1_7, MoveAndCopy};

#[test]
fn a_run_observes_every_listing() {
    let seen = run_all();
    let expected = Observations {
        rebinding: Rebinding { var2_before: 42, var1_after: 42, var2_after: 43 },
        flows: Flows { y: 42, y2: 42, x: 43 },
        move_and_copy: MoveAndCopy { z_scalar: 42, z_boxed: 84, x2: 42 },
        sum: 6,
        outp: 3,
        nested_write: NestedWrite { z_before: 42, z_after: 23, x: 42 },
        s: 84,
        split_lifetime: SplitLifetime { shown: Some((42, 42)), x: 42 },
    };
    assert_eq!(seen, expected);
}

#[test]
fn a_run_observes_what_each_listing_observes_alone() {
    let seen = run_all();
    assert_eq!(seen.rebinding, listing_1_1());
    assert_eq!(seen.flows, listing_1_2());
    assert_eq!(seen.move_and_copy, listing_1_3());
    assert_eq!(seen.sum, listing_1_4());
    assert_eq!(seen.outp, listing_1_5());
    assert_eq!(seen.nested_write, listing_1_6());
    assert_eq!(seen.s, listing_1_7());
    assert_eq!(seen.split_lifetime, listing_1_8(1));
}

#[test]
fn two_runs_observe_the_same() {
    let first = run_all();
    let second = run_all();
    assert_eq!(first, second);
}

#[test]
fn listings_do_not_depend_on_their_order() {
    let last = listing_1_8(1);
    let s = listing_1_7();
    let nested_write = listing_1_6();
    let outp = listing_1_5();
    let sum = listing_1_4();
    let move_and_copy = listing_1_3();
    let flows = listing_1_2();
    let rebinding = listing_1_1();
    let backwards = Observations {
        rebinding,
        flows,
        move_and_copy,
        sum,
        outp,
        nested_write,
        s,
        split_lifetime: last,
    };
    assert_eq!(backwards, run_all());
}

#[test]
fn a_listing_is_not_changed_by_one_that_ran_before() {
    let before = listing_1_8(9);
    assert_eq!(before.x, 84);
    assert_eq!(listing_1_7(), 84);
    assert_eq!(listing_1_8(1).x, 42);
    assert_eq!(listing_1_3().z_boxed, 84);
}
