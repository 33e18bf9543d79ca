//! Advancing a position by repeated application of a step function.
//!
//! A step function maps the active equation, the step-size exponent and a
//! position to the next position. It is handed in by the caller, and this
//! module knows of it only what its contract says: a relation between a
//! position and the positions that one call may return for it.

use crate::config::Equation;
use vstd::prelude::*;

verus! {

/// What one call of `step` may return for a position, for a fixed equation
/// and step-size exponent.
pub open spec fn one_step<P, F: Fn(Equation, i32, &P) -> P>(
    step: F,
    equation: Equation,
    exponent_tenths: i32,
) -> spec_fn(P, P) -> bool {
    |from: P, to: P| step.ensures((equation, exponent_tenths, &from), to)
}

/// `to` is reached from `from` by `n` steps of `relation` in sequence.
pub open spec fn reached<P>(relation: spec_fn(P, P) -> bool, from: P, n: nat, to: P) -> bool
    decreases n,
{
    if n == 0 {
        to == from
    } else {
        exists|mid: P| reached(relation, from, (n - 1) as nat, mid) && #[trigger] relation(mid, to)
    }
}

/// `to` is reached from `from` by `n` applications of `step` in sequence,
/// each for the same equation and the same step-size exponent.
pub open spec fn advanced<P, F: Fn(Equation, i32, &P) -> P>(
    step: F,
    equation: Equation,
    exponent_tenths: i32,
    from: P,
    n: nat,
    to: P,
) -> bool {
    reached(one_step(step, equation, exponent_tenths), from, n, to)
}

/// Applies `step` to `position` `steps` times in sequence, each time with the
/// same equation and exponent. With `steps == 0` the position stays as it
/// is.
pub fn advance<P, F: Fn(Equation, i32, &P) -> P>(
    step: &F,
    equation: Equation,
    exponent_tenths: i32,
    position: &mut P,
    steps: u8,
)
    requires
        forall|p: P| step.requires((equation, exponent_tenths, &p)),
    ensures
        advanced(*step, equation, exponent_tenths, *old(position), steps as nat, *final(position)),
        steps == 0 ==> *final(position) == *old(position),
{
    let ghost relation = one_step(*step, equation, exponent_tenths);
    let mut done: u8 = 0;
    while done < steps
        invariant
            done <= steps,
            relation == one_step(*step, equation, exponent_tenths),
            forall|p: P| step.requires((equation, exponent_tenths, &p)),
            reached(relation, *old(position), done as nat, *position),
        decreases steps - done,
    {
        let ghost before = *position;
        let next = step(equation, exponent_tenths, &*position);
        *position = next;
        proof {
            assert(relation(before, *position));
            reached_extend(relation, *old(position), done as nat, before, *position);
        }
        done = done + 1;
    }
}

/// Applies `step` `steps` times in sequence to each of `positions`, in place.
pub fn advance_all<P, F: Fn(Equation, i32, &P) -> P>(
    step: &F,
    equation: Equation,
    exponent_tenths: i32,
    positions: &mut Vec<P>,
    steps: u8,
)
    requires
        forall|p: P| step.requires((equation, exponent_tenths, &p)),
    ensures
        final(positions)@.len() == old(positions)@.len(),
        forall|i: int|
            0 <= i < old(positions)@.len() ==> advanced(
                *step,
                equation,
                exponent_tenths,
                old(positions)@[i],
                steps as nat,
                #[trigger] final(positions)@[i],
            ),
        steps == 0 ==> final(positions)@ == old(positions)@,
{
    let mut at: usize = 0;
    while at < positions.len()
        invariant
            at <= positions@.len(),
            positions@.len() == old(positions)@.len(),
            forall|p: P| step.requires((equation, exponent_tenths, &p)),
            forall|i: int|
                0 <= i < at ==> advanced(
                    *step,
                    equation,
                    exponent_tenths,
                    old(positions)@[i],
                    steps as nat,
                    #[trigger] positions@[i],
                ),
            forall|i: int| at <= i < positions@.len() ==> positions@[i] == old(positions)@[i],
            steps == 0 ==> positions@ == old(positions)@,
        decreases positions@.len() - at,
    {
        advance(step, equation, exponent_tenths, &mut positions[at], steps);
        at = at + 1;
    }
}

/// `next` applied `n` times to `from`.
pub open spec fn iterated<P>(next: spec_fn(P) -> P, from: P, n: nat) -> P
    decreases n,
{
    if n == 0 {
        from
    } else {
        next(iterated(next, from, (n - 1) as nat))
    }
}

/// Zero applications leave a position where it is, whatever the equation and
/// the exponent.
pub proof fn advanced_by_zero<P, F: Fn(Equation, i32, &P) -> P>(
    step: F,
    equation: Equation,
    exponent_tenths: i32,
    from: P,
    to: P,
)
    ensures
        advanced(step, equation, exponent_tenths, from, 0, to) <==> to == from,
{
}

/// `n + 1` applications are `n` applications followed by one more.
pub proof fn advanced_by_one_more<P, F: Fn(Equation, i32, &P) -> P>(
    step: F,
    equation: Equation,
    exponent_tenths: i32,
    from: P,
    n: nat,
    to: P,
)
    ensures
        advanced(step, equation, exponent_tenths, from, n + 1, to) <==> exists|mid: P|
            advanced(step, equation, exponent_tenths, from, n, mid) && #[trigger] step.ensures(
                (equation, exponent_tenths, &mid),
                to,
            ),
{
    let relation = one_step(step, equation, exponent_tenths);
    if advanced(step, equation, exponent_tenths, from, n + 1, to) {
        let mid = choose|mid: P|
            reached(relation, from, ((n + 1) - 1) as nat, mid) && #[trigger] relation(mid, to);
        assert(advanced(step, equation, exponent_tenths, from, n, mid));
        assert(step.ensures((equation, exponent_tenths, &mid), to));
    }
    if exists|mid: P|
        advanced(step, equation, exponent_tenths, from, n, mid) && #[trigger] step.ensures(
            (equation, exponent_tenths, &mid),
            to,
        ) {
        let mid = choose|mid: P|
            advanced(step, equation, exponent_tenths, from, n, mid) && #[trigger] step.ensures(
                (equation, exponent_tenths, &mid),
                to,
            );
        assert(relation(mid, to));
        reached_extend(relation, from, n, mid, to);
    }
}

/// `a` applications followed by `b` applications are `a + b` applications:
/// sub-steps within a tick and ticks in a row add up.
pub proof fn advanced_in_parts<P, F: Fn(Equation, i32, &P) -> P>(
    step: F,
    equation: Equation,
    exponent_tenths: i32,
    from: P,
    a: nat,
    mid: P,
    b: nat,
    to: P,
)
    requires
        advanced(step, equation, exponent_tenths, from, a, mid),
        advanced(step, equation, exponent_tenths, mid, b, to),
    ensures
        advanced(step, equation, exponent_tenths, from, a + b, to),
{
    reached_chain(one_step(step, equation, exponent_tenths), from, a, mid, b, to);
}

/// Where one call of `step` can only return `next` of its position, `n`
/// applications return `next` applied `n` times in sequence.
pub proof fn advanced_is_iterated<P, F: Fn(Equation, i32, &P) -> P>(
    step: F,
    equation: Equation,
    exponent_tenths: i32,
    next: spec_fn(P) -> P,
    from: P,
    n: nat,
    to: P,
)
    requires
        forall|p: P, q: P| #[trigger]
            step.ensures((equation, exponent_tenths, &p), q) ==> q == next(p),
        advanced(step, equation, exponent_tenths, from, n, to),
    ensures
        to == iterated(next, from, n),
{
    let relation = one_step(step, equation, exponent_tenths);
    assert forall|p: P, q: P| #[trigger] relation(p, q) implies q == next(p) by {
        assert(step.ensures((equation, exponent_tenths, &p), q));
    }
    reached_unique(relation, next, from, n, to);
}

/// Where one call of `step` can only return the position it was given, a
/// position stays where it is under any number of applications.
pub proof fn advanced_at_rest<P, F: Fn(Equation, i32, &P) -> P>(
    step: F,
    equation: Equation,
    exponent_tenths: i32,
    from: P,
    n: nat,
    to: P,
)
    requires
        forall|p: P, q: P| #[trigger]
            step.ensures((equation, exponent_tenths, &p), q) ==> q == p,
        advanced(step, equation, exponent_tenths, from, n, to),
    ensures
        to == from,
{
    let stay = |p: P| p;
    advanced_is_iterated(step, equation, exponent_tenths, stay, from, n, to);
    iterated_identity(stay, from, n);
}

proof fn reached_extend<P>(relation: spec_fn(P, P) -> bool, from: P, n: nat, mid: P, to: P)
    requires
        reached(relation, from, n, mid),
        relation(mid, to),
    ensures
        reached(relation, from, n + 1, to),
{
    assert(reached(relation, from, ((n + 1) - 1) as nat, mid));
}

proof fn reached_chain<P>(
    relation: spec_fn(P, P) -> bool,
    from: P,
    a: nat,
    mid: P,
    b: nat,
    to: P,
)
    requires
        reached(relation, from, a, mid),
        reached(relation, mid, b, to),
    ensures
        reached(relation, from, a + b, to),
    decreases b,
{
    if b > 0 {
        let last = choose|last: P|
            reached(relation, mid, (b - 1) as nat, last) && #[trigger] relation(last, to);
        reached_chain(relation, from, a, mid, (b - 1) as nat, last);
        reached_extend(relation, from, (a + b - 1) as nat, last, to);
    }
}

proof fn reached_unique<P>(
    relation: spec_fn(P, P) -> bool,
    next: spec_fn(P) -> P,
    from: P,
    n: nat,
    to: P,
)
    requires
        forall|p: P, q: P| #[trigger] relation(p, q) ==> q == next(p),
        reached(relation, from, n, to),
    ensures
        to == iterated(next, from, n),
    decreases n,
{
    if n > 0 {
        let mid = choose|mid: P|
            reached(relation, from, (n - 1) as nat, mid) && #[trigger] relation(mid, to);
        reached_unique(relation, next, from, (n - 1) as nat, mid);
    }
}

proof fn iterated_identity<P>(stay: spec_fn(P) -> P, from: P, n: nat)
    requires
        forall|p: P| #[trigger] stay(p) == p,
    ensures
        iterated(stay, from, n) == from,
    decreases n,
{
    if n > 0 {
        iterated_identity(stay, from, (n - 1) as nat);
    }
}

} // verus!
