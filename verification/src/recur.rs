//! A controlled-recursion loop: unbounded iteration expressed as a pure step
//! function.

use vstd::prelude::*;
use core::ops::ControlFlow;

verus! {

/// `c` is reachable from `initial` in exactly `n` applications of the step
/// function `f`, each answering `Continue`.
pub open spec fn reaches_in<C, B, F: Fn(C) -> ControlFlow<B, C>>(
    f: F,
    initial: C,
    c: C,
    n: nat,
) -> bool
    decreases n,
{
    if n == 0 {
        c == initial
    } else {
        exists|p: C|
            reaches_in(f, initial, p, (n - 1) as nat) && #[trigger] call_ensures(
                f,
                (p,),
                ControlFlow::<B, C>::Continue(c),
            )
    }
}

/// `c` is a state the loop can hold: `initial` itself, or any state obtained
/// from it by a chain of `Continue` answers of `f`.
pub open spec fn reaches<C, B, F: Fn(C) -> ControlFlow<B, C>>(f: F, initial: C, c: C) -> bool {
    exists|n: nat| reaches_in(f, initial, c, n)
}

/// `b` is a possible overall result of [`recur`]: `f` can answer `Break(b)`
/// on some state reachable from `initial`.
pub open spec fn recur_produces<C, B, F: Fn(C) -> ControlFlow<B, C>>(
    f: F,
    initial: C,
    b: B,
) -> bool {
    exists|c: C|
        reaches(f, initial, c) && #[trigger] call_ensures(f, (c,), ControlFlow::<B, C>::Break(b))
}

/// The measure `m` witnesses that the loop driven by `f` from `initial`
/// makes progress: every `Continue` answer on a reachable state strictly
/// shrinks it.
pub open spec fn decreasing_measure<C, B, F: Fn(C) -> ControlFlow<B, C>>(
    f: F,
    initial: C,
    m: spec_fn(C) -> nat,
) -> bool {
    forall|p: C, c: C|
        reaches(f, initial, p) && #[trigger] call_ensures(f, (p,), ControlFlow::<B, C>::Continue(c))
            ==> m(c) < m(p)
}

/// An immutable loop: starting from `initial`, repeatedly applies `f` to the
/// current state. On `Continue(c)` the state becomes `c` and the loop goes
/// round again; on `Break(b)` the loop stops and `b` is the result.
///
/// The contract asks that `f` accept the initial state and every state it
/// can itself produce, and that some measure witness that `f` keeps making
/// progress toward a `Break`: every verified loop carries a termination
/// argument, so a verified caller must exhibit such a measure. It promises
/// that the result is a `Break` answer of `f` on a reachable state.
pub fn recur<C, B, F>(initial: C, f: F) -> (result: B) where F: Fn(C) -> ControlFlow<B, C>
    requires
        call_requires(f, (initial,)),
        forall|p: C, c: C|
            #[trigger] call_ensures(f, (p,), ControlFlow::<B, C>::Continue(c)) ==> call_requires(
                f,
                (c,),
            ),
        exists|m: spec_fn(C) -> nat| decreasing_measure(f, initial, m),
    ensures
        recur_produces(f, initial, result),
{
    let ghost m = choose|m: spec_fn(C) -> nat| decreasing_measure(f, initial, m);
    let mut val = initial;
    proof {
        assert(reaches_in(f, initial, val, 0nat));
    }
    loop
        invariant
            reaches(f, initial, val),
            call_requires(f, (val,)),
            forall|p: C, c: C|
                #[trigger] call_ensures(f, (p,), ControlFlow::<B, C>::Continue(c))
                    ==> call_requires(f, (c,)),
            decreasing_measure(f, initial, m),
        decreases m(val),
    {
        let ghost prev = val;
        match f(val) {
            ControlFlow::Continue(c) => {
                proof {
                    let n = choose|n: nat| reaches_in(f, initial, prev, n);
                    assert(call_ensures(f, (prev,), ControlFlow::<B, C>::Continue(c)));
                    assert(reaches_in(f, initial, c, n + 1));
                }
                val = c;
            },
            ControlFlow::Break(b) => {
                proof {
                    assert(call_ensures(f, (prev,), ControlFlow::<B, C>::Break(b)));
                }
                return b;
            },
        }
    }
}

/// Tags a value as the "continue" branch of a step-function answer.
pub fn recur_continue<C, B>(c: C) -> (cf: ControlFlow<B, C>)
    ensures
        cf == ControlFlow::<B, C>::Continue(c),
{
    ControlFlow::Continue(c)
}

/// Tags a value as the "break" branch of a step-function answer.
pub fn recur_break<C, B>(b: B) -> (cf: ControlFlow<B, C>)
    ensures
        cf == ControlFlow::<B, C>::Break(b),
{
    ControlFlow::Break(b)
}

/// Helper for [`lemma_recur_breaks_first`]: under a step function that can
/// only answer `Break`, a chain of `Continue` answers has length zero.
proof fn lemma_reaches_in_immediate<C, B, F: Fn(C) -> ControlFlow<B, C>>(
    f: F,
    initial: C,
    c: C,
    n: nat,
)
    requires
        forall|s: C, out: ControlFlow<B, C>| #[trigger] call_ensures(f, (s,), out) ==> out is Break,
        reaches_in(f, initial, c, n),
    ensures
        c == initial,
    decreases n,
{
    if n > 0 {
        let p = choose|p: C|
            reaches_in(f, initial, p, (n - 1) as nat) && #[trigger] call_ensures(
                f,
                (p,),
                ControlFlow::<B, C>::Continue(c),
            );
        assert(ControlFlow::<B, C>::Continue(c) is Break);
        assert(false);
    }
}

/// Immediate termination: if the step function answers `Break` on every
/// input, whatever [`recur`] produces is a `Break` answer of `f` on the
/// initial state alone — the first call decides the result.
pub proof fn lemma_recur_breaks_first<C, B, F: Fn(C) -> ControlFlow<B, C>>(
    f: F,
    initial: C,
    b: B,
)
    requires
        forall|s: C, out: ControlFlow<B, C>| #[trigger] call_ensures(f, (s,), out) ==> out is Break,
        recur_produces(f, initial, b),
    ensures
        call_ensures(f, (initial,), ControlFlow::<B, C>::Break(b)),
{
    let c = choose|c: C|
        reaches(f, initial, c) && #[trigger] call_ensures(f, (c,), ControlFlow::<B, C>::Break(b));
    let n = choose|n: nat| reaches_in(f, initial, c, n);
    lemma_reaches_in_immediate(f, initial, c, n);
}

} // verus!
