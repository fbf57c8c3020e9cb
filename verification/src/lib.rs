//! A small vocabulary of composable control primitives: an exclusive
//! two-variant container ([`either::Either`]), a value pipeline
//! ([`pipe::Pipe`]), and a controlled-recursion loop ([`recur::recur`]).
//!
//! Every operation is a pure value transformation: it consumes or reads its
//! input and produces a new value, with no shared mutable state.

use vstd::prelude::*;

pub mod either;
pub mod pipe;
pub mod recur;

verus! {

/// Relational composition of two function values: `out` is a possible result
/// of feeding `x` to `f` and then feeding what `f` produced to `g`.
///
/// This is the specification-level meaning of "apply `f`, then `g`", used to
/// state the composition laws of [`either::Either::map_left`] and
/// [`pipe::Pipe::pipe`].
pub open spec fn compose_rel<A, B, C, F: FnOnce(A) -> B, G: FnOnce(B) -> C>(
    f: F,
    g: G,
    x: A,
    out: C,
) -> bool {
    exists|mid: B| #[trigger] call_ensures(f, (x,), mid) && call_ensures(g, (mid,), out)
}

} // verus!
