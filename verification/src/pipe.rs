//! A single-value pipeline wrapper.

use vstd::prelude::*;

verus! {

/// Owns exactly one value and threads it through a sequence of
/// transformations: each [`Pipe::pipe`] step consumes the current value and
/// the wrapper and produces a new wrapper owning the transformed value.
pub struct Pipe<T>(T);

impl<T> Pipe<T> {
    /// The value the pipeline currently owns.
    pub closed spec fn inner(self) -> T {
        self.0
    }

    /// Starts a pipeline owning `t`.
    pub fn new(t: T) -> (p: Self)
        ensures
            p.inner() == t,
    {
        Pipe(t)
    }

    /// Applies one transformation: the new wrapper owns a possible result of
    /// `f` on the value owned before. Chaining two `pipe` steps therefore
    /// relates the values exactly as [`crate::compose_rel`] — one step with
    /// the composed transformation — does (see
    /// [`lemma_pipe_compose`]).
    pub fn pipe<B, F>(self, f: F) -> (p: Pipe<B>) where F: FnOnce(T) -> B
        requires
            call_requires(f, (self.inner(),)),
        ensures
            call_ensures(f, (self.inner(),), p.inner()),
    {
        Pipe(f(self.0))
    }

    /// Ends the pipeline, handing the owned value back unchanged.
    pub fn into_inner(self) -> (t: T)
        ensures
            t == self.inner(),
    {
        self.0
    }
}

/// Pipeline composition: a value `mid` produced from `x` by one `pipe` step
/// with `f`, then turned into `out` by a step with `g`, is exactly a possible
/// result of a single step with the composition of `f` and `g`.
pub proof fn lemma_pipe_compose<T, A, B, F: FnOnce(T) -> A, G: FnOnce(A) -> B>(
    f: F,
    g: G,
    x: T,
    mid: A,
    out: B,
)
    requires
        call_ensures(f, (x,), mid),
        call_ensures(g, (mid,), out),
    ensures
        crate::compose_rel(f, g, x, out),
{
}

} // verus!
