//! An exclusive two-variant value container.

use vstd::prelude::*;

verus! {

/// A value that is exactly one of two alternatives, `Left(L)` or `Right(R)`.
///
/// Roughly equivalent to `Result`, but the two sides carry no success or
/// failure meaning: the container only records a choice between two typed
/// payloads. The tag and payload are set together at construction and never
/// mutated; every transformation produces a new value.
#[derive(Debug, Clone, Copy, PartialEq, Eq, PartialOrd, Ord)]
pub enum Either<L, R> {
    /// Contains the `Left` value of an [`Either`].
    Left(L),
    /// Contains the `Right` value of an [`Either`].
    Right(R),
}

impl<L, R> Either<L, R> {
    /// Returns `true` if the value is `Left`.
    pub fn is_left(&self) -> (b: bool)
        ensures
            b == (self is Left),
    {
        match self {
            Either::Left(_) => true,
            _ => false,
        }
    }

    /// Returns `true` if the value is `Right`.
    pub fn is_right(&self) -> (b: bool)
        ensures
            b == (self is Right),
    {
        match self {
            Either::Right(_) => true,
            _ => false,
        }
    }

    /// Converts from `Either<L, R>` to `Option<L>`, consuming `self` and
    /// discarding the `Right` value, if `Right`. Never fails.
    pub fn left(self) -> (o: Option<L>)
        ensures
            self matches Either::Left(l) ==> o == Some(l),
            self is Right ==> o is None,
    {
        match self {
            Either::Left(l) => Some(l),
            Either::Right(_) => None,
        }
    }

    /// Converts from `Either<L, R>` to `Option<R>`, consuming `self` and
    /// discarding the `Left` value, if `Left`. Never fails.
    pub fn right(self) -> (o: Option<R>)
        ensures
            self matches Either::Right(r) ==> o == Some(r),
            self is Left ==> o is None,
    {
        match self {
            Either::Left(_) => None,
            Either::Right(r) => Some(r),
        }
    }

    /// Converts from `Option<L>` to `Either<L, ()>`: a present value becomes
    /// `Left`, while absence is deliberately recorded as `Right(())` — data
    /// missing on one side is represented as a unit payload on the other.
    pub fn as_left(option: Option<L>) -> (e: Either<L, ()>)
        ensures
            option matches Some(l) ==> e == Either::<L, ()>::Left(l),
            option is None ==> e == Either::<L, ()>::Right(()),
    {
        match option {
            Some(l) => Either::Left(l),
            None => Either::Right(()),
        }
    }

    /// Converts from `Option<R>` to `Either<(), R>`: a present value becomes
    /// `Right`, while absence is deliberately recorded as `Left(())` — the
    /// mirror image of [`Either::as_left`].
    pub fn as_right(option: Option<R>) -> (e: Either<(), R>)
        ensures
            option matches Some(r) ==> e == Either::<(), R>::Right(r),
            option is None ==> e == Either::<(), R>::Left(()),
    {
        match option {
            Some(r) => Either::Right(r),
            None => Either::Left(()),
        }
    }

    /// Unwraps the value if it is `Left`. Use only when the caller has
    /// independently established which variant is present: the contract
    /// admits `Left` values alone, so the mismatch — an unrecoverable
    /// termination, were it reached — cannot arise in verified code.
    pub fn unwrap_left(self) -> (l: L)
        requires
            self is Left,
        ensures
            self matches Either::Left(v) && l == v,
    {
        match self {
            Either::Left(l) => l,
            Either::Right(_) => unreached(),
        }
    }

    /// Unwraps the value if it is `Right`. Use only when the caller has
    /// independently established which variant is present: the contract
    /// admits `Right` values alone, so the mismatch — an unrecoverable
    /// termination, were it reached — cannot arise in verified code.
    pub fn unwrap_right(self) -> (r: R)
        requires
            self is Right,
        ensures
            self matches Either::Right(v) && r == v,
    {
        match self {
            Either::Left(_) => unreached(),
            Either::Right(r) => r,
        }
    }

    /// Unwraps the value if it is `Left`; `msg` names the diagnostic a
    /// mismatch would report. The contract admits `Left` values alone, so
    /// the mismatch cannot arise in verified code.
    pub fn expected_left(self, msg: &str) -> (l: L)
        requires
            self is Left,
        ensures
            self matches Either::Left(v) && l == v,
    {
        let _ = msg;
        match self {
            Either::Left(l) => l,
            Either::Right(_) => unreached(),
        }
    }

    /// Unwraps the value if it is `Right`; `msg` names the diagnostic a
    /// mismatch would report. The contract admits `Right` values alone, so
    /// the mismatch cannot arise in verified code.
    pub fn expected_right(self, msg: &str) -> (r: R)
        requires
            self is Right,
        ensures
            self matches Either::Right(v) && r == v,
    {
        let _ = msg;
        match self {
            Either::Left(_) => unreached(),
            Either::Right(r) => r,
        }
    }

    /// Maps `Either<L, R>` to `Either<T, U>` by applying `f` to a `Left`
    /// payload or `g` to a `Right` payload; exactly one of the two is invoked.
    pub fn map_either<T, U, F: FnOnce(L) -> T, G: FnOnce(R) -> U>(self, f: F, g: G) -> (e: Either<
        T,
        U,
    >)
        requires
            self matches Either::Left(l) ==> call_requires(f, (l,)),
            self matches Either::Right(r) ==> call_requires(g, (r,)),
        ensures
            map_either_rel(f, g, self, e),
    {
        match self {
            Either::Left(l) => Either::Left(f(l)),
            Either::Right(r) => Either::Right(g(r)),
        }
    }

    /// Maps `Either<L, R>` to `Either<U, R>` by applying `f` to the `Left`
    /// payload, if `Left`; a `Right` payload is forwarded unchanged.
    pub fn map_left<U, F: FnOnce(L) -> U>(self, f: F) -> (e: Either<U, R>)
        requires
            self matches Either::Left(l) ==> call_requires(f, (l,)),
        ensures
            map_left_rel(f, self, e),
    {
        match self {
            Either::Left(l) => Either::Left(f(l)),
            Either::Right(r) => Either::Right(r),
        }
    }

    /// Maps `Either<L, R>` to `Either<L, U>` by applying `f` to the `Right`
    /// payload, if `Right`; a `Left` payload is forwarded unchanged.
    pub fn map_right<U, F: FnOnce(R) -> U>(self, f: F) -> (e: Either<L, U>)
        requires
            self matches Either::Right(r) ==> call_requires(f, (r,)),
        ensures
            map_right_rel(f, self, e),
    {
        match self {
            Either::Left(l) => Either::Left(l),
            Either::Right(r) => Either::Right(f(r)),
        }
    }

    /// Exchanges the side the payload is associated with: `Left(l)` becomes
    /// `Right(l)` and `Right(r)` becomes `Left(r)`.
    pub fn swap(self) -> (e: Either<R, L>)
        ensures
            e == spec_swap(self),
    {
        match self {
            Either::Left(l) => Either::Right(l),
            Either::Right(r) => Either::Left(r),
        }
    }

    /// Converts the disjoint success/failure representation into an
    /// [`Either`]: the success channel becomes `Left`, the failure channel
    /// becomes `Right`. Inverse of [`Either::into_result`].
    pub fn from_result(result: Result<L, R>) -> (e: Either<L, R>)
        ensures
            e == spec_from_result(result),
    {
        match result {
            Ok(l) => Either::Left(l),
            Err(r) => Either::Right(r),
        }
    }

    /// Converts an [`Either`] into the disjoint success/failure
    /// representation: `Left` becomes the success channel, `Right` the
    /// failure channel. Inverse of [`Either::from_result`].
    pub fn into_result(self) -> (result: Result<L, R>)
        ensures
            result == spec_into_result(self),
    {
        match self {
            Either::Left(l) => Ok(l),
            Either::Right(r) => Err(r),
        }
    }
}

/// What [`Either::swap`] returns: the same payload on the opposite side.
pub open spec fn spec_swap<L, R>(x: Either<L, R>) -> Either<R, L> {
    match x {
        Either::Left(l) => Either::Right(l),
        Either::Right(r) => Either::Left(r),
    }
}

/// What [`Either::from_result`] returns: `Ok` becomes `Left`, `Err` becomes
/// `Right`.
pub open spec fn spec_from_result<L, R>(result: Result<L, R>) -> Either<L, R> {
    match result {
        Ok(l) => Either::Left(l),
        Err(r) => Either::Right(r),
    }
}

/// What [`Either::into_result`] returns: `Left` becomes `Ok`, `Right` becomes
/// `Err`.
pub open spec fn spec_into_result<L, R>(x: Either<L, R>) -> Result<L, R> {
    match x {
        Either::Left(l) => Ok(l),
        Either::Right(r) => Err(r),
    }
}

/// Relates an input of [`Either::map_either`] to its output: the side is
/// kept, and the payload of that side is a possible result of the matching
/// function value.
pub open spec fn map_either_rel<L, R, T, U, F: FnOnce(L) -> T, G: FnOnce(R) -> U>(
    f: F,
    g: G,
    x: Either<L, R>,
    y: Either<T, U>,
) -> bool {
    match x {
        Either::Left(l) => y matches Either::Left(t) && call_ensures(f, (l,), t),
        Either::Right(r) => y matches Either::Right(u) && call_ensures(g, (r,), u),
    }
}

/// Relates an input of [`Either::map_left`] to its output: a `Left` payload
/// is replaced by a possible result of `f`, a `Right` payload is unchanged.
pub open spec fn map_left_rel<L, R, U, F: FnOnce(L) -> U>(
    f: F,
    x: Either<L, R>,
    y: Either<U, R>,
) -> bool {
    match x {
        Either::Left(l) => y matches Either::Left(u) && call_ensures(f, (l,), u),
        Either::Right(r) => y == Either::<U, R>::Right(r),
    }
}

/// Relates an input of [`Either::map_right`] to its output: a `Right` payload
/// is replaced by a possible result of `f`, a `Left` payload is unchanged.
pub open spec fn map_right_rel<L, R, U, F: FnOnce(R) -> U>(
    f: F,
    x: Either<L, R>,
    y: Either<L, U>,
) -> bool {
    match x {
        Either::Left(l) => y == Either::<L, U>::Left(l),
        Either::Right(r) => y matches Either::Right(u) && call_ensures(f, (r,), u),
    }
}

/// Round trip, one direction: converting an [`Either`] to the
/// success/failure representation and back yields the identical variant and
/// payload.
pub proof fn lemma_result_round_trip<L, R>(x: Either<L, R>)
    ensures
        spec_from_result(spec_into_result(x)) == x,
{
}

/// Round trip, other direction: converting a success/failure value to an
/// [`Either`] and back recovers it exactly.
pub proof fn lemma_result_round_trip_rev<L, R>(result: Result<L, R>)
    ensures
        spec_into_result(spec_from_result(result)) == result,
{
}

/// Involution: swapping twice restores the original value, for every value.
pub proof fn lemma_swap_involutive<L, R>(x: Either<L, R>)
    ensures
        spec_swap(spec_swap(x)) == x,
{
}

/// Functor identity: mapping both sides with functions that behave as the
/// identity returns an equal value.
pub proof fn lemma_map_either_identity<L, R, F: FnOnce(L) -> L, G: FnOnce(R) -> R>(
    f: F,
    g: G,
    x: Either<L, R>,
    y: Either<L, R>,
)
    requires
        forall|l: L, o: L| #[trigger] call_ensures(f, (l,), o) ==> o == l,
        forall|r: R, o: R| #[trigger] call_ensures(g, (r,), o) ==> o == r,
        map_either_rel(f, g, x, y),
    ensures
        y == x,
{
}

/// Functor composition: mapping the left side with `f` and then with `g`
/// relates the original value to the final one exactly as one mapping with
/// the composition of `f` and `g` would.
pub proof fn lemma_map_left_compose<L, R, A, B, F: FnOnce(L) -> A, G: FnOnce(A) -> B>(
    f: F,
    g: G,
    x: Either<L, R>,
    y: Either<A, R>,
    z: Either<B, R>,
)
    requires
        map_left_rel(f, x, y),
        map_left_rel(g, y, z),
    ensures
        (match x {
            Either::Left(l) => z matches Either::Left(b) && crate::compose_rel(f, g, l, b),
            Either::Right(r) => z == Either::<B, R>::Right(r),
        }),
{
}

} // verus!
