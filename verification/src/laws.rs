//! The laws of the tagged result, each proved against the public contracts:
//! what the constructors report, that conversion to and from the native
//! result loses nothing, how `map` treats each variant, and what equality
//! and cloning preserve.

use vstd::prelude::*;

use crate::Result;
use crate::ResultKind;
use vstd::std_specs::cmp::PartialEqSpec;

verus! {

/// A freshly built success reports itself as a success and not a failure;
/// `t` names the stored value, `x` the constructed result, `b_ok` and
/// `b_err` what the two predicates returned on it.
pub proof fn lemma_new_ok_reports_success<T, E>(t: T, x: Result<T, E>, b_ok: bool, b_err: bool)
    requires
        call_ensures(Result::<T, E>::new_ok, (t,), x),
        call_ensures(Result::<T, E>::is_ok, (&x,), b_ok),
        call_ensures(Result::<T, E>::is_err, (&x,), b_err),
    ensures
        b_ok,
        !b_err,
{
}

/// A freshly built failure reports itself as a failure and not a success.
pub proof fn lemma_new_err_reports_failure<T, E>(e: E, x: Result<T, E>, b_ok: bool, b_err: bool)
    requires
        call_ensures(Result::<T, E>::new_err, (e,), x),
        call_ensures(Result::<T, E>::is_ok, (&x,), b_ok),
        call_ensures(Result::<T, E>::is_err, (&x,), b_err),
    ensures
        !b_ok,
        b_err,
{
}

/// Converting a native result into the tagged form and back returns the
/// original value unchanged.
pub proof fn lemma_native_round_trip<T, E>(
    r: core::result::Result<T, E>,
    x: Result<T, E>,
    back: core::result::Result<T, E>,
)
    requires
        call_ensures(Result::<T, E>::from_result, (r,), x),
        call_ensures(Result::<T, E>::into_result, (x,), back),
    ensures
        back == r,
{
}

/// Converting a tagged result out to the native form and back yields a value
/// with the same payload and, as the discriminant readings `k_x` and
/// `k_back` witness, the same discriminant.
pub proof fn lemma_tagged_round_trip<T, E>(
    x: Result<T, E>,
    mid: core::result::Result<T, E>,
    back: Result<T, E>,
    k_x: &ResultKind,
    k_back: &ResultKind,
)
    requires
        call_ensures(Result::<T, E>::into_result, (x,), mid),
        call_ensures(Result::<T, E>::from_result, (mid,), back),
        call_ensures(Result::<T, E>::kind, (&x,), k_x),
        call_ensures(Result::<T, E>::kind, (&back,), k_back),
    ensures
        back@ == x@,
        k_back == k_x,
{
}

/// Mapping a success and then extracting the success value yields exactly
/// what the transform made of the stored value.
pub proof fn lemma_map_of_success<T, T2, E, F: FnOnce(T) -> T2>(
    t: T,
    x: Result<T, E>,
    op: F,
    y: Result<T2, E>,
    o: Option<T2>,
)
    requires
        x@ == core::result::Result::<T, E>::Ok(t),
        call_ensures(Result::<T, E>::map::<T2, F>, (x, op), y),
        call_ensures(Result::<T2, E>::ok, (y,), o),
    ensures
        o matches Some(t2) && call_ensures(op, (t,), t2),
{
}

/// Mapping a failure leaves the failure value untouched: extracting it
/// afterwards returns the original error, whatever the transform does.
pub proof fn lemma_map_of_failure<T, T2, E, F: FnOnce(T) -> T2>(
    e: E,
    x: Result<T, E>,
    op: F,
    y: Result<T2, E>,
    o: Option<E>,
)
    requires
        x@ == core::result::Result::<T, E>::Err(e),
        call_ensures(Result::<T, E>::map::<T2, F>, (x, op), y),
        call_ensures(Result::<T2, E>::err, (y,), o),
    ensures
        o == Some(e),
{
}

/// Where the payload types' own equality means value equality, equality of
/// tagged results is reflexive, symmetric and transitive.
pub proof fn lemma_eq_equivalence<T: PartialEq, E: PartialEq>(
    a: Result<T, E>,
    b: Result<T, E>,
    c: Result<T, E>,
)
    requires
        forall|x: T, y: T| #[trigger] x.eq_spec(&y) == (x == y),
        forall|x: E, y: E| #[trigger] x.eq_spec(&y) == (x == y),
    ensures
        a.eq_spec(&a),
        a.eq_spec(&b) == b.eq_spec(&a),
        a.eq_spec(&b) && b.eq_spec(&c) ==> a.eq_spec(&c),
{
}

/// A success and a failure never compare equal, even when they hold the very
/// same payload value.
pub proof fn lemma_cross_variant_never_equal<A: PartialEq>(v: A, x: Result<A, A>, y: Result<A, A>)
    requires
        x@ == core::result::Result::<A, A>::Ok(v),
        y@ == core::result::Result::<A, A>::Err(v),
    ensures
        !x.eq_spec(&y),
        !y.eq_spec(&x),
{
}

/// Where the payload types' clones are value copies, a cloned tagged result
/// carries the same discriminant and the same payload as the original.
pub proof fn lemma_clone_preserves_value<T: Clone, E: Clone>(x: Result<T, E>, y: Result<T, E>)
    requires
        call_ensures(<Result<T, E> as Clone>::clone, (&x,), y),
        forall|a: T, b: T| #[trigger] cloned::<T>(a, b) ==> a == b,
        forall|a: E, b: E| #[trigger] cloned::<E>(a, b) ==> a == b,
    ensures
        y@ == x@,
{
}

} // verus!
