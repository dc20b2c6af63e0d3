//! What holds of extraction over every input.
use vstd::prelude::*;

use crate::convert::IntoResult;
use crate::extract::{matched_as, variant_outcome};

verus! {

/// Extraction from an `Option`: a present value converts to success carrying
/// that value unchanged, which `inner` yields; an absent value converts to
/// failure, which `inner` refuses.
pub proof fn lemma_option_extract<T>(o: Option<T>)
    ensures
        o is Some ==> IntoResult::<T, ()>::as_result(o) == Ok::<T, ()>(o->Some_0),
        o is None ==> IntoResult::<T, ()>::as_result(o) is Err,
{
}

/// Extraction from a `Result`: success carrying `v` yields `v`, and failure
/// carrying `e` hands exactly `e` to the fallback of `inner_or_else_with`.
pub proof fn lemma_result_extract<T, E>(x: Result<T, E>)
    ensures
        x is Ok ==> IntoResult::<T, E>::as_result(x) is Ok && IntoResult::<T, E>::as_result(x)->Ok_0
            == x->Ok_0,
        x is Err ==> IntoResult::<T, E>::as_result(x) is Err && IntoResult::<T, E>::as_result(
            x,
        )->Err_0 == x->Err_0,
{
}

/// Converting a `Result` returns it unchanged: the same variant with the same payload.
pub proof fn lemma_result_identity<T, E>(x: Result<T, E>)
    ensures
        IntoResult::<T, E>::as_result(x) == x,
{
}

/// Extraction by variant. Where `variant` finds its variant in `x` with field
/// `p`, `inner_if` yields `p`. Where it hands `x` back unmatched, the
/// `inner_if_or_else` forms yield only what the fallback returns for `x`
/// itself, the whole value.
pub proof fn lemma_variant_extract<T, V, M: FnOnce(V) -> Result<T, V>>(
    variant: M,
    x: V,
    p: T,
    fallback: spec_fn(V, T) -> bool,
    r: T,
)
    ensures
        (forall|m: Result<T, V>| matched_as(variant, x, m) ==> m == Ok::<T, V>(p)) ==> (
        matched_as(variant, x, Ok(r)) ==> r == p),
        (forall|m: Result<T, V>| matched_as(variant, x, m) ==> m == Err::<T, V>(x)) ==> (
        variant_outcome(variant, x, fallback, r) ==> fallback(x, r)),
{
}

} // verus!
