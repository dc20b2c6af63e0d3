//! Extracting the success payload, one function for each way of handling failure.
//!
//! The plain forms go through [`IntoResult`]. The `inner_if` forms instead take
//! a variant matcher: a function that destructures one variant of an enum,
//! handing back `Ok(field)` when the value is that variant and `Err(value)`,
//! the whole value unchanged, when it is not (for example
//! `|f| match f { Fruit::Apple(q) => Ok(q), other => Err(other) }`).
use vstd::prelude::*;

use crate::convert::IntoResult;

verus! {

/// Yields the success payload of `x`.
///
/// `x` must convert to success: extracting from a failure is refused.
pub fn inner<T, E, V: IntoResult<T, E>>(x: V) -> (r: T)
    requires
        x.as_result() is Ok,
    ensures
        r == x.as_result()->Ok_0,
{
    x.into_result().ok().unwrap()
}

/// Yields the success payload of `x`, or, on failure, what `fallback` returns;
/// the failure payload is dropped.
pub fn inner_or_else<T, E, V: IntoResult<T, E>, F: FnOnce() -> T>(x: V, fallback: F) -> (r: T)
    requires
        x.as_result() is Err ==> fallback.requires(()),
    ensures
        match x.as_result() {
            Ok(v) => r == v,
            Err(_) => fallback.ensures((), r),
        },
{
    match x.into_result() {
        Ok(q) => q,
        Err(_) => fallback(),
    }
}

/// Yields the success payload of `x`, or, on failure, what `fallback` returns
/// when given the failure payload.
pub fn inner_or_else_with<T, E, V: IntoResult<T, E>, F: FnOnce(E) -> T>(
    x: V,
    fallback: F,
) -> (r: T)
    requires
        x.as_result() is Err ==> fallback.requires((x.as_result()->Err_0,)),
    ensures
        match x.as_result() {
            Ok(v) => r == v,
            Err(e) => fallback.ensures((e,), r),
        },
{
    match x.into_result() {
        Ok(q) => q,
        Err(e) => fallback(e),
    }
}

/// Whether `m` is an outcome that `variant` may hand back for `x`.
pub open spec fn matched_as<T, V, M: FnOnce(V) -> Result<T, V>>(
    variant: M,
    x: V,
    m: Result<T, V>,
) -> bool {
    variant.ensures((x,), m)
}

/// Whether `variant` accepts `x` and, whatever it hands back, finds its variant.
pub open spec fn always_matches<T, V, M: FnOnce(V) -> Result<T, V>>(variant: M, x: V) -> bool {
    &&& variant.requires((x,))
    &&& forall|m: Result<T, V>| #[trigger] matched_as(variant, x, m) ==> m is Ok
}

/// Yields the field of `x` that `variant` destructures.
///
/// `x` must be of that variant: extracting from another one is refused.
pub fn inner_if<T, V, M: FnOnce(V) -> Result<T, V>>(x: V, variant: M) -> (r: T)
    requires
        always_matches(variant, x),
    ensures
        matched_as(variant, x, Ok(r)),
{
    let m = variant(x);
    proof {
        assert(matched_as(variant, x, m));
    }
    m.ok().unwrap()
}

/// Whether `r` is what the `inner_if_or_else` forms may yield: the field that
/// `variant` hands back, or else a value that `fallback` may return for what
/// `variant` handed back in its stead.
pub open spec fn variant_outcome<T, V, M: FnOnce(V) -> Result<T, V>>(
    variant: M,
    x: V,
    fallback: spec_fn(V, T) -> bool,
    r: T,
) -> bool {
    exists|m: Result<T, V>| #[trigger]
        matched_as(variant, x, m) && match m {
            Ok(v) => r == v,
            Err(e) => fallback(e, r),
        }
}

/// Whether `fallback` accepts every value that `variant` may hand back unmatched.
pub open spec fn fallback_accepts<T, V, M: FnOnce(V) -> Result<T, V>>(
    variant: M,
    x: V,
    fallback: spec_fn(V) -> bool,
) -> bool {
    forall|m: Result<T, V>| #[trigger] matched_as(variant, x, m) && m is Err ==> fallback(m->Err_0)
}

/// Yields the field of `x` that `variant` destructures, or, when `x` is of
/// another variant, what `fallback` returns.
pub fn inner_if_or_else<T, V, M: FnOnce(V) -> Result<T, V>, F: FnOnce() -> T>(
    x: V,
    variant: M,
    fallback: F,
) -> (r: T)
    requires
        variant.requires((x,)),
        fallback_accepts(variant, x, |e: V| fallback.requires(())),
    ensures
        variant_outcome(variant, x, |e: V, v: T| fallback.ensures((), v), r),
{
    let m = variant(x);
    proof {
        assert(matched_as(variant, x, m));
    }
    match m {
        Ok(q) => q,
        Err(_) => fallback(),
    }
}

/// Yields the field of `x` that `variant` destructures, or, when `x` is of
/// another variant, what `fallback` returns when given the value that
/// `variant` handed back: `x` itself, whole.
pub fn inner_if_or_else_with<T, V, M: FnOnce(V) -> Result<T, V>, F: FnOnce(V) -> T>(
    x: V,
    variant: M,
    fallback: F,
) -> (r: T)
    requires
        variant.requires((x,)),
        fallback_accepts(variant, x, |e: V| fallback.requires((e,))),
    ensures
        variant_outcome(variant, x, |e: V, v: T| fallback.ensures((e,), v), r),
{
    let m = variant(x);
    proof {
        assert(matched_as(variant, x, m));
    }
    match m {
        Ok(q) => q,
        Err(e) => fallback(e),
    }
}

} // verus!
