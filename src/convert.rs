//! The conversion into the two-outcome shape.
use vstd::prelude::*;

verus! {

/// Converts a value into a `Result`.
///
/// Implement it for a type of your own to extract from it with the functions
/// of this crate; several of its variants may then count as success.
pub trait IntoResult<T, E>: Sized {
    /// The `Result` that `self` stands for.
    ///
    /// An impl that Verus checks states it, so as to prove `into_result`
    /// against it; an impl written in plain Rust may leave it out.
    closed spec fn as_result(self) -> Result<T, E> {
        arbitrary()
    }

    /// Consumes `self` and returns the `Result` it stands for.
    fn into_result(self) -> (r: Result<T, E>)
        ensures
            r == self.as_result(),
    ;
}

/// A `Result` is already in the two-outcome shape: it converts to itself.
impl<T, E> IntoResult<T, E> for Result<T, E> {
    open spec fn as_result(self) -> Result<T, E> {
        self
    }

    #[inline]
    fn into_result(self) -> (r: Result<T, E>) {
        self
    }
}

/// The result of an `Option`: the value present is success, absence is failure.
pub open spec fn option_as_result<T>(o: Option<T>) -> Result<T, ()> {
    match o {
        Some(v) => Ok(v),
        None => Err(()),
    }
}

/// A present value converts to success, an absent one to failure with `()`.
impl<T> IntoResult<T, ()> for Option<T> {
    open spec fn as_result(self) -> Result<T, ()> {
        option_as_result(self)
    }

    #[inline]
    fn into_result(self) -> (r: Result<T, ()>) {
        self.ok_or(())
    }
}

} // verus!
