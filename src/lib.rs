//! Getting at the value inside an "optionally successful" container.
//!
//! Every container goes through one two-outcome shape, `Result<T, E>`: the
//! [`IntoResult`] trait converts a value into it. `Result` converts to itself
//! and `Option` converts to `Ok(v)` or `Err(())`; a type of the caller's own
//! can implement the trait as well.
//!
//! The functions of [`extract`] then yield the success payload, or hand the
//! failure to a fallback that the caller supplies. Where the fallback has to
//! leave the enclosing function or loop (`return`, `break`, `continue`),
//! match on `into_result()` at the call site instead, for example with
//! `let Ok(v) = x.into_result() else { return; };`: a fallback function
//! cannot transfer control for its caller.
pub mod convert;
pub mod extract;
pub mod laws;

pub use convert::IntoResult;
