//! Compile-time generation engine for error boilerplate: given a model of an
//! annotated type declaration, it computes the context-adapter carrier types,
//! the textual-rendering branches, and the cause-chain accessor branches that
//! an error author would otherwise write by hand.

pub mod adapter;
pub mod annotation;
pub mod chain;
pub mod classify;
pub mod driver;
pub mod generics;
pub mod model;
pub mod output;
pub mod render;
pub mod subst;
pub mod text;

use vstd::prelude::*;

verus! {

/// Trait for context values that can be combined with a cause error,
/// yielding the full enclosing error value. Generated carriers implement
/// it; its one operation rebuilds the enclosing error from the cause.
pub trait ErrorContext: Sized {
    /// The cause error type this context can be added to.
    type Source;

    /// The enclosing error type produced by adding this context.
    type Err;

    /// What adding this context to a cause yields.
    spec fn spec_add_to_source(self, source: Self::Source) -> Self::Err;

    /// Combine this context with the given cause, producing the full error.
    fn add_to_source(self, source: Self::Source) -> (r: Self::Err)
        ensures
            r == self.spec_add_to_source(source),
    ;
}

/// Extension trait for `Result`: attach a context to the error, eagerly
/// or lazily.
pub trait ResultExt<T, E1>: Sized {
    /// The result value this extension wraps.
    spec fn as_result(self) -> Result<T, E1>;

    /// Attach the given context to the error of this result.
    fn context<C: ErrorContext<Err = E2, Source = E1>, E2>(self, ctx: C) -> (r: Result<T, E2>)
        ensures
            (match self.as_result() {
                Result::Ok(t) => r == Result::<T, E2>::Ok(t),
                Result::Err(e) => r == Result::<T, E2>::Err(ctx.spec_add_to_source(e)),
            }),
    ;

    /// Attach a lazily built context to the error of this result.
    fn with_context<C: ErrorContext<Err = E2, Source = E1>, E2, F: FnOnce(&E1) -> C>(
        self,
        f: F,
    ) -> (r: Result<T, E2>)
        requires
            self.as_result() is Err ==> call_requires(f, (&self.as_result()->Err_0,)),
        ensures
            self.as_result() is Ok ==> r == Result::<T, E2>::Ok(self.as_result()->Ok_0),
            self.as_result() is Err ==> (exists|c: C|
                call_ensures(f, (&self.as_result()->Err_0,), c) && r == Result::<T, E2>::Err(
                    c.spec_add_to_source(self.as_result()->Err_0),
                )),
    ;
}

impl<T, E1> ResultExt<T, E1> for Result<T, E1> {
    open spec fn as_result(self) -> Result<T, E1> {
        self
    }

    fn context<C: ErrorContext<Err = E2, Source = E1>, E2>(self, ctx: C) -> (r: Result<T, E2>) {
        match self {
            Result::Ok(t) => Result::Ok(t),
            Result::Err(e) => Result::Err(ctx.add_to_source(e)),
        }
    }

    fn with_context<C: ErrorContext<Err = E2, Source = E1>, E2, F: FnOnce(&E1) -> C>(
        self,
        f: F,
    ) -> (r: Result<T, E2>) {
        match self {
            Result::Ok(t) => Result::Ok(t),
            Result::Err(e) => {
                let c = f(&e);
                Result::Err(c.add_to_source(e))
            },
        }
    }
}

} // verus!
