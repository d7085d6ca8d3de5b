//! Ownership-passing combinators for fluent call chains.
//!
//! `bind` consumes a value and returns whatever the supplied function makes
//! of it; the `hold` pair consume a value, let a function observe or mutate
//! it through a reference, and then return it to the caller.
use vstd::prelude::*;

verus! {

/// Transform-and-consume combinator: hand a value to a function and keep
/// only the function's result.
pub trait Bind: Sized {
    /// Passes ownership of `self` to `f`, invokes `f` exactly once, and
    /// returns whatever `f` returns. The result is exactly what a direct
    /// call `f(self)` would have produced; `bind` adds nothing of its own.
    fn bind<R, F: FnOnce(Self) -> R>(self, f: F) -> (r: R)
        requires
            call_requires(f, (self,)),
        ensures
            call_ensures(f, (self,), r),
    {
        f(self)
    }
}

impl<T> Bind for T {}

/// Inspect-and-return combinators: hand a value to a function by reference
/// and get the value itself back.
pub trait Hold: Sized {
    /// Invokes `f` exactly once with an immutable reference to `self`, then
    /// returns `self` unchanged.
    fn hold_ref<F: FnOnce(&Self)>(self, f: F) -> (r: Self)
        requires
            call_requires(f, (&self,)),
        ensures
            r == self,
            call_ensures(f, (&self,), ()),
    {
        f(&self);
        self
    }

    /// Invokes `f` exactly once with a mutable reference to `self`, then
    /// returns the value as `f` left it: the result is the final value of
    /// the one borrow through which `f` mutated `self`.
    fn hold<F: FnOnce(&mut Self)>(self, f: F) -> (r: Self)
        requires
            forall|m: &mut Self| mut_ref_current(m) == self ==> #[trigger] call_requires(f, (m,)),
        ensures
            exists|m: &mut Self|
                mut_ref_current(m) == self && mut_ref_future(m) == r && #[trigger] call_ensures(
                    f,
                    (m,),
                    (),
                ),
    {
        let mut v = self;
        f(&mut v);
        v
    }
}

impl<T> Hold for T {}

} // verus!
