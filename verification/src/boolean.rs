//! The boolean face of the unit specialization: constructors for the two
//! truth values, conditional combinators, and the `if`/`else` sugar that the
//! control-flow layer builds on.

use crate::sum::HardBool;
use crate::sum::HardOption;
use crate::sum::HardResult;
use crate::sum::SumView;
use vstd::prelude::*;

verus! {

impl HardBool {
    /// The true value: the Ok-tagged unit.
    pub fn new_true() -> (r: HardBool)
        ensures
            r@ == SumView::<(), ()>::OkVal(()),
    {
        HardResult::new(())
    }

    /// The false value: the Err-tagged unit.
    pub fn new_false() -> (r: HardBool)
        ensures
            r@ == SumView::<(), ()>::ErrVal(()),
    {
        HardResult::new_err(())
    }

    /// Run `f` only when true, keeping its result; false yields the absent
    /// option.
    pub fn then_with<T, F: FnOnce() -> T>(self, f: F) -> (r: HardOption<T>)
        requires
            self@ is OkVal ==> call_requires(f, ()),
        ensures
            self@ is OkVal ==> (r@ matches SumView::OkVal(u) && call_ensures(f, (), u)),
            self@ is ErrVal ==> r@ == SumView::<T, ()>::ErrVal(()),
    {
        self.map(
            |_u: ()| -> (out: T) requires call_requires(f, ()) ensures call_ensures(f, (), out) { f() },
        )
    }

    /// Keep `value` only when true.
    pub fn then_some<T>(self, value: T) -> (r: HardOption<T>)
        ensures
            self@ is OkVal ==> r@ == SumView::<T, ()>::OkVal(value),
            self@ is ErrVal ==> r@ == SumView::<T, ()>::ErrVal(()),
    {
        self.map(|_u: ()| -> (out: T) ensures out == value { value })
    }

    /// Run exactly one of the two continuations, chosen by the discriminant
    /// through the dispatch primitive.
    pub fn if_else<U, Fthen: FnOnce() -> U, Felse: FnOnce() -> U>(
        self,
        then_do: Fthen,
        else_do: Felse,
    ) -> (r: U)
        requires
            self@ is OkVal ==> call_requires(then_do, ()),
            self@ is ErrVal ==> call_requires(else_do, ()),
        ensures
            self@ is OkVal ==> call_ensures(then_do, (), r),
            self@ is ErrVal ==> call_ensures(else_do, (), r),
    {
        self.map_or_else(
            |_u: ()| -> (out: U) requires call_requires(else_do, ()) ensures call_ensures(else_do, (), out) { else_do() },
            |_u: ()| -> (out: U) requires call_requires(then_do, ()) ensures call_ensures(then_do, (), out) { then_do() },
        )
    }

    /// The first half of `if`/`else` sugar: run `then_do` when true and
    /// remember its result for the `otherwise` half.
    pub fn if_then<U, F: FnOnce() -> U>(self, then_do: F) -> (r: Else<U>)
        requires
            self@ is OkVal ==> call_requires(then_do, ()),
        ensures
            self@ is OkVal ==> (r@ matches SumView::OkVal(u) && call_ensures(then_do, (), u)),
            self@ is ErrVal ==> r@ == SumView::<U, ()>::ErrVal(()),
    {
        Else(self.then_with(then_do))
    }
}

/// The pending half of an `if`/`else`: either the value the taken branch
/// produced, or the obligation to run the other branch.
pub struct Else<U>(HardOption<U>);

impl<U> View for Else<U> {
    type V = SumView<U, ()>;

    closed spec fn view(&self) -> SumView<U, ()> {
        self.0@
    }
}

impl<U> Else<U> {
    /// The second half of the sugar: yield the taken branch's value, or run
    /// `f` when the condition was false.
    pub fn otherwise<F: FnOnce() -> U>(self, f: F) -> (r: U)
        requires
            self@ is ErrVal ==> call_requires(f, ()),
        ensures
            self@ matches SumView::OkVal(u) ==> r == u,
            self@ is ErrVal ==> call_ensures(f, (), r),
    {
        self.0.unwrap_or_else(
            |_u: ()| -> (out: U) requires call_requires(f, ()) ensures call_ensures(f, (), out) { f() },
        )
    }
}

} // verus!
