//! The option face of the sum: presence carried on the Ok side, absence as
//! the Err-tagged unit, with the standard slot-mutation operations built on
//! extract-and-own.

use crate::sum::HardBool;
use crate::sum::HardOption;
use crate::sum::HardResult;
use crate::sum::SumView;
use vstd::prelude::*;

verus! {

impl<T> HardOption<T> {
    /// A present value.
    pub fn some(value: T) -> (r: HardOption<T>)
        ensures
            r@ == SumView::<T, ()>::OkVal(value),
    {
        Self::new(value)
    }

    /// The absent value.
    pub fn none() -> (r: HardOption<T>)
        ensures
            r@ == SumView::<T, ()>::ErrVal(()),
    {
        Self::new_err(())
    }

    /// Keep a present value only when the predicate holds of it.
    pub fn filter<F: FnOnce(&T) -> HardBool>(self, pred: F) -> (r: HardOption<T>)
        requires
            self@ matches SumView::OkVal(t) ==> call_requires(pred, (&t,)),
        ensures
            self@ is ErrVal ==> r@ == SumView::<T, ()>::ErrVal(()),
            self@ matches SumView::OkVal(t) ==> exists|b: HardBool|
                #[trigger] call_ensures(pred, (&t,), b) && r@ == (if b@ is OkVal {
                    SumView::<T, ()>::OkVal(t)
                } else {
                    SumView::<T, ()>::ErrVal(())
                }),
    {
        self.and_then(
            |x: T| -> (out: HardOption<T>) requires call_requires(pred, (&x,)) ensures (exists|b: HardBool| #[trigger] call_ensures(pred, (&x,), b) && out@ == (if b@ is OkVal { SumView::<T, ()>::OkVal(x) } else { SumView::<T, ()>::ErrVal(()) })) { let verdict = pred(&x); verdict.map(|_u: ()| -> (o: T) ensures o == x { x }) },
        )
    }
}

impl<T> HardOption<HardOption<T>> {
    /// Collapse one level of option nesting.
    pub fn flatten(self) -> (r: HardOption<T>)
        ensures
            self@ matches SumView::OkVal(o) ==> r == o,
            self@ is ErrVal ==> r@ == SumView::<T, ()>::ErrVal(()),
    {
        self.map_or_else(
            |_u: ()| -> (out: HardOption<T>) ensures out@ == SumView::<T, ()>::ErrVal(()) { HardResult::new_err(()) },
            |x: HardOption<T>| -> (out: HardOption<T>) ensures out == x { x },
        )
    }
}

impl<T> HardOption<T> {
    /// Put `value` into the slot, dropping what was there, and hand back a
    /// mutable borrow of it.
    pub fn insert(&mut self, value: T) -> (r: &mut T)
        ensures
            *r == value,
            final(self)@ == SumView::<T, ()>::OkVal(*final(r)),
    {
        *self = HardOption::some(value);
        self.live_ok_mut()
    }

    /// Move the slot's contents out, leaving the absent value behind.
    pub fn take(&mut self) -> (r: HardOption<T>)
        ensures
            r == *old(self),
            final(self)@ == SumView::<T, ()>::ErrVal(()),
    {
        let mut out = HardOption::none();
        core::mem::swap(self, &mut out);
        out
    }

    /// Put `value` into the slot and hand back what was there.
    pub fn replace(&mut self, value: T) -> (r: HardOption<T>)
        ensures
            r == *old(self),
            final(self)@ == SumView::<T, ()>::OkVal(value),
    {
        let out = self.take();
        *self = HardOption::some(value);
        out
    }

    /// Fill an absent slot from `value`, then hand back a mutable borrow of
    /// the contents.
    pub fn get_or_insert_with<F: FnOnce() -> T>(&mut self, value: F) -> (r: &mut T)
        requires
            old(self)@ is ErrVal ==> call_requires(value, ()),
        ensures
            old(self)@ matches SumView::OkVal(t) ==> *r == t,
            old(self)@ is ErrVal ==> call_ensures(value, (), *r),
            final(self)@ == SumView::<T, ()>::OkVal(*final(r)),
    {
        let local = self.take().unwrap_or_else(
            |_u: ()| -> (out: T) requires call_requires(value, ()) ensures call_ensures(value, (), out) { value() },
        );
        self.insert(local)
    }

    /// Fill an absent slot with `value`, then hand back a mutable borrow of
    /// the contents.
    pub fn get_or_insert(&mut self, value: T) -> (r: &mut T)
        ensures
            old(self)@ matches SumView::OkVal(t) ==> *r == t,
            old(self)@ is ErrVal ==> *r == value,
            final(self)@ == SumView::<T, ()>::OkVal(*final(r)),
    {
        self.get_or_insert_with(|| -> (out: T) ensures out == value { value })
    }
}

impl<T: Default> HardOption<T> {
    /// Fill an absent slot with the payload type's default value, then hand
    /// back a mutable borrow of the contents.
    pub fn get_or_insert_default(&mut self) -> (r: &mut T)
        ensures
            old(self)@ matches SumView::OkVal(t) ==> *r == t,
            old(self)@ is ErrVal ==> call_ensures(<T as Default>::default, (), *r),
            final(self)@ == SumView::<T, ()>::OkVal(*final(r)),
    {
        self.get_or_insert_with(T::default)
    }
}

impl<T> HardOption<T> {
    /// Back to the sum form: an absent value becomes the error `f` builds.
    pub fn ok_or_else<E2, F: FnOnce() -> E2>(self, error: F) -> (r: HardResult<T, E2>)
        requires
            self@ is ErrVal ==> call_requires(error, ()),
        ensures
            self@ matches SumView::OkVal(t) ==> r@ == SumView::<T, E2>::OkVal(t),
            self@ is ErrVal ==> (r@ matches SumView::ErrVal(u) && call_ensures(error, (), u)),
    {
        self.map_err(
            |_u: ()| -> (out: E2) requires call_requires(error, ()) ensures call_ensures(error, (), out) { error() },
        )
    }

    /// Back to the sum form: an absent value becomes the given error.
    pub fn ok_or<E2>(self, error: E2) -> (r: HardResult<T, E2>)
        ensures
            self@ matches SumView::OkVal(t) ==> r@ == SumView::<T, E2>::OkVal(t),
            self@ is ErrVal ==> r@ == SumView::<T, E2>::ErrVal(error),
    {
        self.map_err(|_u: ()| -> (out: E2) ensures out == error { error })
    }

    /// True exactly when a value is present.
    pub fn is_some(&self) -> (r: HardBool)
        ensures
            (r@ is OkVal) <==> (self@ is OkVal),
    {
        self.is_ok()
    }

    /// True exactly when the slot is absent.
    pub fn is_none(&self) -> (r: HardBool)
        ensures
            (r@ is OkVal) <==> (self@ is ErrVal),
    {
        self.is_err()
    }
}

} // verus!
