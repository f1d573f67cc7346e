//! The combinator layer: unwrap family, map family, conversions to the
//! option form, transpose, copies and clones of borrowed payloads. Every
//! combinator goes through the dispatch primitive `map_or_else`, through the
//! extraction primitives that the dispatch itself uses, or — for the pure
//! discriminant reads `is_ok` and `is_err` — through `truncate`; none
//! re-implements the variant decision on its own.

use crate::sum::HardBool;
use crate::sum::HardOption;
use crate::sum::HardResult;
use crate::sum::SumView;
use vstd::pervasive::cloned;
use vstd::prelude::*;

verus! {

impl<T, E> HardResult<T, E> {
    /// Return the Ok payload. A call on the Err side would be a logical
    /// variant mismatch, the fatal `UnwrapOnErr` condition; the precondition
    /// rules that side out, so the verified library never reaches it.
    pub fn unwrap(self) -> (r: T)
        requires
            self@ is OkVal,
        ensures
            self@ == SumView::<T, E>::OkVal(r),
    {
        self.unwrap_unchecked()
    }

    /// Return the Err payload; the mismatch condition `UnwrapErrOnOk` is
    /// ruled out by the precondition.
    pub fn unwrap_err(self) -> (r: E)
        requires
            self@ is ErrVal,
        ensures
            self@ == SumView::<T, E>::ErrVal(r),
    {
        self.unwrap_err_unchecked()
    }

    /// Return the Ok payload, or the given default on the Err side.
    pub fn unwrap_or(self, default: T) -> (r: T)
        ensures
            self@ matches SumView::OkVal(t) ==> r == t,
            self@ is ErrVal ==> r == default,
    {
        self.map_or_else(
            |_e: E| -> (out: T) ensures out == default { default },
            |x: T| -> (out: T) ensures out == x { x },
        )
    }

    /// Return the Ok payload, or feed the Err payload to `f`.
    pub fn unwrap_or_else<F: FnOnce(E) -> T>(self, f: F) -> (r: T)
        requires
            self@ matches SumView::ErrVal(e) ==> call_requires(f, (e,)),
        ensures
            self@ matches SumView::OkVal(t) ==> r == t,
            self@ matches SumView::ErrVal(e) ==> call_ensures(f, (e,), r),
    {
        self.map_or_else(f, |x: T| -> (out: T) ensures out == x { x })
    }

    /// `unwrap` under a caller-chosen label; the label plays no part in the
    /// result.
    pub fn expect(self, _msg: &str) -> (r: T)
        requires
            self@ is OkVal,
        ensures
            self@ == SumView::<T, E>::OkVal(r),
    {
        self.unwrap_unchecked()
    }

    /// `unwrap_err` under a caller-chosen label.
    pub fn expect_err(self, _msg: &str) -> (r: E)
        requires
            self@ is ErrVal,
        ensures
            self@ == SumView::<T, E>::ErrVal(r),
    {
        self.unwrap_err_unchecked()
    }
}

impl<T: Default, E> HardResult<T, E> {
    /// Return the Ok payload, or the payload type's default value.
    pub fn unwrap_or_default(self) -> (r: T)
        ensures
            self@ matches SumView::OkVal(t) ==> r == t,
            self@ is ErrVal ==> call_ensures(<T as Default>::default, (), r),
    {
        self.unwrap_or(T::default())
    }
}

impl<T, E> HardResult<T, E> {
    /// Transform only a live Ok payload; an Err payload passes through
    /// unchanged.
    pub fn map<T2, F: FnOnce(T) -> T2>(self, f: F) -> (r: HardResult<T2, E>)
        requires
            self@ matches SumView::OkVal(t) ==> call_requires(f, (t,)),
        ensures
            self@ matches SumView::ErrVal(e) ==> r@ == SumView::<T2, E>::ErrVal(e),
            self@ matches SumView::OkVal(t) ==> (r@ matches SumView::OkVal(u) && call_ensures(
                f,
                (t,),
                u,
            )),
    {
        self.map_or_else(
            |e: E| -> (out: HardResult<T2, E>) ensures out@ == SumView::<T2, E>::ErrVal(e) { HardResult::new_err(e) },
            |x: T| -> (out: HardResult<T2, E>) requires call_requires(f, (x,)) ensures (out@ matches SumView::OkVal(u) && call_ensures(f, (x,), u)) { HardResult::new(f(x)) },
        )
    }

    /// Transform only a live Err payload; an Ok payload passes through
    /// unchanged.
    pub fn map_err<E2, F: FnOnce(E) -> E2>(self, f: F) -> (r: HardResult<T, E2>)
        requires
            self@ matches SumView::ErrVal(e) ==> call_requires(f, (e,)),
        ensures
            self@ matches SumView::OkVal(t) ==> r@ == SumView::<T, E2>::OkVal(t),
            self@ matches SumView::ErrVal(e) ==> (r@ matches SumView::ErrVal(u) && call_ensures(
                f,
                (e,),
                u,
            )),
    {
        self.map_or_else(
            |e: E| -> (out: HardResult<T, E2>) requires call_requires(f, (e,)) ensures (out@ matches SumView::ErrVal(u) && call_ensures(f, (e,), u)) { HardResult::new_err(f(e)) },
            |x: T| -> (out: HardResult<T, E2>) ensures out@ == SumView::<T, E2>::OkVal(x) { HardResult::new(x) },
        )
    }

    /// Fold to a plain value: the default on the Err side, `f` of the
    /// payload on the Ok side.
    pub fn map_or<U, F: FnOnce(T) -> U>(self, default: U, f: F) -> (r: U)
        requires
            self@ matches SumView::OkVal(t) ==> call_requires(f, (t,)),
        ensures
            self@ is ErrVal ==> r == default,
            self@ matches SumView::OkVal(t) ==> call_ensures(f, (t,), r),
    {
        self.map_or_else(|_e: E| -> (out: U) ensures out == default { default }, f)
    }

    /// Keep a live Ok payload; feed a live Err payload to `op`, which may
    /// recover or rewrite the error.
    pub fn or_else<F2, D: FnOnce(E) -> HardResult<T, F2>>(self, op: D) -> (r: HardResult<T, F2>)
        requires
            self@ matches SumView::ErrVal(e) ==> call_requires(op, (e,)),
        ensures
            self@ matches SumView::OkVal(t) ==> r@ == SumView::<T, F2>::OkVal(t),
            self@ matches SumView::ErrVal(e) ==> call_ensures(op, (e,), r),
    {
        self.map_or_else(
            op,
            |x: T| -> (out: HardResult<T, F2>) ensures out@ == SumView::<T, F2>::OkVal(x) { HardResult::new(x) },
        )
    }

    /// Keep a live Ok payload; replace a live Err side by `value`.
    pub fn or<F2>(self, value: HardResult<T, F2>) -> (r: HardResult<T, F2>)
        ensures
            self@ matches SumView::OkVal(t) ==> r@ == SumView::<T, F2>::OkVal(t),
            self@ is ErrVal ==> r == value,
    {
        self.or_else(|_e: E| -> (out: HardResult<T, F2>) ensures out == value { value })
    }

    /// Short-circuiting composition: a live Err passes through, a live Ok
    /// payload feeds into `op`, whose result is returned as is.
    pub fn and_then<U, F: FnOnce(T) -> HardResult<U, E>>(self, op: F) -> (r: HardResult<U, E>)
        requires
            self@ matches SumView::OkVal(t) ==> call_requires(op, (t,)),
        ensures
            self@ matches SumView::ErrVal(e) ==> r@ == SumView::<U, E>::ErrVal(e),
            self@ matches SumView::OkVal(t) ==> call_ensures(op, (t,), r),
    {
        self.map_or_else(
            |e: E| -> (out: HardResult<U, E>) ensures out@ == SumView::<U, E>::ErrVal(e) { HardResult::new_err(e) },
            op,
        )
    }

    /// A live Err passes through; a live Ok side is replaced by `value`.
    pub fn and<U>(self, value: HardResult<U, E>) -> (r: HardResult<U, E>)
        ensures
            self@ matches SumView::ErrVal(e) ==> r@ == SumView::<U, E>::ErrVal(e),
            self@ is OkVal ==> r == value,
    {
        self.and_then(|_t: T| -> (out: HardResult<U, E>) ensures out == value { value })
    }
}

impl<T, E> HardResult<T, E> {
    /// Convert to the option form, discarding a live Err payload.
    pub fn ok(self) -> (r: HardOption<T>)
        ensures
            self@ matches SumView::OkVal(t) ==> r@ == SumView::<T, ()>::OkVal(t),
            self@ is ErrVal ==> r@ == SumView::<T, ()>::ErrVal(()),
    {
        self.map_err(|_e: E| ())
    }

    /// Convert to the option form around the Err payload, discarding a live
    /// Ok payload.
    pub fn err(self) -> (r: HardOption<E>)
        ensures
            self@ matches SumView::ErrVal(e) ==> r@ == SumView::<E, ()>::OkVal(e),
            self@ is OkVal ==> r@ == SumView::<E, ()>::ErrVal(()),
    {
        self.map_or_else(
            |e: E| -> (out: HardOption<E>) ensures out@ == SumView::<E, ()>::OkVal(e) { HardResult::new(e) },
            |_t: T| -> (out: HardOption<E>) ensures out@ == SumView::<E, ()>::ErrVal(()) { HardResult::new_err(()) },
        )
    }
}

impl<T, E> HardResult<HardOption<T>, E> {
    /// Swap the nesting of the sum and its option payload: an Err moves
    /// inside, a present payload moves outside, an absent payload stays
    /// absent.
    pub fn transpose(self) -> (r: HardOption<HardResult<T, E>>)
        ensures
            self@ matches SumView::ErrVal(e) ==> (r@ matches SumView::OkVal(inner) && inner@
                == SumView::<T, E>::ErrVal(e)),
            self@ matches SumView::OkVal(opt) ==> (opt@ matches SumView::OkVal(t) ==> (r@ matches
                SumView::OkVal(inner) && inner@ == SumView::<T, E>::OkVal(t))),
            self@ matches SumView::OkVal(opt) ==> (opt@ is ErrVal ==> r@ == SumView::<
                HardResult<T, E>,
                (),
            >::ErrVal(())),
    {
        self.map_or_else(
            |e: E| -> (out: HardOption<HardResult<T, E>>) ensures (out@ matches SumView::OkVal(inner) && inner@ == SumView::<T, E>::ErrVal(e)) { HardResult::new(HardResult::new_err(e)) },
            |value: HardOption<T>| -> (out: HardOption<HardResult<T, E>>) ensures (value@ matches SumView::OkVal(t) ==> (out@ matches SumView::OkVal(inner) && inner@ == SumView::<T, E>::OkVal(t))), (value@ is ErrVal ==> out@ == SumView::<HardResult<T, E>, ()>::ErrVal(())) { value.map(|v: T| -> (w: HardResult<T, E>) ensures w@ == SumView::<T, E>::OkVal(v) { HardResult::new(v) }) },
        )
    }
}

impl<T: Copy, E> HardResult<&T, E> {
    /// Turn a borrowed Ok payload into an owned copy.
    pub fn copied(self) -> (r: HardResult<T, E>)
        ensures
            self@ matches SumView::OkVal(p) ==> r@ == SumView::<T, E>::OkVal(*p),
            self@ matches SumView::ErrVal(e) ==> r@ == SumView::<T, E>::ErrVal(e),
    {
        self.map(|x: &T| -> (out: T) ensures out == *x { *x })
    }
}

impl<T: Clone, E> HardResult<&T, E> {
    /// Turn a borrowed Ok payload into an owned clone.
    pub fn cloned(self) -> (r: HardResult<T, E>)
        ensures
            self@ matches SumView::OkVal(p) ==> (r@ matches SumView::OkVal(u) && cloned(*p, u)),
            self@ matches SumView::ErrVal(e) ==> r@ == SumView::<T, E>::ErrVal(e),
    {
        self.map(|x: &T| -> (out: T) ensures cloned(*x, out) { x.clone() })
    }
}

impl<T: Copy, E> HardResult<&mut T, E> {
    /// Turn a mutably borrowed Ok payload into an owned copy, leaving the
    /// borrowed place unchanged.
    pub fn copied(self) -> (r: HardResult<T, E>)
        ensures
            self@ matches SumView::OkVal(p) ==> (r@ == SumView::<T, E>::OkVal(*p) && *final(p)
                == *p),
            self@ matches SumView::ErrVal(e) ==> r@ == SumView::<T, E>::ErrVal(e),
    {
        self.map(
            |x: &mut T| -> (out: T) ensures out == *old(x) && *final(x) == *old(x) { *x },
        )
    }
}

impl<T: Clone, E> HardResult<&mut T, E> {
    /// Turn a mutably borrowed Ok payload into an owned clone, leaving the
    /// borrowed place unchanged.
    pub fn cloned(self) -> (r: HardResult<T, E>)
        ensures
            self@ matches SumView::OkVal(p) ==> (r@ matches SumView::OkVal(u) && cloned(*p, u)
                && *final(p) == *p),
            self@ matches SumView::ErrVal(e) ==> r@ == SumView::<T, E>::ErrVal(e),
    {
        self.map(
            |x: &mut T| -> (out: T) ensures cloned(*old(x), out) && *final(x) == *old(x) { x.clone() },
        )
    }
}

impl<T: core::ops::Deref, E> HardResult<T, E> {
    /// Borrow projection through the payload's deref target.
    pub fn as_deref(&self) -> (r: HardResult<&T::Target, &E>)
        ensures
            self@ matches SumView::ErrVal(e) ==> (r@ matches SumView::ErrVal(p) && *p == e),
            self@ matches SumView::OkVal(t) ==> (r@ matches SumView::OkVal(d) && call_ensures(
                <T as core::ops::Deref>::deref,
                (&t,),
                d,
            )),
    {
        self.as_ref().map(
            |x: &T| -> (out: &T::Target) ensures call_ensures(<T as core::ops::Deref>::deref, (x,), out) { x.deref() },
        )
    }
}

impl<T: core::ops::DerefMut, E> HardResult<T, E> {
    /// Mutable borrow projection through the payload's deref target: writes
    /// through the projection land in the payload's referent, and the Err
    /// side carries a mutable borrow of the error.
    pub fn as_deref_mut(&mut self) -> (r: HardResult<&mut T::Target, &mut E>)
        ensures
            old(self)@ matches SumView::ErrVal(e) ==> (r@ matches SumView::ErrVal(p) && *p == e
                && final(self)@ == SumView::<T, E>::ErrVal(*final(p))),
            old(self)@ is OkVal ==> r@ is OkVal,
    {
        self.as_mut().map(|x: &mut T| core::ops::DerefMut::deref_mut(x))
    }
}

impl<T, E> HardResult<T, E> {
    /// True exactly when the Ok side is live.
    pub fn is_ok(&self) -> (r: HardBool)
        ensures
            (r@ is OkVal) <==> (self@ is OkVal),
    {
        self.truncate()
    }

    /// True exactly when the Err side is live.
    pub fn is_err(&self) -> (r: HardBool)
        ensures
            (r@ is OkVal) <==> (self@ is ErrVal),
    {
        self.truncate().not()
    }
}

} // verus!
