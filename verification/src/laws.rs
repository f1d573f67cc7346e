//! The algebraic laws of the sum type, stated against the contracts of the
//! constructors and combinators and proved once for every payload type.

use crate::sum::lemma_view_determines;
use crate::sum::HardBool;
use crate::sum::HardOption;
use crate::sum::HardResult;
use crate::sum::SumView;
use vstd::prelude::*;

verus! {

/// Unwrapping a value built as Ok hands back exactly the stored payload:
/// `v` stands for `new(x)` through the constructor's contract, `r` for
/// `v.unwrap()` through the accessor's contract.
pub proof fn lemma_unwrap_inverts_new<T, E>(x: T, v: HardResult<T, E>, r: T)
    requires
        v@ == SumView::<T, E>::OkVal(x),
        v@ == SumView::<T, E>::OkVal(r),
    ensures
        r == x,
{
}

/// Unwrapping the Err side of a value built as Err hands back exactly the
/// stored payload.
pub proof fn lemma_unwrap_err_inverts_new_err<T, E>(x: E, v: HardResult<T, E>, r: E)
    requires
        v@ == SumView::<T, E>::ErrVal(x),
        v@ == SumView::<T, E>::ErrVal(r),
    ensures
        r == x,
{
}

/// Functor law: mapping with a continuation that behaves as the identity
/// returns the value unchanged, structurally. The premises are exactly what
/// `map`'s contract gives when the continuation's postcondition pins its
/// output to its input.
pub proof fn lemma_map_identity<T, E>(v: HardResult<T, E>, r: HardResult<T, E>)
    requires
        v.wf(),
        r.wf(),
        v@ matches SumView::ErrVal(e) ==> r@ == SumView::<T, E>::ErrVal(e),
        v@ matches SumView::OkVal(t) ==> (r@ matches SumView::OkVal(u) && u == t),
    ensures
        r == v,
{
    lemma_view_determines(r, v);
}

/// The model of short-circuiting composition on views: a live Err passes
/// through, a live Ok payload feeds the continuation.
pub open spec fn sv_and_then<T, U, E>(
    v: SumView<T, E>,
    k: spec_fn(T) -> SumView<U, E>,
) -> SumView<U, E> {
    match v {
        SumView::OkVal(t) => k(t),
        SumView::ErrVal(e) => SumView::ErrVal(e),
    }
}

/// `and_then`'s contract folded against a spec-level continuation: when `k`
/// captures every behavior of `op`, the result's view is `sv_and_then` of
/// the input's view.
pub proof fn lemma_and_then_models<T, U, E, F: FnOnce(T) -> HardResult<U, E>>(
    v: HardResult<T, E>,
    op: F,
    r: HardResult<U, E>,
    k: spec_fn(T) -> SumView<U, E>,
)
    requires
        v@ matches SumView::ErrVal(e) ==> r@ == SumView::<U, E>::ErrVal(e),
        v@ matches SumView::OkVal(t) ==> call_ensures(op, (t,), r),
        forall|t: T, out: HardResult<U, E>| #[trigger] call_ensures(op, (t,), out) ==> out@ == k(t),
    ensures
        r@ == sv_and_then(v@, k),
{
}

/// Monad law: composing two continuations one `and_then` at a time equals
/// one `and_then` with the fused continuation.
pub proof fn lemma_and_then_assoc<T, U, W, E>(
    v: SumView<T, E>,
    f: spec_fn(T) -> SumView<U, E>,
    g: spec_fn(U) -> SumView<W, E>,
)
    ensures
        sv_and_then(sv_and_then(v, f), g) == sv_and_then(
            v,
            (|t: T| sv_and_then(f(t), g)),
        ),
{
}

/// `ok().is_some()` and `is_ok()` agree: `o` stands for `v.ok()`, `s` for
/// `o.is_some()`, `k` for `v.is_ok()`, each through its contract.
pub proof fn lemma_ok_some_agrees_is_ok<T, E>(
    v: HardResult<T, E>,
    o: HardOption<T>,
    s: HardBool,
    k: HardBool,
)
    requires
        s.wf(),
        k.wf(),
        v@ matches SumView::OkVal(t) ==> o@ == SumView::<T, ()>::OkVal(t),
        v@ is ErrVal ==> o@ == SumView::<T, ()>::ErrVal(()),
        (s@ is OkVal) <==> (o@ is OkVal),
        (k@ is OkVal) <==> (v@ is OkVal),
    ensures
        s == k,
{
    lemma_hard_bool_view_agrees(s, k);
    lemma_view_determines(s, k);
}

/// `err().is_some()` and `is_err()` agree, in the same relational reading.
pub proof fn lemma_err_some_agrees_is_err<T, E>(
    v: HardResult<T, E>,
    o: HardOption<E>,
    s: HardBool,
    k: HardBool,
)
    requires
        s.wf(),
        k.wf(),
        v@ matches SumView::ErrVal(e) ==> o@ == SumView::<E, ()>::OkVal(e),
        v@ is OkVal ==> o@ == SumView::<E, ()>::ErrVal(()),
        (s@ is OkVal) <==> (o@ is OkVal),
        (k@ is OkVal) <==> (v@ is ErrVal),
    ensures
        s == k,
{
    lemma_hard_bool_view_agrees(s, k);
    lemma_view_determines(s, k);
}

/// Two booleans that agree on their truth side have equal views: the unit
/// payloads leave nothing else to differ in.
proof fn lemma_hard_bool_view_agrees(s: HardBool, k: HardBool)
    requires
        (s@ is OkVal) <==> (k@ is OkVal),
    ensures
        s@ == k@,
{
    match s@ {
        SumView::OkVal(a) => {
            let b = k@->OkVal_0;
            assert(s@ == SumView::<(), ()>::OkVal(a));
            assert(k@ == SumView::<(), ()>::OkVal(b));
            assert(a == b);
        },
        SumView::ErrVal(a) => {
            let b = k@->ErrVal_0;
            assert(s@ == SumView::<(), ()>::ErrVal(a));
            assert(k@ == SumView::<(), ()>::ErrVal(b));
            assert(a == b);
        },
    }
}

/// The relation `transpose`'s contract pins between input and output, read
/// at the option-of-option type, where input and output have the same shape.
pub open spec fn transposed<T>(v: HardOption<HardOption<T>>, r: HardOption<HardOption<T>>) -> bool {
    &&& (v@ matches SumView::ErrVal(e) ==> (r@ matches SumView::OkVal(inner) && inner@
        == SumView::<T, ()>::ErrVal(e)))
    &&& (v@ matches SumView::OkVal(opt) ==> (opt@ matches SumView::OkVal(t) ==> (r@ matches
        SumView::OkVal(inner) && inner@ == SumView::<T, ()>::OkVal(t))))
    &&& (v@ matches SumView::OkVal(opt) ==> (opt@ is ErrVal ==> r@ == SumView::<
        HardOption<T>,
        (),
    >::ErrVal(())))
}

/// Transposing twice returns the original value: `transpose` is an
/// involution on compatibly nested values.
pub proof fn lemma_transpose_involutive<T>(
    x: HardOption<HardOption<T>>,
    y: HardOption<HardOption<T>>,
    z: HardOption<HardOption<T>>,
)
    requires
        x.wf(),
        z.wf(),
        x@ matches SumView::OkVal(o) ==> o.wf(),
        z@ matches SumView::OkVal(o) ==> o.wf(),
        transposed(x, y),
        transposed(y, z),
    ensures
        z == x,
{
    match x@ {
        SumView::OkVal(o) => {
            match o@ {
                SumView::OkVal(_t) => {
                    let inner_z = z@->OkVal_0;
                    lemma_view_determines(inner_z, o);
                    lemma_view_determines(z, x);
                },
                SumView::ErrVal(_u) => {
                    let inner_z = z@->OkVal_0;
                    lemma_view_determines(inner_z, o);
                    lemma_view_determines(z, x);
                },
            }
        },
        SumView::ErrVal(_u) => {
            lemma_view_determines(z, x);
        },
    }
}

} // verus!
