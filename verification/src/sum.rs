//! The storage core: the `HardResult` shell, its discriminant invariant, the
//! dispatch primitive that is the sole reader of the payload slots, and the
//! bit-level boolean primitives on the unit specialization.

use vstd::pervasive::cloned;
use vstd::pervasive::unreached;
use vstd::prelude::*;

verus! {

/// Legal discriminant marking the Ok side.
pub(crate) const TAG_OK: u64 = 0xAAAA_AAAA_AAAA_AAAA;

/// Legal discriminant marking the Err side; the exact bitwise complement of
/// `TAG_OK`.
pub(crate) const TAG_ERR: u64 = 0x5555_5555_5555_5555;

/// The mathematical value of a `HardResult`: the one live payload.
pub enum SumView<T, E> {
    OkVal(T),
    ErrVal(E),
}

/// A two-variant sum of `T` and `E`. The discriminant selects which of the
/// two payload slots is live; the other slot is empty, never read.
#[derive(Debug, Hash)]
pub struct HardResult<T, E> {
    tag: u64,
    ok_slot: Option<T>,
    err_slot: Option<E>,
}

/// `Option` with absence carried on the Err side.
pub type HardOption<A> = HardResult<A, ()>;

/// A boolean: `Ok` is true, `Err` is false.
pub type HardBool = HardOption<()>;

impl<T, E> View for HardResult<T, E> {
    type V = SumView<T, E>;

    closed spec fn view(&self) -> SumView<T, E> {
        if self.tag == TAG_OK {
            SumView::OkVal(self.ok_slot->Some_0)
        } else {
            SumView::ErrVal(self.err_slot->Some_0)
        }
    }
}

impl<T, E> HardResult<T, E> {
    /// The representation invariant: the discriminant holds one of the two
    /// legal constants, and it selects the single live slot.
    #[verifier::type_invariant]
    pub closed spec fn wf(self) -> bool {
        &&& self.tag == TAG_OK || self.tag == TAG_ERR
        &&& (self.tag == TAG_OK <==> self.ok_slot is Some)
        &&& (self.tag == TAG_ERR <==> self.err_slot is Some)
    }

    /// Construct the Ok variant: the payload write and the matching
    /// discriminant write happen in one constructor expression.
    pub fn new(value: T) -> (r: Self)
        ensures
            r@ == SumView::<T, E>::OkVal(value),
    {
        HardResult { tag: TAG_OK, ok_slot: Some(value), err_slot: None }
    }

    /// Construct the Err variant.
    pub fn new_err(value: E) -> (r: Self)
        ensures
            r@ == SumView::<T, E>::ErrVal(value),
    {
        HardResult { tag: TAG_ERR, ok_slot: None, err_slot: Some(value) }
    }
}

impl<T, E> HardResult<T, E> {
    /// Move the Ok payload out. The caller must know the Ok side is live;
    /// that knowledge replaces the unchecked storage read of a raw union.
    pub fn unwrap_unchecked(self) -> (r: T)
        requires
            self@ is OkVal,
        ensures
            self@ == SumView::<T, E>::OkVal(r),
    {
        proof {
            use_type_invariant(&self);
        }
        match self.ok_slot {
            Some(t) => t,
            None => unreached(),
        }
    }

    /// Move the Err payload out; the mirror image of `unwrap_unchecked`.
    pub fn unwrap_err_unchecked(self) -> (r: E)
        requires
            self@ is ErrVal,
        ensures
            self@ == SumView::<T, E>::ErrVal(r),
    {
        proof {
            use_type_invariant(&self);
        }
        match self.err_slot {
            Some(e) => e,
            None => unreached(),
        }
    }

    /// The dispatch primitive: the only operation that reads the payload
    /// storage. Exactly one of the two continuations runs, with ownership of
    /// the live payload; the other is never called. The final arm is the
    /// corruption case of the discriminant, and the invariant proves it
    /// unreachable, so a run can never reach it through safe construction.
    pub fn map_or_else<U, D: FnOnce(E) -> U, F: FnOnce(T) -> U>(self, else_do: D, then_do: F) -> (r:
        U)
        requires
            self@ matches SumView::ErrVal(e) ==> call_requires(else_do, (e,)),
            self@ matches SumView::OkVal(t) ==> call_requires(then_do, (t,)),
        ensures
            self@ matches SumView::ErrVal(e) ==> call_ensures(else_do, (e,), r),
            self@ matches SumView::OkVal(t) ==> call_ensures(then_do, (t,), r),
    {
        proof {
            use_type_invariant(&self);
        }
        let tag = self.tag;
        if tag == TAG_OK {
            then_do(self.unwrap_unchecked())
        } else if tag == TAG_ERR {
            else_do(self.unwrap_err_unchecked())
        } else {
            unreached()
        }
    }

    /// Forget the payloads, keeping only the discriminant as a `HardBool`:
    /// true exactly when the Ok side is live.
    pub fn truncate(&self) -> (r: HardBool)
        ensures
            (r@ is OkVal) <==> (self@ is OkVal),
    {
        proof {
            use_type_invariant(self);
        }
        HardResult::<(), ()>::from_tag(self.tag)
    }
}

impl HardResult<(), ()> {
    /// Rebuild a `HardBool` around a discriminant word, which must be legal.
    fn from_tag(tag: u64) -> (r: HardBool)
        requires
            tag == TAG_OK || tag == TAG_ERR,
        ensures
            (r@ is OkVal) <==> (tag == TAG_OK),
    {
        if tag == TAG_OK {
            HardResult { tag, ok_slot: Some(()), err_slot: None }
        } else {
            HardResult { tag, ok_slot: None, err_slot: Some(()) }
        }
    }
}

impl<T, E> HardResult<T, E> {
    /// Borrow projection: a new shell with the same discriminant whose live
    /// payload is a reference into this one. The original is not consumed.
    pub fn as_ref(&self) -> (r: HardResult<&T, &E>)
        ensures
            self@ matches SumView::OkVal(t) ==> r@ matches SumView::OkVal(p) && *p == t,
            self@ matches SumView::ErrVal(e) ==> r@ matches SumView::ErrVal(p) && *p == e,
    {
        proof {
            use_type_invariant(self);
        }
        if self.tag == TAG_OK {
            match &self.ok_slot {
                Some(t) => HardResult { tag: TAG_OK, ok_slot: Some(t), err_slot: None },
                None => unreached(),
            }
        } else {
            match &self.err_slot {
                Some(e) => HardResult { tag: TAG_ERR, ok_slot: None, err_slot: Some(e) },
                None => unreached(),
            }
        }
    }
}

impl<T: Clone, E: Clone> Clone for HardResult<T, E> {
    /// Clone by borrow projection plus one dispatch, never by reading the
    /// slots directly.
    fn clone(&self) -> (r: Self)
        ensures
            self@ matches SumView::OkVal(t) ==> r@ matches SumView::OkVal(u) && cloned(t, u),
            self@ matches SumView::ErrVal(e) ==> r@ matches SumView::ErrVal(u) && cloned(e, u),
    {
        self.as_ref().map_or_else(
            |e: &E| -> (out: Self) ensures (out@ matches SumView::ErrVal(u) && cloned(*e, u)) { HardResult::new_err(e.clone()) },
            |x: &T| -> (out: Self) ensures (out@ matches SumView::OkVal(u) && cloned(*x, u)) { HardResult::new(x.clone()) },
        )
    }
}

impl HardResult<(), ()> {
    /// Conjunction, computed on the discriminant bits alone: when the
    /// operands agree the shared discriminant is kept, and when they disagree
    /// the false constant is forced.
    pub fn bitand(self, other: Self) -> (r: Self)
        ensures
            (r@ is OkVal) <==> ((self@ is OkVal) && (other@ is OkVal)),
    {
        proof {
            use_type_invariant(&self);
            use_type_invariant(&other);
        }
        let a = self.tag;
        let b = other.tag;
        let mask = !a ^ b;
        let tag = a & mask | TAG_ERR & !mask;
        proof {
            lemma_tags_complementary();
            assert(b == a ==> ((a & (!a ^ b)) | (0x5555_5555_5555_5555u64 & !(!a ^ b))) == a)
                by (bit_vector);
            assert(b == !a ==> ((a & (!a ^ b)) | (0x5555_5555_5555_5555u64 & !(!a ^ b)))
                == 0x5555_5555_5555_5555u64) by (bit_vector);
        }
        Self::from_tag(tag)
    }

    /// Disjunction on the discriminant bits: agreement keeps the shared
    /// discriminant, disagreement forces the true constant.
    pub fn bitor(self, other: Self) -> (r: Self)
        ensures
            (r@ is OkVal) <==> ((self@ is OkVal) || (other@ is OkVal)),
    {
        proof {
            use_type_invariant(&self);
            use_type_invariant(&other);
        }
        let a = self.tag;
        let b = other.tag;
        let mask = !a ^ b;
        let tag = a & mask | TAG_OK & !mask;
        proof {
            lemma_tags_complementary();
            assert(b == a ==> ((a & (!a ^ b)) | (0xAAAA_AAAA_AAAA_AAAAu64 & !(!a ^ b))) == a)
                by (bit_vector);
            assert(b == !a ==> ((a & (!a ^ b)) | (0xAAAA_AAAA_AAAA_AAAAu64 & !(!a ^ b)))
                == 0xAAAA_AAAA_AAAA_AAAAu64) by (bit_vector);
        }
        Self::from_tag(tag)
    }

    /// Exclusive disjunction on the discriminant bits: true exactly when the
    /// operands disagree.
    pub fn bitxor(self, other: Self) -> (r: Self)
        ensures
            (r@ is OkVal) <==> ((self@ is OkVal) != (other@ is OkVal)),
    {
        proof {
            use_type_invariant(&self);
            use_type_invariant(&other);
        }
        let a = self.tag;
        let b = other.tag;
        let mask = !a ^ b;
        let tag = mask & TAG_ERR | !mask & TAG_OK;
        proof {
            lemma_tags_complementary();
            assert(b == a ==> (((!a ^ b) & 0x5555_5555_5555_5555u64) | (!(!a ^ b)
                & 0xAAAA_AAAA_AAAA_AAAAu64)) == 0x5555_5555_5555_5555u64) by (bit_vector);
            assert(b == !a ==> (((!a ^ b) & 0x5555_5555_5555_5555u64) | (!(!a ^ b)
                & 0xAAAA_AAAA_AAAA_AAAAu64)) == 0xAAAA_AAAA_AAAA_AAAAu64) by (bit_vector);
        }
        Self::from_tag(tag)
    }

    /// Negation: the bitwise complement of the discriminant, legal because
    /// the two constants are exact complements of each other.
    pub fn not(self) -> (r: Self)
        ensures
            (r@ is OkVal) <==> (self@ is ErrVal),
    {
        proof {
            use_type_invariant(&self);
            lemma_tags_complementary();
        }
        let tag = !self.tag;
        Self::from_tag(tag)
    }
}

impl<T, E> HardResult<T, E> {
    /// A mutable borrow of the live Ok payload, for the slot-mutation
    /// operations of the option form.
    pub(crate) fn live_ok_mut(&mut self) -> (r: &mut T)
        requires
            old(self)@ is OkVal,
        ensures
            old(self)@ matches SumView::OkVal(t) ==> *r == t,
            final(self)@ == SumView::<T, E>::OkVal(*final(r)),
    {
        proof {
            use_type_invariant(&*self);
        }
        slot_inner_mut(&mut self.ok_slot)
    }
}

/// A mutable borrow of the contents of a slot known to be filled.
fn slot_inner_mut<T>(slot: &mut Option<T>) -> (r: &mut T)
    requires
        (*old(slot)) is Some,
    ensures
        *r == (*old(slot))->Some_0,
        *final(slot) == Some(*final(r)),
    no_unwind
{
    match slot {
        Some(t) => t,
        None => unreached(),
    }
}

impl<T, E> HardResult<T, E> {
    /// Mutable borrow projection: a new shell with the same discriminant
    /// whose live payload is a mutable reference into this one. Writes
    /// through the projection land in the original.
    pub fn as_mut(&mut self) -> (r: HardResult<&mut T, &mut E>)
        ensures
            old(self)@ matches SumView::OkVal(t) ==> (r@ matches SumView::OkVal(p) && *p == t
                && final(self)@ == SumView::<T, E>::OkVal(*final(p))),
            old(self)@ matches SumView::ErrVal(e) ==> (r@ matches SumView::ErrVal(p) && *p == e
                && final(self)@ == SumView::<T, E>::ErrVal(*final(p))),
    {
        proof {
            use_type_invariant(&*self);
        }
        let tag = self.tag;
        if tag == TAG_OK {
            HardResult {
                tag: TAG_OK,
                ok_slot: Some(slot_inner_mut(&mut self.ok_slot)),
                err_slot: None,
            }
        } else {
            HardResult {
                tag: TAG_ERR,
                ok_slot: None,
                err_slot: Some(slot_inner_mut(&mut self.err_slot)),
            }
        }
    }
}

impl From<bool> for HardResult<(), ()> {
    /// True becomes the Ok-tagged unit, false the Err-tagged one.
    fn from(value: bool) -> (r: Self)
        ensures
            (r@ is OkVal) <==> value,
    {
        if value {
            HardResult { tag: TAG_OK, ok_slot: Some(()), err_slot: None }
        } else {
            HardResult { tag: TAG_ERR, ok_slot: None, err_slot: Some(()) }
        }
    }
}

impl vstd::std_specs::convert::FromSpecImpl<bool> for HardResult<(), ()> {
    open spec fn obeys_from_spec() -> bool {
        true
    }

    closed spec fn from_spec(value: bool) -> Self {
        if value {
            HardResult { tag: TAG_OK, ok_slot: Some(()), err_slot: None }
        } else {
            HardResult { tag: TAG_ERR, ok_slot: None, err_slot: Some(()) }
        }
    }
}

/// The two legal discriminants are exact bitwise complements of each other.
proof fn lemma_tags_complementary()
    ensures
        !TAG_OK == TAG_ERR,
        !TAG_ERR == TAG_OK,
{
    assert(!0xAAAA_AAAA_AAAA_AAAAu64 == 0x5555_5555_5555_5555u64) by (bit_vector);
    assert(!0x5555_5555_5555_5555u64 == 0xAAAA_AAAA_AAAA_AAAAu64) by (bit_vector);
}

/// A well-formed shell is determined by its mathematical value: two shells
/// with equal views are equal.
pub proof fn lemma_view_determines<T, E>(a: HardResult<T, E>, b: HardResult<T, E>)
    requires
        a.wf(),
        b.wf(),
        a@ == b@,
    ensures
        a == b,
{
}

} // verus!
