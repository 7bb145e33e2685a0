//! Traits for either borrowing or sharing data.
//!
//! A generic wrapper type may own its contents or may hold a reference to
//! contents that live elsewhere. The traits here let an accessor method be
//! written once for both shapes. [`Bos`] declares, per implementer, how a
//! plain reference to some target data is produced from a borrow of the
//! implementer; [`BorrowOrShare`] is the derived two-lifetime form whose
//! method hands that reference out under a caller-chosen lifetime, sound
//! exactly when the produced reference is known to live that long.
//!
//! An implementer is *owning* when the produced reference points into the
//! implementer itself, so its extent is the borrow used to obtain it, and
//! *reference-holding* when the produced reference is copied out of the
//! implementer unchanged, so its extent is that of data living elsewhere
//! and may exceed any borrow of the implementer.
//!
//! No implementation is provided on the target type for itself: a
//! blanket identity implementation would surface in the documentation of
//! every dependent type, which is noisy, so including one is left to the
//! caller as a policy choice.

use std::borrow::Cow;
use std::rc::Rc;
use std::sync::Arc;
use vstd::prelude::*;

verus! {

/// The structural constraint on an implementer's result-reference type:
/// the value is, structurally, nothing but a plain reference to `T`, so
/// re-declaring its lifetime is sound exactly when the requested lifetime
/// is covered by the reference's true extent. That side condition is
/// discharged by the borrow checker at every use of [`Ref::cast`], never
/// at run time.
pub trait Ref<T: ?Sized> {
    /// The plain reference this value is.
    spec fn to_ref<'a>(self) -> &'a T where Self: 'a;

    /// Hand the reference out under the lifetime `'a`, unchanged.
    fn cast<'a>(self) -> (r: &'a T) where Self: 'a
        ensures
            r == self.to_ref(),
    ;
}

impl<T: ?Sized> Ref<T> for &T {
    open spec fn to_ref<'a>(self) -> &'a T where Self: 'a {
        self
    }

    fn cast<'a>(self) -> (r: &'a T) where Self: 'a {
        self
    }
}

/// A trait for either borrowing or sharing data.
///
/// `'this` is the duration of the borrow used to reach the implementer;
/// `T` is the target the produced reference points to.
pub trait Bos<'this, T: ?Sized> {
    /// The resulting reference type. May only be a plain `&T`, which the
    /// [`Ref`] bound enforces; its lifetime is `'this` for an owning
    /// implementer and the lifetime of the held reference for a
    /// reference-holding one.
    type Ref: Ref<T>;

    /// The abstraction under which result references are compared: the
    /// mathematical value a reference to `T` stands for.
    type V;

    /// The value a produced reference `r` stands for.
    spec fn refv(r: &T) -> Self::V;

    /// The one value every produced reference must stand for: for an
    /// owning implementer, the value seen by borrowing the target view
    /// directly out of `*this`; for a reference-holding implementer, the
    /// value behind the reference stored in `*this`.
    spec fn target(this: &Self) -> Self::V;

    /// Borrows from `*this` or from behind a reference it holds,
    /// returning a reference of type [`Self::Ref`].
    fn borrow_or_share(this: &'this Self) -> (r: Self::Ref)
        ensures
            Self::refv(r.to_ref()) == Self::target(this),
    ;
}

/// A helper trait for writing "data borrowing or sharing" functions.
///
/// `'i` is the duration of the borrow of the implementer; `'o` is the
/// caller-chosen lifetime of the result. It is implemented once, for every
/// implementer of [`Bos`] whose result-reference type lives for `'o`: for
/// an owning implementer that restricts `'o` to be within `'i`, while for
/// a reference-holding one `'o` may extend up to the extent of the held
/// reference, independently of `'i`.
pub trait BorrowOrShare<'i, 'o, T: ?Sized>: Bos<'i, T> {
    /// Borrows from `*self` or from behind a reference it holds.
    fn borrow_or_share(&'i self) -> (r: &'o T)
        ensures
            Self::refv(r) == Self::target(self),
    ;
}

impl<'i, 'o, T: ?Sized, B> BorrowOrShare<'i, 'o, T> for B
where
    B: Bos<'i, T> + ?Sized,
    B::Ref: 'o,
{
    fn borrow_or_share(&'i self) -> (r: &'o T) {
        let raw: B::Ref = B::borrow_or_share(self);
        raw.cast()
    }
}

/// The accessor as a free function: borrows from `*this` or from behind
/// a reference it holds, under the caller-chosen lifetime `'o`.
pub fn borrow_or_share<'i, 'o, T, B>(this: &'i B) -> (r: &'o T) where
    T: ?Sized,
    B: BorrowOrShare<'i, 'o, T> + ?Sized,
    ensures
        B::refv(r) == B::target(this),
{
    this.borrow_or_share()
}

/// A plain reference is reference-holding: the accessor copies the held
/// reference out unchanged, so the result lives as long as `'a`, beyond
/// any borrow of the holder itself.
impl<'this, 'a: 'this, T: ?Sized> Bos<'this, T> for &'a T {
    type Ref = &'a T;

    type V = &'a T;

    open spec fn refv(r: &T) -> &'a T {
        r
    }

    open spec fn target(this: &Self) -> &'a T {
        *this
    }

    fn borrow_or_share(this: &'this Self) -> (r: Self::Ref) {
        *this
    }
}

/// A mutable reference is owning: handing the held reference out
/// unchanged would alias the exclusive borrow, so the accessor reborrows
/// instead and the result lives no longer than the borrow of the holder.
impl<'this, 'a: 'this, T: ?Sized> Bos<'this, T> for &'a mut T {
    type Ref = &'this T;

    type V = &'this T;

    open spec fn refv(r: &T) -> &'this T {
        r
    }

    open spec fn target(this: &Self) -> &'this T {
        &**this
    }

    fn borrow_or_share(this: &'this Self) -> (r: Self::Ref) {
        &**this
    }
}

/// An owned text buffer is owning: the accessor borrows the text view
/// directly out of the buffer, so the result lives only as long as the
/// borrow of the buffer.
impl<'this> Bos<'this, str> for String {
    type Ref = &'this str;

    type V = Seq<char>;

    open spec fn refv(r: &str) -> Seq<char> {
        r@
    }

    open spec fn target(this: &Self) -> Seq<char> {
        this@
    }

    fn borrow_or_share(this: &'this Self) -> (r: Self::Ref) {
        this.as_str()
    }
}

/// A fixed-size buffer is owning: the accessor borrows the sequence view
/// directly out of the buffer.
impl<'this, T: 'this, const N: usize> Bos<'this, [T]> for [T; N] {
    type Ref = &'this [T];

    type V = Seq<T>;

    open spec fn refv(r: &[T]) -> Seq<T> {
        r@
    }

    open spec fn target(this: &Self) -> Seq<T> {
        this@
    }

    fn borrow_or_share(this: &'this Self) -> (r: Self::Ref) {
        this.as_slice()
    }
}

/// A growable buffer is owning: the accessor borrows the sequence view
/// directly out of the buffer.
impl<'this, T: 'this> Bos<'this, [T]> for Vec<T> {
    type Ref = &'this [T];

    type V = Seq<T>;

    open spec fn refv(r: &[T]) -> Seq<T> {
        r@
    }

    open spec fn target(this: &Self) -> Seq<T> {
        this@
    }

    fn borrow_or_share(this: &'this Self) -> (r: Self::Ref) {
        this.as_slice()
    }
}

/// An exclusively-owned heap box is owning: the accessor borrows its
/// contents in place.
impl<'this, T: ?Sized + 'this> Bos<'this, T> for Box<T> {
    type Ref = &'this T;

    type V = &'this T;

    open spec fn refv(r: &T) -> &'this T {
        r
    }

    open spec fn target(this: &Self) -> &'this T {
        &**this
    }

    fn borrow_or_share(this: &'this Self) -> (r: Self::Ref) {
        &**this
    }
}

/// A copy-on-write owner is owning for the purpose of this trait, whether
/// it currently holds an owned value or a borrowed one: the class is
/// fixed per type, so the accessor conservatively ties the result to the
/// borrow of the owner even when the held variant could outlive it.
impl<'this, 'c, T: Clone + 'this> Bos<'this, T> for Cow<'c, T> {
    type Ref = &'this T;

    type V = T;

    open spec fn refv(r: &T) -> T {
        *r
    }

    open spec fn target(this: &Self) -> T {
        match this {
            Cow::Borrowed(b) => **b,
            Cow::Owned(o) => *o,
        }
    }

    fn borrow_or_share(this: &'this Self) -> (r: Self::Ref) {
        match this {
            Cow::Borrowed(b) => *b,
            Cow::Owned(o) => o,
        }
    }
}

/// A copy-on-write owner of a text view, owning, exactly as the general
/// copy-on-write owner is.
impl<'this, 'c> Bos<'this, str> for Cow<'c, str> {
    type Ref = &'this str;

    type V = Seq<char>;

    open spec fn refv(r: &str) -> Seq<char> {
        r@
    }

    open spec fn target(this: &Self) -> Seq<char> {
        match this {
            Cow::Borrowed(b) => b@,
            Cow::Owned(o) => o@,
        }
    }

    fn borrow_or_share(this: &'this Self) -> (r: Self::Ref) {
        match this {
            Cow::Borrowed(b) => *b,
            Cow::Owned(o) => o.as_str(),
        }
    }
}

/// A copy-on-write owner of a sequence view, owning, exactly as the
/// general copy-on-write owner is.
impl<'this, 'c, T: Clone + 'this> Bos<'this, [T]> for Cow<'c, [T]> {
    type Ref = &'this [T];

    type V = Seq<T>;

    open spec fn refv(r: &[T]) -> Seq<T> {
        r@
    }

    open spec fn target(this: &Self) -> Seq<T> {
        match this {
            Cow::Borrowed(b) => b@,
            Cow::Owned(o) => o@,
        }
    }

    fn borrow_or_share(this: &'this Self) -> (r: Self::Ref) {
        match this {
            Cow::Borrowed(b) => *b,
            Cow::Owned(o) => o.as_slice(),
        }
    }
}

/// A single-threaded reference-counted shared owner is owning for the
/// purpose of this trait: the accessor borrows the shared contents for no
/// longer than the borrow of this particular handle.
impl<'this, T: ?Sized + 'this> Bos<'this, T> for Rc<T> {
    type Ref = &'this T;

    type V = &'this T;

    open spec fn refv(r: &T) -> &'this T {
        r
    }

    open spec fn target(this: &Self) -> &'this T {
        &**this
    }

    fn borrow_or_share(this: &'this Self) -> (r: Self::Ref) {
        &**this
    }
}

/// A thread-safe reference-counted shared owner is owning for the purpose
/// of this trait, exactly like its single-threaded counterpart.
impl<'this, T: ?Sized + 'this> Bos<'this, T> for Arc<T> {
    type Ref = &'this T;

    type V = &'this T;

    open spec fn refv(r: &T) -> &'this T {
        r
    }

    open spec fn target(this: &Self) -> &'this T {
        &**this
    }

    fn borrow_or_share(this: &'this Self) -> (r: Self::Ref) {
        &**this
    }
}

/// Law: invoking the accessor twice on the same unmodified value yields
/// two references that stand for the same abstract value, whichever
/// implementer produced them.
pub proof fn lemma_accessor_idempotent<'t, T: ?Sized, B: Bos<'t, T> + ?Sized>(
    this: &B,
    r1: &T,
    r2: &T,
)
    requires
        B::refv(r1) == B::target(this),
        B::refv(r2) == B::target(this),
    ensures
        B::refv(r1) == B::refv(r2),
{
}

/// Law: the accessor contract of a reference-holding implementer forces
/// the result to be the reference value stored in the implementer,
/// unchanged.
pub proof fn lemma_shared_is_stored_reference<'t, 'a: 't, T: ?Sized>(this: &&'a T, r: &T)
    requires
        <&'a T as Bos<'t, T>>::refv(r) == <&'a T as Bos<'t, T>>::target(this),
    ensures
        r == *this,
{
}

/// Law: for the owning text buffer, the accessor contract forces the
/// result to carry the very view borrowed directly from the buffer.
pub proof fn lemma_owning_text_buffer<'t>(this: &String, r: &str)
    requires
        <String as Bos<'t, str>>::refv(r) == <String as Bos<'t, str>>::target(this),
    ensures
        r@ == this@,
{
}

/// Law: for the owning growable buffer, the accessor contract forces the
/// result to carry the very view borrowed directly from the buffer.
pub proof fn lemma_owning_growable_buffer<'t, T: 't>(this: &Vec<T>, r: &[T])
    requires
        <Vec<T> as Bos<'t, [T]>>::refv(r) == <Vec<T> as Bos<'t, [T]>>::target(this),
    ensures
        r@ == this@,
{
}

/// Law: for the owning fixed-size buffer, the accessor contract forces
/// the result to carry the very view borrowed directly from the buffer.
pub proof fn lemma_owning_fixed_buffer<'t, T: 't, const N: usize>(this: &[T; N], r: &[T])
    requires
        <[T; N] as Bos<'t, [T]>>::refv(r) == <[T; N] as Bos<'t, [T]>>::target(this),
    ensures
        r@ == this@,
{
}

/// Law: for the owning heap box, the accessor contract forces the result
/// to point at the boxed contents themselves.
pub proof fn lemma_owning_heap_box<'t, T: ?Sized + 't>(this: &Box<T>, r: &T)
    requires
        <Box<T> as Bos<'t, T>>::refv(r) == <Box<T> as Bos<'t, T>>::target(this),
    ensures
        r == &**this,
{
}

/// Law: for the owning single-threaded shared owner, the accessor
/// contract forces the result to point at the shared contents themselves.
pub proof fn lemma_owning_shared_owner<'t, T: ?Sized + 't>(this: &Rc<T>, r: &T)
    requires
        <Rc<T> as Bos<'t, T>>::refv(r) == <Rc<T> as Bos<'t, T>>::target(this),
    ensures
        r == &**this,
{
}

/// Law: for the owning thread-safe shared owner, the accessor contract
/// forces the result to point at the shared contents themselves.
pub proof fn lemma_owning_threadsafe_shared_owner<'t, T: ?Sized + 't>(this: &Arc<T>, r: &T)
    requires
        <Arc<T> as Bos<'t, T>>::refv(r) == <Arc<T> as Bos<'t, T>>::target(this),
    ensures
        r == &**this,
{
}

/// The reference obtained by borrowing directly through a held mutable
/// reference: the ordinary reborrow.
pub open spec fn reborrowed<'x, 'a, T: ?Sized>(this: &'x &'a mut T) -> &'x T {
    &**this
}

/// Law: for the owning mutable reference, the accessor contract forces
/// the result to be the ordinary reborrow of the held reference; it is
/// reborrowed, not handed out.
pub proof fn lemma_owning_mutable_reference<'t, 'a: 't, T: ?Sized>(this: &&'a mut T, r: &T)
    requires
        <&'a mut T as Bos<'t, T>>::refv(r) == <&'a mut T as Bos<'t, T>>::target(this),
    ensures
        r == reborrowed(this),
{
}

/// Law: for the general copy-on-write owner, the accessor contract
/// forces the result to point at whichever value is held: the value
/// behind the borrowed reference, or the owned value in place.
pub proof fn lemma_owning_copy_on_write<'t, 'c, T: Clone + 't>(this: &Cow<'c, T>, r: &T)
    requires
        <Cow<'c, T> as Bos<'t, T>>::refv(r) == <Cow<'c, T> as Bos<'t, T>>::target(this),
    ensures
        this matches Cow::Borrowed(b) ==> *r == **b,
        this matches Cow::Owned(o) ==> *r == *o,
{
}

/// Law: for the copy-on-write owner of a sequence, the accessor contract
/// forces the result to carry the view of whichever variant is held.
pub proof fn lemma_owning_copy_on_write_sequence<'t, 'c, T: Clone + 't>(this: &Cow<'c, [T]>, r: &[T])
    requires
        <Cow<'c, [T]> as Bos<'t, [T]>>::refv(r) == <Cow<'c, [T]> as Bos<'t, [T]>>::target(this),
    ensures
        this matches Cow::Borrowed(b) ==> r@ == b@,
        this matches Cow::Owned(o) ==> r@ == o@,
{
}

/// Law: for the copy-on-write owner of text, the accessor contract forces
/// the result to carry the view of whichever variant is held: the view
/// behind the borrowed reference, or the view of the owned buffer. The
/// result's extent is tied to the borrow of the owner in both cases, even
/// when the held variant could support more: the class is fixed per type,
/// a conservative but sound policy.
pub proof fn lemma_owning_copy_on_write_text<'t, 'c>(this: &Cow<'c, str>, r: &str)
    requires
        <Cow<'c, str> as Bos<'t, str>>::refv(r) == <Cow<'c, str> as Bos<'t, str>>::target(this),
    ensures
        this matches Cow::Borrowed(b) ==> r@ == b@,
        this matches Cow::Owned(o) ==> r@ == o@,
{
}

} // verus!
