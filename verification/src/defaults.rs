//! The catalogue of defaults of common value types.
//!
//! The list is closed: each entry says what the default of one type is.
use vstd::prelude::*;
use core::cmp::Reverse;
use core::marker::PhantomData;
use core::mem::ManuallyDrop;
use core::num::{Saturating, Wrapping};
use core::ops::RangeFull;
use core::time::Duration;
use crate::{DefaultConst, ExactDefault};

verus! {

/// `core::cmp::Reverse`, a tuple struct with one public field.
#[verifier::external_type_specification]
#[verifier::reject_recursive_types(T)]
pub struct ExReverse<T>(Reverse<T>);

/// `core::num::Saturating`, a tuple struct with one public field.
#[verifier::external_type_specification]
#[verifier::reject_recursive_types(T)]
pub struct ExSaturating<T>(Saturating<T>);

/// `core::num::Wrapping`, a tuple struct with one public field.
#[verifier::external_type_specification]
#[verifier::reject_recursive_types(T)]
pub struct ExWrapping<T>(Wrapping<T>);

/// `core::ops::RangeFull`, a struct without fields.
#[verifier::external_type_specification]
pub struct ExRangeFull(RangeFull);

/// `core::fmt::Error`, a struct without fields.
#[verifier::external_type_specification]
pub struct ExFmtError(core::fmt::Error);

/// The whole length of a duration in nanoseconds, as
/// `core::time::Duration::as_nanos` returns it.
pub uninterp spec fn duration_as_nanos(d: Duration) -> nat;

/// Hands out `core::time::Duration::ZERO`, the duration of no time: it holds
/// zero nanoseconds.
#[verifier::external_body]
fn zero_duration() -> (d: Duration)
    ensures
        duration_as_nanos(d) == 0,
{
    Duration::ZERO
}

impl<T: DefaultConst> DefaultConst for ManuallyDrop<T> {
    open spec fn is_default(v: Self) -> bool {
        T::is_default(v@)
    }

    fn default_value() -> (v: Self) {
        ManuallyDrop::new(T::default_value())
    }
}

impl<T: DefaultConst> DefaultConst for Reverse<T> {
    open spec fn is_default(v: Self) -> bool {
        T::is_default(v.0)
    }

    fn default_value() -> (v: Self) {
        Reverse(T::default_value())
    }
}

impl<T: ExactDefault> ExactDefault for Reverse<T> {
    proof fn lemma_default_unique(a: Self, b: Self) {
        T::lemma_default_unique(a.0, b.0);
    }
}

impl<T: DefaultConst> DefaultConst for Saturating<T> {
    open spec fn is_default(v: Self) -> bool {
        T::is_default(v.0)
    }

    fn default_value() -> (v: Self) {
        Saturating(T::default_value())
    }
}

impl<T: ExactDefault> ExactDefault for Saturating<T> {
    proof fn lemma_default_unique(a: Self, b: Self) {
        T::lemma_default_unique(a.0, b.0);
    }
}

impl<T: DefaultConst> DefaultConst for Wrapping<T> {
    open spec fn is_default(v: Self) -> bool {
        T::is_default(v.0)
    }

    fn default_value() -> (v: Self) {
        Wrapping(T::default_value())
    }
}

impl<T: ExactDefault> ExactDefault for Wrapping<T> {
    proof fn lemma_default_unique(a: Self, b: Self) {
        T::lemma_default_unique(a.0, b.0);
    }
}

impl<T> DefaultConst for Option<T> {
    open spec fn is_default(v: Self) -> bool {
        v is None
    }

    fn default_value() -> (v: Self) {
        None
    }
}

impl<T> ExactDefault for Option<T> {
    proof fn lemma_default_unique(a: Self, b: Self) {
    }
}

impl<T> DefaultConst for &[T] {
    open spec fn is_default(v: Self) -> bool {
        v@.len() == 0
    }

    fn default_value() -> (v: Self) {
        &[]
    }
}

impl<T> ExactDefault for &[T] {
    proof fn lemma_default_unique(a: Self, b: Self) {
        assert(a@ =~= b@);
        assert(a =~= b);
    }
}

impl<T: ?Sized> DefaultConst for PhantomData<T> {
    open spec fn is_default(v: Self) -> bool {
        v == PhantomData::<T>
    }

    fn default_value() -> (v: Self) {
        PhantomData
    }
}

impl<T: ?Sized> ExactDefault for PhantomData<T> {
    proof fn lemma_default_unique(a: Self, b: Self) {
    }
}

impl DefaultConst for &str {
    open spec fn is_default(v: Self) -> bool {
        v == ""
    }

    fn default_value() -> (v: Self) {
        ""
    }
}

impl ExactDefault for &str {
    proof fn lemma_default_unique(a: Self, b: Self) {
    }
}

impl DefaultConst for core::fmt::Error {
    open spec fn is_default(v: Self) -> bool {
        v == core::fmt::Error
    }

    fn default_value() -> (v: Self) {
        core::fmt::Error
    }
}

impl ExactDefault for core::fmt::Error {
    proof fn lemma_default_unique(a: Self, b: Self) {
    }
}

impl DefaultConst for RangeFull {
    open spec fn is_default(v: Self) -> bool {
        v == RangeFull
    }

    fn default_value() -> (v: Self) {
        RangeFull
    }
}

impl ExactDefault for RangeFull {
    proof fn lemma_default_unique(a: Self, b: Self) {
    }
}

impl DefaultConst for Duration {
    open spec fn is_default(v: Self) -> bool {
        duration_as_nanos(v) == 0
    }

    fn default_value() -> (v: Self) {
        zero_duration()
    }
}

} // verus!
