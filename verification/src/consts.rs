//! Marker types that derive a new binding from an existing one.
use vstd::prelude::*;
use vstd::std_specs::maybe_uninit::MaybeUninitAdditionalSpecFns;
use core::mem::MaybeUninit;
use crate::{Const, ExactConst};

verus! {

/// Bound to `Some` of the value bound to `C`.
pub struct IntoSome<C>(C);

impl<C: Const> Const for IntoSome<C> {
    type Type = Option<C::Type>;

    open spec fn binds(v: Option<C::Type>) -> bool {
        v is Some && C::binds(v->Some_0)
    }

    fn value() -> (v: Option<C::Type>) {
        Some(C::value())
    }
}

impl<C: ExactConst> ExactConst for IntoSome<C> {
    proof fn lemma_unique(a: Option<C::Type>, b: Option<C::Type>) {
        C::lemma_unique(a->Some_0, b->Some_0);
    }
}

/// Bound to an uninitialized cell for a `T`.
///
/// A cell is known by its contents alone, and this one has none.
pub struct UninitOf<T>(T);

impl<T> Const for UninitOf<T> {
    type Type = MaybeUninit<T>;

    open spec fn binds(v: MaybeUninit<T>) -> bool {
        v.as_option() is None
    }

    fn value() -> (v: MaybeUninit<T>) {
        MaybeUninit::uninit()
    }
}

/// Bound to a cell initialized with the value bound to `C`.
pub struct IntoInit<C>(C);

impl<C: Const> Const for IntoInit<C> {
    type Type = MaybeUninit<C::Type>;

    open spec fn binds(v: MaybeUninit<C::Type>) -> bool {
        v.as_option() is Some && C::binds(v.as_option()->Some_0)
    }

    fn value() -> (v: MaybeUninit<C::Type>) {
        MaybeUninit::new(C::value())
    }
}

} // verus!
