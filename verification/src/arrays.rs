//! Bindings of fixed-size arrays.
//!
//! The marker type of every slot is the same, so every slot of the value
//! holds the one value bound to it.
use vstd::prelude::*;
use crate::{Const, DefaultConst, ExactConst, ExactDefault};

verus! {

/// `core::array::from_fn` calls `f` once for each index below `N` and stores
/// what the call for index `i` returned in slot `i`. So `f` must accept every
/// such index, and slot `i` holds a value that `f` may return for `i`.
pub assume_specification<T, const N: usize, F>[ core::array::from_fn::<T, N, F> ](f: F) -> (a: [T; N])
    where F: FnMut(usize) -> T
    requires
        forall|i: usize| i < N ==> call_requires(f, (i,)),
    ensures
        forall|i: usize| i < N ==> call_ensures(f, (i,), #[trigger] a@[i as int]),
;

/// An array of `N` copies of the marker `C` is bound to the array whose `N`
/// slots each hold the value bound to `C`.
impl<C: Const, const N: usize> Const for [C; N] {
    type Type = [C::Type; N];

    open spec fn binds(v: [C::Type; N]) -> bool {
        forall|i: int| 0 <= i < N ==> C::binds(#[trigger] v@[i])
    }

    fn value() -> (v: [C::Type; N]) {
        let build = |_i: usize| -> (slot: C::Type)
            ensures
                C::binds(slot),
            {
                C::value()
            };
        let v = core::array::from_fn(build);
        assert forall|i: int| 0 <= i < N implies C::binds(#[trigger] v@[i]) by {
            let k: usize = i as usize;
            assert(C::binds(v@[k as int]));
        }
        v
    }
}

impl<C: ExactConst, const N: usize> ExactConst for [C; N] {
    proof fn lemma_unique(a: [C::Type; N], b: [C::Type; N]) {
        assert forall|i: int| 0 <= i < N implies a@[i] == b@[i] by {
            C::lemma_unique(a@[i], b@[i]);
        }
        assert(a@ =~= b@);
        assert(a =~= b);
    }
}

/// The default of an array is the array whose slots each hold the default of
/// the element type.
impl<T: DefaultConst, const N: usize> DefaultConst for [T; N] {
    open spec fn is_default(v: [T; N]) -> bool {
        forall|i: int| 0 <= i < N ==> T::is_default(#[trigger] v@[i])
    }

    fn default_value() -> (v: [T; N]) {
        let build = |_i: usize| -> (slot: T)
            ensures
                T::is_default(slot),
            {
                T::default_value()
            };
        let v = core::array::from_fn(build);
        assert forall|i: int| 0 <= i < N implies T::is_default(#[trigger] v@[i]) by {
            let k: usize = i as usize;
            assert(T::is_default(v@[k as int]));
        }
        v
    }
}

impl<T: ExactDefault, const N: usize> ExactDefault for [T; N] {
    proof fn lemma_default_unique(a: [T; N], b: [T; N]) {
        assert forall|i: int| 0 <= i < N implies a@[i] == b@[i] by {
            T::lemma_default_unique(a@[i], b@[i]);
        }
        assert(a@ =~= b@);
        assert(a =~= b);
    }
}

} // verus!
