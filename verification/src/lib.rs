//! Compile-time constants carried by types.
//!
//! A marker type that implements [`Const`] is bound to one value of one value
//! type; generic code names the marker and resolves the value with
//! [`value_of`]. [`DefaultConst`] binds a value type to its canonical default,
//! and [`DefaultOf`] turns that default into a [`Const`].
//!
//! A binding is described by a predicate over the value type, `binds` (or
//! `is_default`): it holds of what the binding resolves to and of nothing
//! else. For plain data the predicate is an equation. For a value type that
//! can only be observed through an accessor (an uninitialized cell, a
//! duration) it speaks of what the accessor shows.
//!
//! [`ExactConst`] and [`ExactDefault`] mark the bindings of the first sort,
//! and carry the proof that they have one value only.
use vstd::prelude::*;

pub mod arrays;
pub mod consts;
pub mod defaults;
pub mod laws;
pub mod numbers;
pub mod tuples;

verus! {

/// A binding of the implementing marker type to one value of `Type`.
pub trait Const {
    /// The value type of the binding.
    type Type;

    /// Holds of `v` exactly when `v` is the value bound to this marker type.
    spec fn binds(v: Self::Type) -> bool;

    /// Builds the bound value. Prefer [`value_of`] in generic code.
    fn value() -> (v: Self::Type)
        ensures
            Self::binds(v),
    ;
}

/// A binding whose value is known in full: `binds` holds of one value only.
pub trait ExactConst: Const {
    /// Two values of an exact binding are one and the same.
    proof fn lemma_unique(a: Self::Type, b: Self::Type)
        requires
            Self::binds(a),
            Self::binds(b),
        ensures
            a == b,
    ;
}

/// The value type of the binding of `C`.
pub type TypeOf<C> = <C as Const>::Type;

/// Resolves the value bound to the marker type `C`.
///
/// The value is built when the call is reached, never earlier: naming a marker
/// type in a branch that is not taken builds nothing.
pub fn value_of<C: Const + ?Sized>() -> (v: C::Type)
    ensures
        C::binds(v),
{
    C::value()
}

/// A binding of the implementing value type to its canonical default.
pub trait DefaultConst: Sized {
    /// Holds of `v` exactly when `v` is the default of this type.
    spec fn is_default(v: Self) -> bool;

    /// Builds the default. Prefer [`value_of`] on [`DefaultOf<Self>`].
    fn default_value() -> (v: Self)
        ensures
            Self::is_default(v),
    ;
}

/// A value type whose default is known in full: `is_default` holds of one
/// value only.
pub trait ExactDefault: DefaultConst {
    /// Two defaults of such a type are one and the same.
    proof fn lemma_default_unique(a: Self, b: Self)
        requires
            Self::is_default(a),
            Self::is_default(b),
        ensures
            a == b,
    ;
}

/// The marker type bound to the default of `T`.
pub struct DefaultOf<T>(core::marker::PhantomData<T>);

impl<T: DefaultConst> Const for DefaultOf<T> {
    type Type = T;

    open spec fn binds(v: T) -> bool {
        T::is_default(v)
    }

    fn value() -> (v: T) {
        T::default_value()
    }
}

impl<T: ExactDefault> ExactConst for DefaultOf<T> {
    proof fn lemma_unique(a: T, b: T) {
        T::lemma_default_unique(a, b);
    }
}

} // verus!
