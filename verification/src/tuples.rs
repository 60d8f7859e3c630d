//! Bindings of tuples, from the unit up to twelve components.
//!
//! A tuple of marker types is bound to the tuple of their values, and the
//! default of a tuple of value types is the tuple of their defaults: component
//! `k` of the result belongs to component `k` of the type.
use vstd::prelude::*;
use crate::{Const, DefaultConst, ExactConst, ExactDefault};

verus! {

impl Const for () {
    type Type = ();

    open spec fn binds(v: ()) -> bool {
        v == ()
    }

    fn value() -> (v: ()) {
        ()
    }
}

impl ExactConst for () {
    proof fn lemma_unique(a: (), b: ()) {
    }
}

impl DefaultConst for () {
    open spec fn is_default(v: ()) -> bool {
        v == ()
    }

    fn default_value() -> (v: ()) {
        ()
    }
}

impl ExactDefault for () {
    proof fn lemma_default_unique(a: (), b: ()) {
    }
}

impl<A: Const> Const for (A,) {
    type Type = (A::Type,);

    open spec fn binds(v: Self::Type) -> bool {
        &&& A::binds(v.0)
    }

    fn value() -> (v: Self::Type) {
        (A::value(),)
    }
}

impl<A: ExactConst> ExactConst for (A,) {
    proof fn lemma_unique(a: Self::Type, b: Self::Type) {
        A::lemma_unique(a.0, b.0);
    }
}

impl<A: DefaultConst> DefaultConst for (A,) {
    open spec fn is_default(v: Self) -> bool {
        &&& A::is_default(v.0)
    }

    fn default_value() -> (v: Self) {
        (A::default_value(),)
    }
}

impl<A: ExactDefault> ExactDefault for (A,) {
    proof fn lemma_default_unique(a: Self, b: Self) {
        A::lemma_default_unique(a.0, b.0);
    }
}

impl<A: Const, B: Const> Const for (A, B) {
    type Type = (A::Type, B::Type);

    open spec fn binds(v: Self::Type) -> bool {
        &&& A::binds(v.0)
        &&& B::binds(v.1)
    }

    fn value() -> (v: Self::Type) {
        (A::value(), B::value())
    }
}

impl<A: ExactConst, B: ExactConst> ExactConst for (A, B) {
    proof fn lemma_unique(a: Self::Type, b: Self::Type) {
        A::lemma_unique(a.0, b.0);
        B::lemma_unique(a.1, b.1);
    }
}

impl<A: DefaultConst, B: DefaultConst> DefaultConst for (A, B) {
    open spec fn is_default(v: Self) -> bool {
        &&& A::is_default(v.0)
        &&& B::is_default(v.1)
    }

    fn default_value() -> (v: Self) {
        (A::default_value(), B::default_value())
    }
}

impl<A: ExactDefault, B: ExactDefault> ExactDefault for (A, B) {
    proof fn lemma_default_unique(a: Self, b: Self) {
        A::lemma_default_unique(a.0, b.0);
        B::lemma_default_unique(a.1, b.1);
    }
}

impl<A: Const, B: Const, C: Const> Const for (A, B, C) {
    type Type = (A::Type, B::Type, C::Type);

    open spec fn binds(v: Self::Type) -> bool {
        &&& A::binds(v.0)
        &&& B::binds(v.1)
        &&& C::binds(v.2)
    }

    fn value() -> (v: Self::Type) {
        (A::value(), B::value(), C::value())
    }
}

impl<A: ExactConst, B: ExactConst, C: ExactConst> ExactConst for (A, B, C) {
    proof fn lemma_unique(a: Self::Type, b: Self::Type) {
        A::lemma_unique(a.0, b.0);
        B::lemma_unique(a.1, b.1);
        C::lemma_unique(a.2, b.2);
    }
}

impl<A: DefaultConst, B: DefaultConst, C: DefaultConst> DefaultConst for (A, B, C) {
    open spec fn is_default(v: Self) -> bool {
        &&& A::is_default(v.0)
        &&& B::is_default(v.1)
        &&& C::is_default(v.2)
    }

    fn default_value() -> (v: Self) {
        (A::default_value(), B::default_value(), C::default_value())
    }
}

impl<A: ExactDefault, B: ExactDefault, C: ExactDefault> ExactDefault for (A, B, C) {
    proof fn lemma_default_unique(a: Self, b: Self) {
        A::lemma_default_unique(a.0, b.0);
        B::lemma_default_unique(a.1, b.1);
        C::lemma_default_unique(a.2, b.2);
    }
}

impl<A: Const, B: Const, C: Const, D: Const> Const for (A, B, C, D) {
    type Type = (A::Type, B::Type, C::Type, D::Type);

    open spec fn binds(v: Self::Type) -> bool {
        &&& A::binds(v.0)
        &&& B::binds(v.1)
        &&& C::binds(v.2)
        &&& D::binds(v.3)
    }

    fn value() -> (v: Self::Type) {
        (A::value(), B::value(), C::value(), D::value())
    }
}

impl<A: ExactConst, B: ExactConst, C: ExactConst, D: ExactConst> ExactConst for (A, B, C, D) {
    proof fn lemma_unique(a: Self::Type, b: Self::Type) {
        A::lemma_unique(a.0, b.0);
        B::lemma_unique(a.1, b.1);
        C::lemma_unique(a.2, b.2);
        D::lemma_unique(a.3, b.3);
    }
}

impl<A: DefaultConst, B: DefaultConst, C: DefaultConst, D: DefaultConst> DefaultConst for (A, B, C, D) {
    open spec fn is_default(v: Self) -> bool {
        &&& A::is_default(v.0)
        &&& B::is_default(v.1)
        &&& C::is_default(v.2)
        &&& D::is_default(v.3)
    }

    fn default_value() -> (v: Self) {
        (A::default_value(), B::default_value(), C::default_value(), D::default_value())
    }
}

impl<A: ExactDefault, B: ExactDefault, C: ExactDefault, D: ExactDefault> ExactDefault for (A, B, C, D) {
    proof fn lemma_default_unique(a: Self, b: Self) {
        A::lemma_default_unique(a.0, b.0);
        B::lemma_default_unique(a.1, b.1);
        C::lemma_default_unique(a.2, b.2);
        D::lemma_default_unique(a.3, b.3);
    }
}

impl<A: Const, B: Const, C: Const, D: Const, E: Const> Const for (A, B, C, D, E) {
    type Type = (A::Type, B::Type, C::Type, D::Type, E::Type);

    open spec fn binds(v: Self::Type) -> bool {
        &&& A::binds(v.0)
        &&& B::binds(v.1)
        &&& C::binds(v.2)
        &&& D::binds(v.3)
        &&& E::binds(v.4)
    }

    fn value() -> (v: Self::Type) {
        (A::value(), B::value(), C::value(), D::value(), E::value())
    }
}

impl<A: ExactConst, B: ExactConst, C: ExactConst, D: ExactConst, E: ExactConst> ExactConst for (A, B, C, D, E) {
    proof fn lemma_unique(a: Self::Type, b: Self::Type) {
        A::lemma_unique(a.0, b.0);
        B::lemma_unique(a.1, b.1);
        C::lemma_unique(a.2, b.2);
        D::lemma_unique(a.3, b.3);
        E::lemma_unique(a.4, b.4);
    }
}

impl<A: DefaultConst, B: DefaultConst, C: DefaultConst, D: DefaultConst, E: DefaultConst> DefaultConst for (A, B, C, D, E) {
    open spec fn is_default(v: Self) -> bool {
        &&& A::is_default(v.0)
        &&& B::is_default(v.1)
        &&& C::is_default(v.2)
        &&& D::is_default(v.3)
        &&& E::is_default(v.4)
    }

    fn default_value() -> (v: Self) {
        (A::default_value(), B::default_value(), C::default_value(), D::default_value(), E::default_value())
    }
}

impl<A: ExactDefault, B: ExactDefault, C: ExactDefault, D: ExactDefault, E: ExactDefault> ExactDefault for (A, B, C, D, E) {
    proof fn lemma_default_unique(a: Self, b: Self) {
        A::lemma_default_unique(a.0, b.0);
        B::lemma_default_unique(a.1, b.1);
        C::lemma_default_unique(a.2, b.2);
        D::lemma_default_unique(a.3, b.3);
        E::lemma_default_unique(a.4, b.4);
    }
}

impl<A: Const, B: Const, C: Const, D: Const, E: Const, F: Const> Const for (A, B, C, D, E, F) {
    type Type = (A::Type, B::Type, C::Type, D::Type, E::Type, F::Type);

    open spec fn binds(v: Self::Type) -> bool {
        &&& A::binds(v.0)
        &&& B::binds(v.1)
        &&& C::binds(v.2)
        &&& D::binds(v.3)
        &&& E::binds(v.4)
        &&& F::binds(v.5)
    }

    fn value() -> (v: Self::Type) {
        (A::value(), B::value(), C::value(), D::value(), E::value(), F::value())
    }
}

impl<A: ExactConst, B: ExactConst, C: ExactConst, D: ExactConst, E: ExactConst, F: ExactConst> ExactConst for (A, B, C, D, E, F) {
    proof fn lemma_unique(a: Self::Type, b: Self::Type) {
        A::lemma_unique(a.0, b.0);
        B::lemma_unique(a.1, b.1);
        C::lemma_unique(a.2, b.2);
        D::lemma_unique(a.3, b.3);
        E::lemma_unique(a.4, b.4);
        F::lemma_unique(a.5, b.5);
    }
}

impl<A: DefaultConst, B: DefaultConst, C: DefaultConst, D: DefaultConst, E: DefaultConst, F: DefaultConst> DefaultConst for (A, B, C, D, E, F) {
    open spec fn is_default(v: Self) -> bool {
        &&& A::is_default(v.0)
        &&& B::is_default(v.1)
        &&& C::is_default(v.2)
        &&& D::is_default(v.3)
        &&& E::is_default(v.4)
        &&& F::is_default(v.5)
    }

    fn default_value() -> (v: Self) {
        (A::default_value(), B::default_value(), C::default_value(), D::default_value(), E::default_value(), F::default_value())
    }
}

impl<A: ExactDefault, B: ExactDefault, C: ExactDefault, D: ExactDefault, E: ExactDefault, F: ExactDefault> ExactDefault for (A, B, C, D, E, F) {
    proof fn lemma_default_unique(a: Self, b: Self) {
        A::lemma_default_unique(a.0, b.0);
        B::lemma_default_unique(a.1, b.1);
        C::lemma_default_unique(a.2, b.2);
        D::lemma_default_unique(a.3, b.3);
        E::lemma_default_unique(a.4, b.4);
        F::lemma_default_unique(a.5, b.5);
    }
}

impl<A: Const, B: Const, C: Const, D: Const, E: Const, F: Const, G: Const> Const for (A, B, C, D, E, F, G) {
    type Type = (A::Type, B::Type, C::Type, D::Type, E::Type, F::Type, G::Type);

    open spec fn binds(v: Self::Type) -> bool {
        &&& A::binds(v.0)
        &&& B::binds(v.1)
        &&& C::binds(v.2)
        &&& D::binds(v.3)
        &&& E::binds(v.4)
        &&& F::binds(v.5)
        &&& G::binds(v.6)
    }

    fn value() -> (v: Self::Type) {
        (A::value(), B::value(), C::value(), D::value(), E::value(), F::value(), G::value())
    }
}

impl<A: ExactConst, B: ExactConst, C: ExactConst, D: ExactConst, E: ExactConst, F: ExactConst, G: ExactConst> ExactConst for (A, B, C, D, E, F, G) {
    proof fn lemma_unique(a: Self::Type, b: Self::Type) {
        A::lemma_unique(a.0, b.0);
        B::lemma_unique(a.1, b.1);
        C::lemma_unique(a.2, b.2);
        D::lemma_unique(a.3, b.3);
        E::lemma_unique(a.4, b.4);
        F::lemma_unique(a.5, b.5);
        G::lemma_unique(a.6, b.6);
    }
}

impl<A: DefaultConst, B: DefaultConst, C: DefaultConst, D: DefaultConst, E: DefaultConst, F: DefaultConst, G: DefaultConst> DefaultConst for (A, B, C, D, E, F, G) {
    open spec fn is_default(v: Self) -> bool {
        &&& A::is_default(v.0)
        &&& B::is_default(v.1)
        &&& C::is_default(v.2)
        &&& D::is_default(v.3)
        &&& E::is_default(v.4)
        &&& F::is_default(v.5)
        &&& G::is_default(v.6)
    }

    fn default_value() -> (v: Self) {
        (A::default_value(), B::default_value(), C::default_value(), D::default_value(), E::default_value(), F::default_value(), G::default_value())
    }
}

impl<A: ExactDefault, B: ExactDefault, C: ExactDefault, D: ExactDefault, E: ExactDefault, F: ExactDefault, G: ExactDefault> ExactDefault for (A, B, C, D, E, F, G) {
    proof fn lemma_default_unique(a: Self, b: Self) {
        A::lemma_default_unique(a.0, b.0);
        B::lemma_default_unique(a.1, b.1);
        C::lemma_default_unique(a.2, b.2);
        D::lemma_default_unique(a.3, b.3);
        E::lemma_default_unique(a.4, b.4);
        F::lemma_default_unique(a.5, b.5);
        G::lemma_default_unique(a.6, b.6);
    }
}

impl<A: Const, B: Const, C: Const, D: Const, E: Const, F: Const, G: Const, H: Const> Const for (A, B, C, D, E, F, G, H) {
    type Type = (A::Type, B::Type, C::Type, D::Type, E::Type, F::Type, G::Type, H::Type);

    open spec fn binds(v: Self::Type) -> bool {
        &&& A::binds(v.0)
        &&& B::binds(v.1)
        &&& C::binds(v.2)
        &&& D::binds(v.3)
        &&& E::binds(v.4)
        &&& F::binds(v.5)
        &&& G::binds(v.6)
        &&& H::binds(v.7)
    }

    fn value() -> (v: Self::Type) {
        (A::value(), B::value(), C::value(), D::value(), E::value(), F::value(), G::value(), H::value())
    }
}

impl<A: ExactConst, B: ExactConst, C: ExactConst, D: ExactConst, E: ExactConst, F: ExactConst, G: ExactConst, H: ExactConst> ExactConst for (A, B, C, D, E, F, G, H) {
    proof fn lemma_unique(a: Self::Type, b: Self::Type) {
        A::lemma_unique(a.0, b.0);
        B::lemma_unique(a.1, b.1);
        C::lemma_unique(a.2, b.2);
        D::lemma_unique(a.3, b.3);
        E::lemma_unique(a.4, b.4);
        F::lemma_unique(a.5, b.5);
        G::lemma_unique(a.6, b.6);
        H::lemma_unique(a.7, b.7);
    }
}

impl<A: DefaultConst, B: DefaultConst, C: DefaultConst, D: DefaultConst, E: DefaultConst, F: DefaultConst, G: DefaultConst, H: DefaultConst> DefaultConst for (A, B, C, D, E, F, G, H) {
    open spec fn is_default(v: Self) -> bool {
        &&& A::is_default(v.0)
        &&& B::is_default(v.1)
        &&& C::is_default(v.2)
        &&& D::is_default(v.3)
        &&& E::is_default(v.4)
        &&& F::is_default(v.5)
        &&& G::is_default(v.6)
        &&& H::is_default(v.7)
    }

    fn default_value() -> (v: Self) {
        (A::default_value(), B::default_value(), C::default_value(), D::default_value(), E::default_value(), F::default_value(), G::default_value(), H::default_value())
    }
}

impl<A: ExactDefault, B: ExactDefault, C: ExactDefault, D: ExactDefault, E: ExactDefault, F: ExactDefault, G: ExactDefault, H: ExactDefault> ExactDefault for (A, B, C, D, E, F, G, H) {
    proof fn lemma_default_unique(a: Self, b: Self) {
        A::lemma_default_unique(a.0, b.0);
        B::lemma_default_unique(a.1, b.1);
        C::lemma_default_unique(a.2, b.2);
        D::lemma_default_unique(a.3, b.3);
        E::lemma_default_unique(a.4, b.4);
        F::lemma_default_unique(a.5, b.5);
        G::lemma_default_unique(a.6, b.6);
        H::lemma_default_unique(a.7, b.7);
    }
}

impl<A: Const, B: Const, C: Const, D: Const, E: Const, F: Const, G: Const, H: Const, I: Const> Const for (A, B, C, D, E, F, G, H, I) {
    type Type = (A::Type, B::Type, C::Type, D::Type, E::Type, F::Type, G::Type, H::Type, I::Type);

    open spec fn binds(v: Self::Type) -> bool {
        &&& A::binds(v.0)
        &&& B::binds(v.1)
        &&& C::binds(v.2)
        &&& D::binds(v.3)
        &&& E::binds(v.4)
        &&& F::binds(v.5)
        &&& G::binds(v.6)
        &&& H::binds(v.7)
        &&& I::binds(v.8)
    }

    fn value() -> (v: Self::Type) {
        (A::value(), B::value(), C::value(), D::value(), E::value(), F::value(), G::value(), H::value(), I::value())
    }
}

impl<A: ExactConst, B: ExactConst, C: ExactConst, D: ExactConst, E: ExactConst, F: ExactConst, G: ExactConst, H: ExactConst, I: ExactConst> ExactConst for (A, B, C, D, E, F, G, H, I) {
    proof fn lemma_unique(a: Self::Type, b: Self::Type) {
        A::lemma_unique(a.0, b.0);
        B::lemma_unique(a.1, b.1);
        C::lemma_unique(a.2, b.2);
        D::lemma_unique(a.3, b.3);
        E::lemma_unique(a.4, b.4);
        F::lemma_unique(a.5, b.5);
        G::lemma_unique(a.6, b.6);
        H::lemma_unique(a.7, b.7);
        I::lemma_unique(a.8, b.8);
    }
}

impl<A: DefaultConst, B: DefaultConst, C: DefaultConst, D: DefaultConst, E: DefaultConst, F: DefaultConst, G: DefaultConst, H: DefaultConst, I: DefaultConst> DefaultConst for (A, B, C, D, E, F, G, H, I) {
    open spec fn is_default(v: Self) -> bool {
        &&& A::is_default(v.0)
        &&& B::is_default(v.1)
        &&& C::is_default(v.2)
        &&& D::is_default(v.3)
        &&& E::is_default(v.4)
        &&& F::is_default(v.5)
        &&& G::is_default(v.6)
        &&& H::is_default(v.7)
        &&& I::is_default(v.8)
    }

    fn default_value() -> (v: Self) {
        (A::default_value(), B::default_value(), C::default_value(), D::default_value(), E::default_value(), F::default_value(), G::default_value(), H::default_value(), I::default_value())
    }
}

impl<A: ExactDefault, B: ExactDefault, C: ExactDefault, D: ExactDefault, E: ExactDefault, F: ExactDefault, G: ExactDefault, H: ExactDefault, I: ExactDefault> ExactDefault for (A, B, C, D, E, F, G, H, I) {
    proof fn lemma_default_unique(a: Self, b: Self) {
        A::lemma_default_unique(a.0, b.0);
        B::lemma_default_unique(a.1, b.1);
        C::lemma_default_unique(a.2, b.2);
        D::lemma_default_unique(a.3, b.3);
        E::lemma_default_unique(a.4, b.4);
        F::lemma_default_unique(a.5, b.5);
        G::lemma_default_unique(a.6, b.6);
        H::lemma_default_unique(a.7, b.7);
        I::lemma_default_unique(a.8, b.8);
    }
}

impl<A: Const, B: Const, C: Const, D: Const, E: Const, F: Const, G: Const, H: Const, I: Const, J: Const> Const for (A, B, C, D, E, F, G, H, I, J) {
    type Type = (A::Type, B::Type, C::Type, D::Type, E::Type, F::Type, G::Type, H::Type, I::Type, J::Type);

    open spec fn binds(v: Self::Type) -> bool {
        &&& A::binds(v.0)
        &&& B::binds(v.1)
        &&& C::binds(v.2)
        &&& D::binds(v.3)
        &&& E::binds(v.4)
        &&& F::binds(v.5)
        &&& G::binds(v.6)
        &&& H::binds(v.7)
        &&& I::binds(v.8)
        &&& J::binds(v.9)
    }

    fn value() -> (v: Self::Type) {
        (A::value(), B::value(), C::value(), D::value(), E::value(), F::value(), G::value(), H::value(), I::value(), J::value())
    }
}

impl<A: ExactConst, B: ExactConst, C: ExactConst, D: ExactConst, E: ExactConst, F: ExactConst, G: ExactConst, H: ExactConst, I: ExactConst, J: ExactConst> ExactConst for (A, B, C, D, E, F, G, H, I, J) {
    proof fn lemma_unique(a: Self::Type, b: Self::Type) {
        A::lemma_unique(a.0, b.0);
        B::lemma_unique(a.1, b.1);
        C::lemma_unique(a.2, b.2);
        D::lemma_unique(a.3, b.3);
        E::lemma_unique(a.4, b.4);
        F::lemma_unique(a.5, b.5);
        G::lemma_unique(a.6, b.6);
        H::lemma_unique(a.7, b.7);
        I::lemma_unique(a.8, b.8);
        J::lemma_unique(a.9, b.9);
    }
}

impl<A: DefaultConst, B: DefaultConst, C: DefaultConst, D: DefaultConst, E: DefaultConst, F: DefaultConst, G: DefaultConst, H: DefaultConst, I: DefaultConst, J: DefaultConst> DefaultConst for (A, B, C, D, E, F, G, H, I, J) {
    open spec fn is_default(v: Self) -> bool {
        &&& A::is_default(v.0)
        &&& B::is_default(v.1)
        &&& C::is_default(v.2)
        &&& D::is_default(v.3)
        &&& E::is_default(v.4)
        &&& F::is_default(v.5)
        &&& G::is_default(v.6)
        &&& H::is_default(v.7)
        &&& I::is_default(v.8)
        &&& J::is_default(v.9)
    }

    fn default_value() -> (v: Self) {
        (A::default_value(), B::default_value(), C::default_value(), D::default_value(), E::default_value(), F::default_value(), G::default_value(), H::default_value(), I::default_value(), J::default_value())
    }
}

impl<A: ExactDefault, B: ExactDefault, C: ExactDefault, D: ExactDefault, E: ExactDefault, F: ExactDefault, G: ExactDefault, H: ExactDefault, I: ExactDefault, J: ExactDefault> ExactDefault for (A, B, C, D, E, F, G, H, I, J) {
    proof fn lemma_default_unique(a: Self, b: Self) {
        A::lemma_default_unique(a.0, b.0);
        B::lemma_default_unique(a.1, b.1);
        C::lemma_default_unique(a.2, b.2);
        D::lemma_default_unique(a.3, b.3);
        E::lemma_default_unique(a.4, b.4);
        F::lemma_default_unique(a.5, b.5);
        G::lemma_default_unique(a.6, b.6);
        H::lemma_default_unique(a.7, b.7);
        I::lemma_default_unique(a.8, b.8);
        J::lemma_default_unique(a.9, b.9);
    }
}

impl<A: Const, B: Const, C: Const, D: Const, E: Const, F: Const, G: Const, H: Const, I: Const, J: Const, K: Const> Const for (A, B, C, D, E, F, G, H, I, J, K) {
    type Type = (A::Type, B::Type, C::Type, D::Type, E::Type, F::Type, G::Type, H::Type, I::Type, J::Type, K::Type);

    open spec fn binds(v: Self::Type) -> bool {
        &&& A::binds(v.0)
        &&& B::binds(v.1)
        &&& C::binds(v.2)
        &&& D::binds(v.3)
        &&& E::binds(v.4)
        &&& F::binds(v.5)
        &&& G::binds(v.6)
        &&& H::binds(v.7)
        &&& I::binds(v.8)
        &&& J::binds(v.9)
        &&& K::binds(v.10)
    }

    fn value() -> (v: Self::Type) {
        (A::value(), B::value(), C::value(), D::value(), E::value(), F::value(), G::value(), H::value(), I::value(), J::value(), K::value())
    }
}

impl<A: ExactConst, B: ExactConst, C: ExactConst, D: ExactConst, E: ExactConst, F: ExactConst, G: ExactConst, H: ExactConst, I: ExactConst, J: ExactConst, K: ExactConst> ExactConst for (A, B, C, D, E, F, G, H, I, J, K) {
    proof fn lemma_unique(a: Self::Type, b: Self::Type) {
        A::lemma_unique(a.0, b.0);
        B::lemma_unique(a.1, b.1);
        C::lemma_unique(a.2, b.2);
        D::lemma_unique(a.3, b.3);
        E::lemma_unique(a.4, b.4);
        F::lemma_unique(a.5, b.5);
        G::lemma_unique(a.6, b.6);
        H::lemma_unique(a.7, b.7);
        I::lemma_unique(a.8, b.8);
        J::lemma_unique(a.9, b.9);
        K::lemma_unique(a.10, b.10);
    }
}

impl<A: DefaultConst, B: DefaultConst, C: DefaultConst, D: DefaultConst, E: DefaultConst, F: DefaultConst, G: DefaultConst, H: DefaultConst, I: DefaultConst, J: DefaultConst, K: DefaultConst> DefaultConst for (A, B, C, D, E, F, G, H, I, J, K) {
    open spec fn is_default(v: Self) -> bool {
        &&& A::is_default(v.0)
        &&& B::is_default(v.1)
        &&& C::is_default(v.2)
        &&& D::is_default(v.3)
        &&& E::is_default(v.4)
        &&& F::is_default(v.5)
        &&& G::is_default(v.6)
        &&& H::is_default(v.7)
        &&& I::is_default(v.8)
        &&& J::is_default(v.9)
        &&& K::is_default(v.10)
    }

    fn default_value() -> (v: Self) {
        (A::default_value(), B::default_value(), C::default_value(), D::default_value(), E::default_value(), F::default_value(), G::default_value(), H::default_value(), I::default_value(), J::default_value(), K::default_value())
    }
}

impl<A: ExactDefault, B: ExactDefault, C: ExactDefault, D: ExactDefault, E: ExactDefault, F: ExactDefault, G: ExactDefault, H: ExactDefault, I: ExactDefault, J: ExactDefault, K: ExactDefault> ExactDefault for (A, B, C, D, E, F, G, H, I, J, K) {
    proof fn lemma_default_unique(a: Self, b: Self) {
        A::lemma_default_unique(a.0, b.0);
        B::lemma_default_unique(a.1, b.1);
        C::lemma_default_unique(a.2, b.2);
        D::lemma_default_unique(a.3, b.3);
        E::lemma_default_unique(a.4, b.4);
        F::lemma_default_unique(a.5, b.5);
        G::lemma_default_unique(a.6, b.6);
        H::lemma_default_unique(a.7, b.7);
        I::lemma_default_unique(a.8, b.8);
        J::lemma_default_unique(a.9, b.9);
        K::lemma_default_unique(a.10, b.10);
    }
}

impl<A: Const, B: Const, C: Const, D: Const, E: Const, F: Const, G: Const, H: Const, I: Const, J: Const, K: Const, L: Const> Const for (A, B, C, D, E, F, G, H, I, J, K, L) {
    type Type = (A::Type, B::Type, C::Type, D::Type, E::Type, F::Type, G::Type, H::Type, I::Type, J::Type, K::Type, L::Type);

    open spec fn binds(v: Self::Type) -> bool {
        &&& A::binds(v.0)
        &&& B::binds(v.1)
        &&& C::binds(v.2)
        &&& D::binds(v.3)
        &&& E::binds(v.4)
        &&& F::binds(v.5)
        &&& G::binds(v.6)
        &&& H::binds(v.7)
        &&& I::binds(v.8)
        &&& J::binds(v.9)
        &&& K::binds(v.10)
        &&& L::binds(v.11)
    }

    fn value() -> (v: Self::Type) {
        (A::value(), B::value(), C::value(), D::value(), E::value(), F::value(), G::value(), H::value(), I::value(), J::value(), K::value(), L::value())
    }
}

impl<A: ExactConst, B: ExactConst, C: ExactConst, D: ExactConst, E: ExactConst, F: ExactConst, G: ExactConst, H: ExactConst, I: ExactConst, J: ExactConst, K: ExactConst, L: ExactConst> ExactConst for (A, B, C, D, E, F, G, H, I, J, K, L) {
    proof fn lemma_unique(a: Self::Type, b: Self::Type) {
        A::lemma_unique(a.0, b.0);
        B::lemma_unique(a.1, b.1);
        C::lemma_unique(a.2, b.2);
        D::lemma_unique(a.3, b.3);
        E::lemma_unique(a.4, b.4);
        F::lemma_unique(a.5, b.5);
        G::lemma_unique(a.6, b.6);
        H::lemma_unique(a.7, b.7);
        I::lemma_unique(a.8, b.8);
        J::lemma_unique(a.9, b.9);
        K::lemma_unique(a.10, b.10);
        L::lemma_unique(a.11, b.11);
    }
}

impl<A: DefaultConst, B: DefaultConst, C: DefaultConst, D: DefaultConst, E: DefaultConst, F: DefaultConst, G: DefaultConst, H: DefaultConst, I: DefaultConst, J: DefaultConst, K: DefaultConst, L: DefaultConst> DefaultConst for (A, B, C, D, E, F, G, H, I, J, K, L) {
    open spec fn is_default(v: Self) -> bool {
        &&& A::is_default(v.0)
        &&& B::is_default(v.1)
        &&& C::is_default(v.2)
        &&& D::is_default(v.3)
        &&& E::is_default(v.4)
        &&& F::is_default(v.5)
        &&& G::is_default(v.6)
        &&& H::is_default(v.7)
        &&& I::is_default(v.8)
        &&& J::is_default(v.9)
        &&& K::is_default(v.10)
        &&& L::is_default(v.11)
    }

    fn default_value() -> (v: Self) {
        (A::default_value(), B::default_value(), C::default_value(), D::default_value(), E::default_value(), F::default_value(), G::default_value(), H::default_value(), I::default_value(), J::default_value(), K::default_value(), L::default_value())
    }
}

impl<A: ExactDefault, B: ExactDefault, C: ExactDefault, D: ExactDefault, E: ExactDefault, F: ExactDefault, G: ExactDefault, H: ExactDefault, I: ExactDefault, J: ExactDefault, K: ExactDefault, L: ExactDefault> ExactDefault for (A, B, C, D, E, F, G, H, I, J, K, L) {
    proof fn lemma_default_unique(a: Self, b: Self) {
        A::lemma_default_unique(a.0, b.0);
        B::lemma_default_unique(a.1, b.1);
        C::lemma_default_unique(a.2, b.2);
        D::lemma_default_unique(a.3, b.3);
        E::lemma_default_unique(a.4, b.4);
        F::lemma_default_unique(a.5, b.5);
        G::lemma_default_unique(a.6, b.6);
        H::lemma_default_unique(a.7, b.7);
        I::lemma_default_unique(a.8, b.8);
        J::lemma_default_unique(a.9, b.9);
        K::lemma_default_unique(a.10, b.10);
        L::lemma_default_unique(a.11, b.11);
    }
}

} // verus!
