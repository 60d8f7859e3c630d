//! What holds of the bindings, whatever the marker and value types are.
use vstd::prelude::*;
use crate::{Const, DefaultConst, DefaultOf, ExactConst, ExactDefault};

verus! {

/// However often and wherever an exact binding is resolved, the value is the
/// same: what any two resolutions return is equal.
pub proof fn lemma_resolution_unique<C: ExactConst + ?Sized>(first: C::Type, second: C::Type)
    requires
        C::binds(first),
        C::binds(second),
    ensures
        first == second,
{
    C::lemma_unique(first, second);
}

/// The default of `T` and the value bound to `DefaultOf<T>` are the same
/// thing: what one path accepts, the other accepts.
pub proof fn lemma_default_of_is_default<T: DefaultConst>(v: T)
    ensures
        <DefaultOf<T> as Const>::binds(v) <==> T::is_default(v),
{
}

/// Where the default of `T` is exact, the default path and the path through
/// `DefaultOf<T>` give identical values.
pub proof fn lemma_default_of_same_value<T: ExactDefault>(by_default: T, by_marker: T)
    requires
        T::is_default(by_default),
        <DefaultOf<T> as Const>::binds(by_marker),
    ensures
        by_default == by_marker,
{
    T::lemma_default_unique(by_default, by_marker);
}

/// An array of `N` markers `C` is bound to the arrays of length `N` whose
/// every slot holds a value bound to `C`.
pub proof fn lemma_array_replicates<C: Const, const N: usize>(arr: [C::Type; N])
    ensures
        arr@.len() == N,
        <[C; N] as Const>::binds(arr) <==> (forall|i: int|
            0 <= i < N ==> C::binds(#[trigger] arr@[i])),
{
}

/// Where `C` is exactly bound to `v`, every slot of the value bound to
/// `[C; N]` equals `v`.
pub proof fn lemma_array_slots_equal<C: ExactConst, const N: usize>(arr: [C::Type; N], v: C::Type)
    requires
        C::binds(v),
        <[C; N] as Const>::binds(arr),
    ensures
        forall|i: int| 0 <= i < N ==> #[trigger] arr@[i] == v,
{
    assert forall|i: int| 0 <= i < N implies #[trigger] arr@[i] == v by {
        C::lemma_unique(arr@[i], v);
    }
}

/// Every array without slots is bound to `[C; 0]`, whatever `C` is.
pub proof fn lemma_array_empty<C: Const>(arr: [C::Type; 0])
    ensures
        <[C; 0] as Const>::binds(arr),
{
}

/// The default of an array type is the arrays whose every slot holds a
/// default of the element type.
pub proof fn lemma_array_default_by_slot<T: DefaultConst, const N: usize>(arr: [T; N])
    ensures
        <[T; N] as DefaultConst>::is_default(arr) <==> (forall|i: int|
            0 <= i < N ==> T::is_default(#[trigger] arr@[i])),
{
}

/// The default of every fixed-width integer type is zero and nothing else.
pub proof fn lemma_integer_defaults_are_zero(
    a: i8,
    b: i16,
    c: i32,
    d: i64,
    e: i128,
    f: isize,
    g: u8,
    h: u16,
    i: u32,
    j: u64,
    k: u128,
    l: usize,
)
    ensures
        i8::is_default(a) <==> a == 0,
        i16::is_default(b) <==> b == 0,
        i32::is_default(c) <==> c == 0,
        i64::is_default(d) <==> d == 0,
        i128::is_default(e) <==> e == 0,
        isize::is_default(f) <==> f == 0,
        u8::is_default(g) <==> g == 0,
        u16::is_default(h) <==> h == 0,
        u32::is_default(i) <==> i == 0,
        u64::is_default(j) <==> j == 0,
        u128::is_default(k) <==> k == 0,
        usize::is_default(l) <==> l == 0,
{
}

/// The default of a string slice is the empty string, which holds no
/// character, and the default of a slice of any element type is the slice of
/// length zero.
pub proof fn lemma_view_defaults_are_empty<T>(text: &str, items: &[T])
    ensures
        <&str as DefaultConst>::is_default(text) <==> text == "",
        <&str as DefaultConst>::is_default(text) ==> text@.len() == 0,
        <&[T] as DefaultConst>::is_default(items) <==> items@.len() == 0,
{
    reveal_strlit("");
}

/// The unit is bound to itself, and is its own default.
pub proof fn lemma_unit_in_order(v: ())
    ensures
        <() as Const>::binds(v),
        <() as DefaultConst>::is_default(v),
{
}

/// A tuple of one marker type is bound to the tuple of the one bound value.
pub proof fn lemma_tuple_1_in_order<A: Const>(a: A::Type)
    ensures
        <(A,) as Const>::binds((a,)) <==> (A::binds(a)),
{
}

/// The default of a tuple of one component is the tuple of the component's
/// default.
pub proof fn lemma_tuple_1_default_in_order<A: DefaultConst>(a: A)
    ensures
        <(A,) as DefaultConst>::is_default((a,)) <==> (A::is_default(a)),
{
}

/// A tuple of two marker types is bound to the tuple of the two bound
/// values, each in its own place.
pub proof fn lemma_tuple_2_in_order<A: Const, B: Const>(a: A::Type, b: B::Type)
    ensures
        <(A, B) as Const>::binds((a, b)) <==> (A::binds(a) && B::binds(b)),
{
}

/// The default of a tuple of two components is the tuple of the components'
/// defaults, each in its own place.
pub proof fn lemma_tuple_2_default_in_order<A: DefaultConst, B: DefaultConst>(a: A, b: B)
    ensures
        <(A, B) as DefaultConst>::is_default((a, b)) <==> (A::is_default(a) && B::is_default(b)),
{
}

/// A tuple of three marker types is bound to the tuple of the three bound
/// values, each in its own place.
pub proof fn lemma_tuple_3_in_order<A: Const, B: Const, C: Const>(a: A::Type, b: B::Type, c: C::Type)
    ensures
        <(A, B, C) as Const>::binds((a, b, c)) <==> (A::binds(a) && B::binds(b) && C::binds(c)),
{
}

/// The default of a tuple of three components is the tuple of the components'
/// defaults, each in its own place.
pub proof fn lemma_tuple_3_default_in_order<A: DefaultConst, B: DefaultConst, C: DefaultConst>(a: A, b: B, c: C)
    ensures
        <(A, B, C) as DefaultConst>::is_default((a, b, c)) <==> (A::is_default(a) && B::is_default(b) && C::is_default(c)),
{
}

/// A tuple of four marker types is bound to the tuple of the four bound
/// values, each in its own place.
pub proof fn lemma_tuple_4_in_order<A: Const, B: Const, C: Const, D: Const>(a: A::Type, b: B::Type, c: C::Type, d: D::Type)
    ensures
        <(A, B, C, D) as Const>::binds((a, b, c, d)) <==> (A::binds(a) && B::binds(b) && C::binds(c) && D::binds(d)),
{
}

/// The default of a tuple of four components is the tuple of the components'
/// defaults, each in its own place.
pub proof fn lemma_tuple_4_default_in_order<A: DefaultConst, B: DefaultConst, C: DefaultConst, D: DefaultConst>(a: A, b: B, c: C, d: D)
    ensures
        <(A, B, C, D) as DefaultConst>::is_default((a, b, c, d)) <==> (A::is_default(a) && B::is_default(b) && C::is_default(c) && D::is_default(d)),
{
}

/// A tuple of five marker types is bound to the tuple of the five bound
/// values, each in its own place.
pub proof fn lemma_tuple_5_in_order<A: Const, B: Const, C: Const, D: Const, E: Const>(a: A::Type, b: B::Type, c: C::Type, d: D::Type, e: E::Type)
    ensures
        <(A, B, C, D, E) as Const>::binds((a, b, c, d, e)) <==> (A::binds(a) && B::binds(b) && C::binds(c) && D::binds(d) && E::binds(e)),
{
}

/// The default of a tuple of five components is the tuple of the components'
/// defaults, each in its own place.
pub proof fn lemma_tuple_5_default_in_order<A: DefaultConst, B: DefaultConst, C: DefaultConst, D: DefaultConst, E: DefaultConst>(a: A, b: B, c: C, d: D, e: E)
    ensures
        <(A, B, C, D, E) as DefaultConst>::is_default((a, b, c, d, e)) <==> (A::is_default(a) && B::is_default(b) && C::is_default(c) && D::is_default(d) && E::is_default(e)),
{
}

/// A tuple of six marker types is bound to the tuple of the six bound
/// values, each in its own place.
pub proof fn lemma_tuple_6_in_order<A: Const, B: Const, C: Const, D: Const, E: Const, F: Const>(a: A::Type, b: B::Type, c: C::Type, d: D::Type, e: E::Type, f: F::Type)
    ensures
        <(A, B, C, D, E, F) as Const>::binds((a, b, c, d, e, f)) <==> (A::binds(a) && B::binds(b) && C::binds(c) && D::binds(d) && E::binds(e) && F::binds(f)),
{
}

/// The default of a tuple of six components is the tuple of the components'
/// defaults, each in its own place.
pub proof fn lemma_tuple_6_default_in_order<A: DefaultConst, B: DefaultConst, C: DefaultConst, D: DefaultConst, E: DefaultConst, F: DefaultConst>(a: A, b: B, c: C, d: D, e: E, f: F)
    ensures
        <(A, B, C, D, E, F) as DefaultConst>::is_default((a, b, c, d, e, f)) <==> (A::is_default(a) && B::is_default(b) && C::is_default(c) && D::is_default(d) && E::is_default(e) && F::is_default(f)),
{
}

/// A tuple of seven marker types is bound to the tuple of the seven bound
/// values, each in its own place.
pub proof fn lemma_tuple_7_in_order<A: Const, B: Const, C: Const, D: Const, E: Const, F: Const, G: Const>(a: A::Type, b: B::Type, c: C::Type, d: D::Type, e: E::Type, f: F::Type, g: G::Type)
    ensures
        <(A, B, C, D, E, F, G) as Const>::binds((a, b, c, d, e, f, g)) <==> (A::binds(a) && B::binds(b) && C::binds(c) && D::binds(d) && E::binds(e) && F::binds(f) && G::binds(g)),
{
}

/// The default of a tuple of seven components is the tuple of the components'
/// defaults, each in its own place.
pub proof fn lemma_tuple_7_default_in_order<A: DefaultConst, B: DefaultConst, C: DefaultConst, D: DefaultConst, E: DefaultConst, F: DefaultConst, G: DefaultConst>(a: A, b: B, c: C, d: D, e: E, f: F, g: G)
    ensures
        <(A, B, C, D, E, F, G) as DefaultConst>::is_default((a, b, c, d, e, f, g)) <==> (A::is_default(a) && B::is_default(b) && C::is_default(c) && D::is_default(d) && E::is_default(e) && F::is_default(f) && G::is_default(g)),
{
}

/// A tuple of eight marker types is bound to the tuple of the eight bound
/// values, each in its own place.
pub proof fn lemma_tuple_8_in_order<A: Const, B: Const, C: Const, D: Const, E: Const, F: Const, G: Const, H: Const>(a: A::Type, b: B::Type, c: C::Type, d: D::Type, e: E::Type, f: F::Type, g: G::Type, h: H::Type)
    ensures
        <(A, B, C, D, E, F, G, H) as Const>::binds((a, b, c, d, e, f, g, h)) <==> (A::binds(a) && B::binds(b) && C::binds(c) && D::binds(d) && E::binds(e) && F::binds(f) && G::binds(g) && H::binds(h)),
{
}

/// The default of a tuple of eight components is the tuple of the components'
/// defaults, each in its own place.
pub proof fn lemma_tuple_8_default_in_order<A: DefaultConst, B: DefaultConst, C: DefaultConst, D: DefaultConst, E: DefaultConst, F: DefaultConst, G: DefaultConst, H: DefaultConst>(a: A, b: B, c: C, d: D, e: E, f: F, g: G, h: H)
    ensures
        <(A, B, C, D, E, F, G, H) as DefaultConst>::is_default((a, b, c, d, e, f, g, h)) <==> (A::is_default(a) && B::is_default(b) && C::is_default(c) && D::is_default(d) && E::is_default(e) && F::is_default(f) && G::is_default(g) && H::is_default(h)),
{
}

/// A tuple of nine marker types is bound to the tuple of the nine bound
/// values, each in its own place.
pub proof fn lemma_tuple_9_in_order<A: Const, B: Const, C: Const, D: Const, E: Const, F: Const, G: Const, H: Const, I: Const>(a: A::Type, b: B::Type, c: C::Type, d: D::Type, e: E::Type, f: F::Type, g: G::Type, h: H::Type, i: I::Type)
    ensures
        <(A, B, C, D, E, F, G, H, I) as Const>::binds((a, b, c, d, e, f, g, h, i)) <==> (A::binds(a) && B::binds(b) && C::binds(c) && D::binds(d) && E::binds(e) && F::binds(f) && G::binds(g) && H::binds(h) && I::binds(i)),
{
}

/// The default of a tuple of nine components is the tuple of the components'
/// defaults, each in its own place.
pub proof fn lemma_tuple_9_default_in_order<A: DefaultConst, B: DefaultConst, C: DefaultConst, D: DefaultConst, E: DefaultConst, F: DefaultConst, G: DefaultConst, H: DefaultConst, I: DefaultConst>(a: A, b: B, c: C, d: D, e: E, f: F, g: G, h: H, i: I)
    ensures
        <(A, B, C, D, E, F, G, H, I) as DefaultConst>::is_default((a, b, c, d, e, f, g, h, i)) <==> (A::is_default(a) && B::is_default(b) && C::is_default(c) && D::is_default(d) && E::is_default(e) && F::is_default(f) && G::is_default(g) && H::is_default(h) && I::is_default(i)),
{
}

/// A tuple of ten marker types is bound to the tuple of the ten bound
/// values, each in its own place.
pub proof fn lemma_tuple_10_in_order<A: Const, B: Const, C: Const, D: Const, E: Const, F: Const, G: Const, H: Const, I: Const, J: Const>(a: A::Type, b: B::Type, c: C::Type, d: D::Type, e: E::Type, f: F::Type, g: G::Type, h: H::Type, i: I::Type, j: J::Type)
    ensures
        <(A, B, C, D, E, F, G, H, I, J) as Const>::binds((a, b, c, d, e, f, g, h, i, j)) <==> (A::binds(a) && B::binds(b) && C::binds(c) && D::binds(d) && E::binds(e) && F::binds(f) && G::binds(g) && H::binds(h) && I::binds(i) && J::binds(j)),
{
}

/// The default of a tuple of ten components is the tuple of the components'
/// defaults, each in its own place.
pub proof fn lemma_tuple_10_default_in_order<A: DefaultConst, B: DefaultConst, C: DefaultConst, D: DefaultConst, E: DefaultConst, F: DefaultConst, G: DefaultConst, H: DefaultConst, I: DefaultConst, J: DefaultConst>(a: A, b: B, c: C, d: D, e: E, f: F, g: G, h: H, i: I, j: J)
    ensures
        <(A, B, C, D, E, F, G, H, I, J) as DefaultConst>::is_default((a, b, c, d, e, f, g, h, i, j)) <==> (A::is_default(a) && B::is_default(b) && C::is_default(c) && D::is_default(d) && E::is_default(e) && F::is_default(f) && G::is_default(g) && H::is_default(h) && I::is_default(i) && J::is_default(j)),
{
}

/// A tuple of eleven marker types is bound to the tuple of the eleven bound
/// values, each in its own place.
pub proof fn lemma_tuple_11_in_order<A: Const, B: Const, C: Const, D: Const, E: Const, F: Const, G: Const, H: Const, I: Const, J: Const, K: Const>(a: A::Type, b: B::Type, c: C::Type, d: D::Type, e: E::Type, f: F::Type, g: G::Type, h: H::Type, i: I::Type, j: J::Type, k: K::Type)
    ensures
        <(A, B, C, D, E, F, G, H, I, J, K) as Const>::binds((a, b, c, d, e, f, g, h, i, j, k)) <==> (A::binds(a) && B::binds(b) && C::binds(c) && D::binds(d) && E::binds(e) && F::binds(f) && G::binds(g) && H::binds(h) && I::binds(i) && J::binds(j) && K::binds(k)),
{
}

/// The default of a tuple of eleven components is the tuple of the components'
/// defaults, each in its own place.
pub proof fn lemma_tuple_11_default_in_order<A: DefaultConst, B: DefaultConst, C: DefaultConst, D: DefaultConst, E: DefaultConst, F: DefaultConst, G: DefaultConst, H: DefaultConst, I: DefaultConst, J: DefaultConst, K: DefaultConst>(a: A, b: B, c: C, d: D, e: E, f: F, g: G, h: H, i: I, j: J, k: K)
    ensures
        <(A, B, C, D, E, F, G, H, I, J, K) as DefaultConst>::is_default((a, b, c, d, e, f, g, h, i, j, k)) <==> (A::is_default(a) && B::is_default(b) && C::is_default(c) && D::is_default(d) && E::is_default(e) && F::is_default(f) && G::is_default(g) && H::is_default(h) && I::is_default(i) && J::is_default(j) && K::is_default(k)),
{
}

/// A tuple of twelve marker types is bound to the tuple of the twelve bound
/// values, each in its own place.
pub proof fn lemma_tuple_12_in_order<A: Const, B: Const, C: Const, D: Const, E: Const, F: Const, G: Const, H: Const, I: Const, J: Const, K: Const, L: Const>(a: A::Type, b: B::Type, c: C::Type, d: D::Type, e: E::Type, f: F::Type, g: G::Type, h: H::Type, i: I::Type, j: J::Type, k: K::Type, l: L::Type)
    ensures
        <(A, B, C, D, E, F, G, H, I, J, K, L) as Const>::binds((a, b, c, d, e, f, g, h, i, j, k, l)) <==> (A::binds(a) && B::binds(b) && C::binds(c) && D::binds(d) && E::binds(e) && F::binds(f) && G::binds(g) && H::binds(h) && I::binds(i) && J::binds(j) && K::binds(k) && L::binds(l)),
{
}

/// The default of a tuple of twelve components is the tuple of the components'
/// defaults, each in its own place.
pub proof fn lemma_tuple_12_default_in_order<A: DefaultConst, B: DefaultConst, C: DefaultConst, D: DefaultConst, E: DefaultConst, F: DefaultConst, G: DefaultConst, H: DefaultConst, I: DefaultConst, J: DefaultConst, K: DefaultConst, L: DefaultConst>(a: A, b: B, c: C, d: D, e: E, f: F, g: G, h: H, i: I, j: J, k: K, l: L)
    ensures
        <(A, B, C, D, E, F, G, H, I, J, K, L) as DefaultConst>::is_default((a, b, c, d, e, f, g, h, i, j, k, l)) <==> (A::is_default(a) && B::is_default(b) && C::is_default(c) && D::is_default(d) && E::is_default(e) && F::is_default(f) && G::is_default(g) && H::is_default(h) && I::is_default(i) && J::is_default(j) && K::is_default(k) && L::is_default(l)),
{
}

} // verus!
