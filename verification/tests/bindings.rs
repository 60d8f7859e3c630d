use core::cmp::Reverse;
use core::marker::PhantomData;
use core::mem::{ManuallyDrop, MaybeUninit};
use core::num::{Saturating, Wrapping};
use core::ops::RangeFull;
use core::time::Duration;
use type_const::consts::{IntoInit, IntoSome, UninitOf};
use type_const::{value_of, Const, DefaultConst, DefaultOf};

fn array_of_const<C: Const, const N: usize>() -> [C::Type; N] {
    core::array::from_fn(|_| value_of::<C>())
}

#[test]
fn array_of_default_i32() {
    assert_eq!(array_of_const::<DefaultOf<i32>, 3>(), [0; 3]);
}

#[test]
fn default_of_resolves_to_default() {
    assert_eq!(value_of::<DefaultOf<i32>>(), 0);
    assert_eq!(value_of::<DefaultOf<u64>>(), <u64 as DefaultConst>::default_value());
    assert_eq!(value_of::<DefaultOf<Option<u8>>>(), None);
    assert_eq!(value_of::<DefaultOf<&str>>(), <&str as DefaultConst>::default_value());
    assert_eq!(
        value_of::<DefaultOf<(u8, i16)>>(),
        <(u8, i16) as DefaultConst>::default_value()
    );
}

#[test]
fn resolving_twice_gives_the_same() {
    let first = value_of::<(DefaultOf<u8>, IntoSome<DefaultOf<i64>>)>();
    let second = value_of::<(DefaultOf<u8>, IntoSome<DefaultOf<i64>>)>();
    assert_eq!(first, second);
    assert_eq!(first, (0u8, Some(0i64)));
}

#[test]
fn integer_defaults_are_zero() {
    assert_eq!(<i8 as DefaultConst>::default_value(), 0i8);
    assert_eq!(<i16 as DefaultConst>::default_value(), 0i16);
    assert_eq!(<i32 as DefaultConst>::default_value(), 0i32);
    assert_eq!(<i64 as DefaultConst>::default_value(), 0i64);
    assert_eq!(<i128 as DefaultConst>::default_value(), 0i128);
    assert_eq!(<isize as DefaultConst>::default_value(), 0isize);
    assert_eq!(<u8 as DefaultConst>::default_value(), 0u8);
    assert_eq!(<u16 as DefaultConst>::default_value(), 0u16);
    assert_eq!(<u32 as DefaultConst>::default_value(), 0u32);
    assert_eq!(<u64 as DefaultConst>::default_value(), 0u64);
    assert_eq!(<u128 as DefaultConst>::default_value(), 0u128);
    assert_eq!(<usize as DefaultConst>::default_value(), 0usize);
}

#[test]
fn view_defaults_are_empty() {
    let text: &str = value_of::<DefaultOf<&str>>();
    assert_eq!(text.len(), 0);
    assert_eq!(text, "");
    let bytes: &[u8] = value_of::<DefaultOf<&[u8]>>();
    assert_eq!(bytes.len(), 0);
    let words: &[String] = <&[String] as DefaultConst>::default_value();
    assert!(words.is_empty());
}

#[test]
fn unit_is_bound_to_itself() {
    assert_eq!(value_of::<()>(), ());
    assert_eq!(<() as DefaultConst>::default_value(), ());
}

#[test]
fn tuple_of_one() {
    assert_eq!(value_of::<(DefaultOf<u8>,)>(), (0u8,));
    assert_eq!(<(i32,) as DefaultConst>::default_value(), (0i32,));
}

#[test]
fn tuple_keeps_positions() {
    let v = value_of::<(DefaultOf<u8>, IntoSome<DefaultOf<u16>>, DefaultOf<Option<u32>>, ())>();
    assert_eq!(v, (0u8, Some(0u16), None, ()));
    let w = value_of::<(IntoSome<DefaultOf<u8>>, DefaultOf<u8>)>();
    assert_eq!(w, (Some(0u8), 0u8));
}

#[test]
fn tuple_of_twelve() {
    type M = (
        DefaultOf<u8>,
        IntoSome<DefaultOf<u8>>,
        DefaultOf<i16>,
        DefaultOf<Option<i16>>,
        DefaultOf<u32>,
        IntoSome<DefaultOf<i32>>,
        DefaultOf<&'static str>,
        DefaultOf<u64>,
        (),
        DefaultOf<usize>,
        IntoSome<()>,
        DefaultOf<i128>,
    );
    let v = value_of::<M>();
    assert_eq!(
        v,
        (0u8, Some(0u8), 0i16, None, 0u32, Some(0i32), "", 0u64, (), 0usize, Some(()), 0i128)
    );
}

#[test]
fn tuple_default_is_elementwise() {
    assert_eq!(<(u8, ()) as DefaultConst>::default_value(), (0u8, ()));
    assert_eq!(
        <(u8, Option<i32>, &str) as DefaultConst>::default_value(),
        (
            <u8 as DefaultConst>::default_value(),
            <Option<i32> as DefaultConst>::default_value(),
            <&str as DefaultConst>::default_value()
        )
    );
    let twelve = <(u8, u16, u32, u64, u128, usize, i8, i16, i32, i64, i128, isize) as DefaultConst>::default_value();
    assert_eq!(twelve, (0, 0, 0, 0, 0, 0, 0, 0, 0, 0, 0, 0));
}

#[test]
fn nested_tuples() {
    let v = value_of::<((DefaultOf<u8>, DefaultOf<i8>), [DefaultOf<u16>; 2])>();
    assert_eq!(v, ((0u8, 0i8), [0u16, 0u16]));
}

#[test]
fn array_of_none_is_empty() {
    let v: [u8; 0] = value_of::<[DefaultOf<u8>; 0]>();
    assert_eq!(v.len(), 0);
    let d: [i64; 0] = <[i64; 0] as DefaultConst>::default_value();
    assert_eq!(d, []);
}

#[test]
fn array_replicates_the_value() {
    let v = value_of::<[IntoSome<DefaultOf<u8>>; 3]>();
    assert_eq!(v.len(), 3);
    assert_eq!(v, [Some(0u8), Some(0u8), Some(0u8)]);
    for slot in v {
        assert_eq!(slot, value_of::<IntoSome<DefaultOf<u8>>>());
    }
}

#[test]
fn array_of_values_without_clone() {
    struct Plain(u8);
    impl PartialEq for Plain {
        fn eq(&self, other: &Self) -> bool {
            self.0 == other.0
        }
    }
    let v: [Option<Plain>; 4] = value_of::<[DefaultOf<Option<Plain>>; 4]>();
    assert!(v.iter().all(|slot| slot.is_none()));
}

#[test]
fn array_default_is_elementwise() {
    assert_eq!(<[u32; 5] as DefaultConst>::default_value(), [0u32; 5]);
    assert_eq!(value_of::<DefaultOf<[(u8, i8); 2]>>(), [(0u8, 0i8), (0u8, 0i8)]);
}

#[test]
fn into_some_wraps_the_value() {
    assert_eq!(value_of::<IntoSome<DefaultOf<u8>>>(), Some(0u8));
    assert_eq!(value_of::<IntoSome<IntoSome<()>>>(), Some(Some(())));
    assert_eq!(value_of::<IntoSome<DefaultOf<Option<u8>>>>(), Some(None));
}

#[test]
fn uninit_and_init_cells() {
    let empty: MaybeUninit<u64> = value_of::<UninitOf<u64>>();
    assert_eq!(core::mem::size_of_val(&empty), 8);
    let full: MaybeUninit<u16> = value_of::<IntoInit<DefaultOf<u16>>>();
    assert_eq!(core::mem::size_of_val(&full), 2);
    let many: [MaybeUninit<String>; 3] = value_of::<[UninitOf<String>; 3]>();
    assert_eq!(many.len(), 3);
}

#[test]
fn wrapper_defaults_wrap_the_default() {
    assert_eq!(<Reverse<u8> as DefaultConst>::default_value(), Reverse(0u8));
    assert_eq!(<Saturating<i32> as DefaultConst>::default_value(), Saturating(0i32));
    assert_eq!(<Wrapping<u64> as DefaultConst>::default_value(), Wrapping(0u64));
    assert_eq!(
        ManuallyDrop::into_inner(<ManuallyDrop<i16> as DefaultConst>::default_value()),
        0i16
    );
    assert_eq!(
        value_of::<DefaultOf<Reverse<Wrapping<(u8, Option<u8>)>>>>(),
        Reverse(Wrapping((0u8, None)))
    );
}

#[test]
fn unit_like_defaults() {
    assert_eq!(<PhantomData<str> as DefaultConst>::default_value(), PhantomData::<str>);
    assert_eq!(<PhantomData<u8> as DefaultConst>::default_value(), PhantomData::<u8>);
    assert_eq!(<RangeFull as DefaultConst>::default_value(), ..);
    assert_eq!(<core::fmt::Error as DefaultConst>::default_value(), core::fmt::Error);
}

#[test]
fn duration_default_is_zero() {
    let d = value_of::<DefaultOf<Duration>>();
    assert_eq!(d, Duration::ZERO);
    assert_eq!(d.as_nanos(), 0);
    assert!(d.is_zero());
}

#[test]
fn unused_binding_is_not_built() {
    let taken = false;
    let v: Option<[u8; 2]> = if taken { Some(value_of::<[DefaultOf<u8>; 2]>()) } else { None };
    assert_eq!(v, None);
}
