use type_const::consts::IntoSome;
use type_const::{value_of, Const};

struct Seven;

impl Const for Seven {
    type Type = u8;

    fn binds(v: u8) -> bool {
        v == 7
    }

    fn value() -> u8 {
        7
    }
}

struct Word;

impl Const for Word {
    type Type = &'static str;

    fn binds(v: &'static str) -> bool {
        v == "word"
    }

    fn value() -> &'static str {
        "word"
    }
}

struct Owned;

impl Const for Owned {
    type Type = String;

    fn binds(v: String) -> bool {
        v == "owned"
    }

    fn value() -> String {
        String::from("owned")
    }
}

#[test]
fn own_marker_value_is_bound() {
    assert!(Seven::binds(value_of::<Seven>()));
    assert!(Word::binds(value_of::<Word>()));
    assert!(Owned::binds(value_of::<Owned>()));
    assert!(!Seven::binds(8));
}

#[test]
fn own_marker_resolves_to_its_value() {
    assert_eq!(value_of::<Seven>(), 7);
    assert_eq!(value_of::<Word>(), "word");
    assert_eq!(value_of::<Owned>(), "owned");
}

#[test]
fn tuple_of_distinct_markers_keeps_order() {
    assert_eq!(value_of::<(Seven, Word)>(), (7u8, "word"));
    assert_eq!(value_of::<(Word, Seven)>(), ("word", 7u8));
    assert_eq!(
        value_of::<(Seven, Word, Owned, IntoSome<Seven>)>(),
        (7u8, "word", String::from("owned"), Some(7u8))
    );
}

#[test]
fn array_of_own_marker_has_equal_slots() {
    assert_eq!(value_of::<[Seven; 3]>(), [7u8, 7, 7]);
    let none: [u8; 0] = value_of::<[Seven; 0]>();
    assert_eq!(none, []);
    let owned: [String; 2] = value_of::<[Owned; 2]>();
    assert_eq!(owned, [String::from("owned"), String::from("owned")]);
}

#[test]
fn into_some_of_own_marker() {
    assert_eq!(value_of::<IntoSome<Word>>(), Some("word"));
}

struct Never;

impl Const for Never {
    type Type = u8;

    fn binds(_v: u8) -> bool {
        false
    }

    fn value() -> u8 {
        panic!("no value for this binding")
    }
}

#[test]
fn failing_binding_in_untaken_branch_is_not_built() {
    let taken = value_of::<Seven>() == 8;
    let v: u8 = if taken { value_of::<Never>() } else { value_of::<Seven>() };
    assert_eq!(v, 7);
    let pair: Option<(u8, u8)> = if taken { Some(value_of::<(Never, Seven)>()) } else { None };
    assert_eq!(pair, None);
}
