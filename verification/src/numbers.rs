//! Defaults of the fixed-width integers: each is the type's zero.
use vstd::prelude::*;
use crate::{DefaultConst, ExactDefault};

verus! {

impl DefaultConst for i8 {
    open spec fn is_default(v: i8) -> bool {
        v == 0
    }

    fn default_value() -> (v: i8) {
        0
    }
}

impl ExactDefault for i8 {
    proof fn lemma_default_unique(a: i8, b: i8) {
    }
}

impl DefaultConst for i16 {
    open spec fn is_default(v: i16) -> bool {
        v == 0
    }

    fn default_value() -> (v: i16) {
        0
    }
}

impl ExactDefault for i16 {
    proof fn lemma_default_unique(a: i16, b: i16) {
    }
}

impl DefaultConst for i32 {
    open spec fn is_default(v: i32) -> bool {
        v == 0
    }

    fn default_value() -> (v: i32) {
        0
    }
}

impl ExactDefault for i32 {
    proof fn lemma_default_unique(a: i32, b: i32) {
    }
}

impl DefaultConst for i64 {
    open spec fn is_default(v: i64) -> bool {
        v == 0
    }

    fn default_value() -> (v: i64) {
        0
    }
}

impl ExactDefault for i64 {
    proof fn lemma_default_unique(a: i64, b: i64) {
    }
}

impl DefaultConst for i128 {
    open spec fn is_default(v: i128) -> bool {
        v == 0
    }

    fn default_value() -> (v: i128) {
        0
    }
}

impl ExactDefault for i128 {
    proof fn lemma_default_unique(a: i128, b: i128) {
    }
}

impl DefaultConst for isize {
    open spec fn is_default(v: isize) -> bool {
        v == 0
    }

    fn default_value() -> (v: isize) {
        0
    }
}

impl ExactDefault for isize {
    proof fn lemma_default_unique(a: isize, b: isize) {
    }
}

impl DefaultConst for u8 {
    open spec fn is_default(v: u8) -> bool {
        v == 0
    }

    fn default_value() -> (v: u8) {
        0
    }
}

impl ExactDefault for u8 {
    proof fn lemma_default_unique(a: u8, b: u8) {
    }
}

impl DefaultConst for u16 {
    open spec fn is_default(v: u16) -> bool {
        v == 0
    }

    fn default_value() -> (v: u16) {
        0
    }
}

impl ExactDefault for u16 {
    proof fn lemma_default_unique(a: u16, b: u16) {
    }
}

impl DefaultConst for u32 {
    open spec fn is_default(v: u32) -> bool {
        v == 0
    }

    fn default_value() -> (v: u32) {
        0
    }
}

impl ExactDefault for u32 {
    proof fn lemma_default_unique(a: u32, b: u32) {
    }
}

impl DefaultConst for u64 {
    open spec fn is_default(v: u64) -> bool {
        v == 0
    }

    fn default_value() -> (v: u64) {
        0
    }
}

impl ExactDefault for u64 {
    proof fn lemma_default_unique(a: u64, b: u64) {
    }
}

impl DefaultConst for u128 {
    open spec fn is_default(v: u128) -> bool {
        v == 0
    }

    fn default_value() -> (v: u128) {
        0
    }
}

impl ExactDefault for u128 {
    proof fn lemma_default_unique(a: u128, b: u128) {
    }
}

impl DefaultConst for usize {
    open spec fn is_default(v: usize) -> bool {
        v == 0
    }

    fn default_value() -> (v: usize) {
        0
    }
}

impl ExactDefault for usize {
    proof fn lemma_default_unique(a: usize, b: usize) {
    }
}

} // verus!
