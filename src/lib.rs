//! Traversal of sentinel-terminated arrays.
//!
//! An element type says, through [`Zeroable`], which of its values is the
//! terminator. [`NullTermArrayIter`] walks an array one element at a time and
//! stops at the first such value.
use vstd::prelude::*;

mod cursor;
mod zeroable;

pub use cursor::{
    before_sentinel, is_terminated, lemma_before_sentinel_of_closed, NullTermArrayIter,
};
pub use zeroable::{lemma_terminator_is_zero, ConstAddr, MutAddr, Zeroable};
