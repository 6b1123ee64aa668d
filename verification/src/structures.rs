//! Data types that borrow: a struct of one reference, a struct of two,
//! and an enum holding either an owned integer or a borrowed one.

use vstd::prelude::*;

verus! {

/// Houses a reference to an integer, which must outlive it.
#[derive(Debug)]
pub struct Borrowed<'a>(pub &'a i32);

/// Two named borrowed integers.
#[derive(Debug)]
pub struct NamedBorrowed<'a> {
    pub x: &'a i32,
    pub y: &'a i32,
}

/// Either an owned integer or a reference to one.
#[derive(Debug)]
pub enum Either<'a> {
    Num(i32),
    Ref(&'a i32),
}

} // verus!
