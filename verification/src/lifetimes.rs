//! Small verified functions whose point is borrowing: references in and
//! out, mutation through a reference, and lifetime-related signatures.

use vstd::prelude::*;

verus! {

/// A function with a lifetime parameter that no reference constrains.
pub fn failed_borrow<'a>() {
    let _x: i32 = 12;
}

/// Adds one to the integer behind the reference.
pub fn add_one(x: &mut i32)
    requires
        *old(x) < i32::MAX,
    ensures
        *final(x) == *old(x) + 1,
{
    *x += 1;
}

/// Hands the first of its two borrowed arguments back.
pub fn pass_x<'a, 'b>(x: &'a i32, _y: &'b i32) -> (r: &'a i32)
    ensures
        r == x,
{
    x
}

/// The product of the two borrowed integers.
pub fn multiply<'a>(first: &'a i32, second: &'a i32) -> (r: i32)
    requires
        i32::MIN <= *first * *second <= i32::MAX,
    ensures
        r == *first * *second,
{
    *first * *second
}

/// Hands the first argument back, coerced to the shorter lifetime.
pub fn choose_first<'a: 'b, 'b>(first: &'a i32, _second: &'b i32) -> (r: &'b i32)
    ensures
        r == first,
{
    first
}

/// An owner of one integer, mutated through `&mut self` methods.
pub struct Owner(pub i32);

impl Owner {
    /// Adds the borrowed integer to the owned one.
    pub fn add(&mut self, i: &i32)
        requires
            i32::MIN <= old(self).0 + *i <= i32::MAX,
        ensures
            final(self).0 == old(self).0 + *i,
    {
        self.0 += *i;
    }

    /// Adds one to the owned integer.
    pub fn add_one<'a>(&'a mut self)
        requires
            old(self).0 < i32::MAX,
        ensures
            final(self).0 == old(self).0 + 1,
    {
        self.0 += 1;
    }
}

} // verus!
