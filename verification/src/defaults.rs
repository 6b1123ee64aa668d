//! A borrowed-reference struct with a hand-written `Default`.

use vstd::prelude::*;

verus! {

/// A struct annotated with a lifetime, holding one borrowed integer.
#[derive(Debug)]
pub struct Borrowed<'a> {
    pub x: &'a i32,
}

impl<'a> Default for Borrowed<'a> {
    /// The default borrows the constant ten.
    fn default() -> (r: Self)
        ensures
            *r.x == 10,
    {
        Borrowed { x: &10 }
    }
}

} // verus!
