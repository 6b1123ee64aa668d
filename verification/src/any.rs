//! A trait for searching a container with a caller-supplied predicate.

use vstd::prelude::*;

verus! {

/// A container that can ask whether any element satisfies a predicate.
pub trait Any {
    /// The elements the search walks, in order.
    spec fn elems(&self) -> Seq<u32>;

    /// Whether `f` answers `true` for some element.  Since `f` itself may
    /// answer either way on any run, the contract promises only what the
    /// observed answers allow: a `true` result names an element `f`
    /// accepted, and a `false` result means `f` rejected every element.
    fn any<F>(&self, f: F) -> (r: bool) where Self: Sized, F: Fn(u32) -> bool
        requires
            forall|i: int| 0 <= i < self.elems().len() ==> call_requires(f, (self.elems()[i],)),
        ensures
            r ==> exists|i: int|
                0 <= i < self.elems().len() && call_ensures(f, (self.elems()[i],), true),
            !r ==> forall|i: int|
                0 <= i < self.elems().len() ==> call_ensures(f, (self.elems()[i],), false),
    ;
}

impl Any for Vec<u32> {
    open spec fn elems(&self) -> Seq<u32> {
        self@
    }

    fn any<F>(&self, f: F) -> (r: bool) where Self: Sized, F: Fn(u32) -> bool {
        let n = self.len();
        let mut i: usize = 0;
        while i < n
            invariant
                n == self.elems().len(),
                0 <= i <= n,
                forall|j: int|
                    0 <= j < self.elems().len() ==> call_requires(f, (self.elems()[j],)),
                forall|j: int| 0 <= j < i ==> call_ensures(f, (self.elems()[j],), false),
            decreases n - i,
        {
            if f(self[i]) {
                proof {
                    assert(call_ensures(f, (self.elems()[i as int],), true));
                }
                return true;
            }
            i = i + 1;
        }
        false
    }
}

} // verus!
