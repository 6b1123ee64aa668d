//! Verified higher-order functions: closures built, passed and called
//! under contracts stated with `call_requires` and `call_ensures`.

use vstd::prelude::*;

verus! {

/// Builds the closure that adds `i` to its argument.
pub fn counter(i: i32) -> (f: impl Fn(i32) -> i32)
    ensures
        forall|n: i32| i32::MIN <= i + n <= i32::MAX ==> call_requires(f, (n,)),
        forall|n: i32, r: i32| call_ensures(f, (n,), r) ==> r == i + n,
{
    move |n: i32| -> (r: i32)
        requires
            i32::MIN <= i + n <= i32::MAX,
        ensures
            r == i + n,
        {
            n + i
        }
}

/// Calls a one-shot closure once.
pub fn apply<F: FnOnce()>(f: F)
    requires
        call_requires(f, ()),
    ensures
        call_ensures(f, (), ()),
{
    f();
}

/// Applies the closure to the value `3`.
pub fn apply_to_3<F: Fn(i32) -> i32>(f: F) -> (r: i32)
    requires
        call_requires(f, (3,)),
    ensures
        call_ensures(f, (3,), r),
{
    f(3)
}

/// Calls a mutating closure twice, in order.
pub fn do_twice<F: FnMut()>(func: F)
    requires
        forall|g: F| call_requires(g, ()),
{
    let mut func = func;
    func();
    func();
}

/// Applies the closure to the given size.
pub fn call_with_one<F: Fn(usize) -> usize>(func: F, size: usize) -> (r: usize)
    requires
        call_requires(func, (size,)),
    ensures
        call_ensures(func, (size,), r),
{
    func(size)
}

} // verus!
