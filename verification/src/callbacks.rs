//! More verified function-as-value plumbing: callers that hand a fixed
//! or a given argument to a closure and pass its guarantee on.

use vstd::prelude::*;

verus! {

/// Calls a reusable closure once.
pub fn apply<F: Fn()>(f: F)
    requires
        call_requires(f, ()),
    ensures
        call_ensures(f, (), ()),
{
    f();
}

/// Calls a one-shot closure once.
pub fn apply2<F: FnOnce()>(f: F)
    requires
        call_requires(f, ()),
    ensures
        call_ensures(f, (), ()),
{
    f();
}

/// Calls the closure it is handed.
pub fn call_me<F: Fn()>(f: F)
    requires
        call_requires(f, ()),
    ensures
        call_ensures(f, (), ()),
{
    f();
}

/// Applies the closure to the value `10`.
pub fn call<F: Fn(i32) -> i32>(f: F) -> (r: i32)
    requires
        call_requires(f, (10,)),
    ensures
        call_ensures(f, (10,), r),
{
    f(10)
}

/// Applies the closure to the given argument.
pub fn call2<F: Fn(i32) -> i32>(f: F, i: i32) -> (r: i32)
    requires
        call_requires(f, (i,)),
    ensures
        call_ensures(f, (i,), r),
{
    f(i)
}

/// The successor of the argument.
pub fn counter(i: i32) -> (r: i32)
    requires
        i < i32::MAX,
    ensures
        r == i + 1,
{
    i + 1
}

} // verus!
