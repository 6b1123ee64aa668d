//! Small verified functions on strings, vectors and arithmetic.

use vstd::prelude::*;
use vstd::string::StrSliceExecFns;

verus! {

/// `needle` occurs contiguously somewhere in `haystack`.
pub open spec fn is_substring(needle: Seq<char>, haystack: Seq<char>) -> bool {
    exists|i: int|
        0 <= i <= haystack.len() - needle.len() && #[trigger] haystack.subrange(
            i,
            i + needle.len(),
        ) == needle
}

/// Whether `haystack` holds `needle` starting at position `i`.
fn matches_at(needle: &str, haystack: &str, i: usize, nl: usize, hl: usize) -> (r: bool)
    requires
        nl == needle@.len(),
        hl == haystack@.len(),
        i + nl <= hl,
    ensures
        r == (haystack@.subrange(i as int, i as int + nl as int) == needle@),
{
    let mut j: usize = 0;
    while j < nl
        invariant
            nl == needle@.len(),
            hl == haystack@.len(),
            i + nl <= hl,
            0 <= j <= nl,
            forall|q: int| 0 <= q < j ==> haystack@[i + q] == needle@[q],
        decreases nl - j,
    {
        if haystack.get_char(i + j) != needle.get_char(j) {
            proof {
                assert(haystack@.subrange(i as int, i as int + nl as int)[j as int]
                    != needle@[j as int]);
            }
            return false;
        }
        j = j + 1;
    }
    proof {
        assert(haystack@.subrange(i as int, i as int + nl as int) =~= needle@);
    }
    true
}

/// Whether `haystack` contains `needle` as a contiguous substring.
pub fn substring_match(needle: &str, haystack: &str) -> (r: bool)
    ensures
        r == is_substring(needle@, haystack@),
{
    let nl = needle.unicode_len();
    let hl = haystack.unicode_len();
    if nl > hl {
        return false;
    }
    if nl == 0 {
        proof {
            assert(haystack@.subrange(0, 0 + needle@.len() as int) =~= needle@);
            assert(is_substring(needle@, haystack@));
        }
        return true;
    }
    let mut i: usize = 0;
    while i <= hl - nl
        invariant
            nl == needle@.len(),
            hl == haystack@.len(),
            1 <= nl <= hl,
            0 <= i <= hl - nl + 1,
            forall|p: int|
                0 <= p < i ==> #[trigger] haystack@.subrange(p, p + nl as int) != needle@,
        decreases hl - nl + 1 - i,
    {
        if matches_at(needle, haystack, i, nl, hl) {
            return true;
        }
        i = i + 1;
    }
    false
}

/// Appends the sentinel `100` to the vector and hands it back.
pub fn modify(v: Vec<i32>) -> (r: Vec<i32>)
    ensures
        r@ == v@.push(100),
{
    let mut r = v;
    r.push(100);
    r
}

/// Reverses the vector in place.
pub fn modify_ref(v: &mut Vec<i32>)
    ensures
        final(v)@ == old(v)@.reverse(),
{
    let n = v.len();
    let mut r: Vec<i32> = Vec::new();
    let mut i: usize = 0;
    while i < n
        invariant
            n == v@.len(),
            v@ == old(v)@,
            0 <= i <= n,
            r@.len() == i,
            forall|j: int| 0 <= j < i ==> r@[j] == v@[n - 1 - j],
        decreases n - i,
    {
        r.push(v[n - 1 - i]);
        i = i + 1;
    }
    proof {
        assert(r@ =~= old(v)@.reverse());
    }
    *v = r;
}

/// The product of the two arguments.
pub fn square(x: i32, y: i32) -> (r: i32)
    requires
        i32::MIN <= x * y <= i32::MAX,
    ensures
        r == x * y,
{
    x * y
}

/// What the named operation computes: `sum` adds, `product` multiplies.
pub open spec fn apply_op(op: Seq<char>, a: int, b: int) -> int {
    if op == "sum"@ {
        a + b
    } else {
        a * b
    }
}

/// Picks the arithmetic operation the name denotes, as a callable value.
/// Only `sum` and `product` are known.
pub fn math(op: &str) -> (f: impl Fn(i32, i32) -> i32)
    requires
        op@ == "sum"@ || op@ == "product"@,
    ensures
        forall|a: i32, b: i32|
            i32::MIN <= apply_op(op@, a as int, b as int) <= i32::MAX ==> call_requires(
                f,
                (a, b),
            ),
        forall|a: i32, b: i32, r: i32|
            call_ensures(f, (a, b), r) ==> r == apply_op(op@, a as int, b as int),
{
    let is_sum = op.to_owned() == "sum".to_owned();
    move |a: i32, b: i32| -> (r: i32)
        requires
            if is_sum {
                i32::MIN <= a + b <= i32::MAX
            } else {
                i32::MIN <= a * b <= i32::MAX
            },
        ensures
            r == if is_sum {
                a + b
            } else {
                a * b
            },
        {
            if is_sum {
                a + b
            } else {
                a * b
            }
        }
}

/// Applies the named operation to the two arguments.
pub fn math2(op: &str, a: i32, b: i32) -> (r: i32)
    requires
        op@ == "sum"@ || op@ == "product"@,
        i32::MIN <= apply_op(op@, a as int, b as int) <= i32::MAX,
    ensures
        r == apply_op(op@, a as int, b as int),
{
    let f = math(op);
    f(a, b)
}

} // verus!
