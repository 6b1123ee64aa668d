//! Test of the borrowed struct with a hand-written `Default`.

use minikv::defaults::Borrowed;

#[test]
fn lifetime_traits_run() {
    let b: Borrowed = Default::default();
    println!("b is {:?}", b);
}
