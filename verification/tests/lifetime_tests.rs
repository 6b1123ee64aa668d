//! Tests on borrowing: scopes, borrowed structs, coerced lifetimes, and
//! the library's lifetime-flavoured helpers.

use minikv::lifetimes::{add_one, choose_first, multiply, pass_x, Owner};
use minikv::structures::{Borrowed, Either, NamedBorrowed};

#[test]
fn lifetime_common() {
    let i = 3;
    {
        let borrow1 = &i;
        println!("borrow1: {}", borrow1);
    }
    {
        let borrow2 = &i;
        println!("borrow2: {}", borrow2);
    }
    println!("i: {}", i);
}

#[test]
fn lifetime_run() {
    let x = 18;
    let y = 15;

    let single = Borrowed(&x);
    let double = NamedBorrowed { x: &x, y: &y };
    let reference = Either::Ref(&x);
    let number = Either::Num(y);

    println!("x is borrowed in {:?}", single);
    println!("x and y are borrowed in {:?}", double);
    println!("x is borrowed in {:?}", reference);
    println!("y is *not* borrowed in {:?}", number);
}

#[test]
fn lifetime_coercion_run() {
    let first = 2;
    {
        let second = 3;
        println!("The product is {}", multiply(&first, &second));
        println!("{} is the first", choose_first(&first, &second));
    };
}

#[test]
fn lifetime_funcs() {
    let x = 7;
    let y = 9;
    let z = pass_x(&x, &y);
    assert_eq!(*z, 7);

    let mut t = 3;
    add_one(&mut t);
    assert_eq!(t, 4);
}

#[test]
fn owner_methods() {
    let mut owner = Owner(18);
    owner.add_one();
    assert_eq!(owner.0, 19);
    let i = 12;
    owner.add(&i);
    assert_eq!(owner.0, 31);
}
