use minihlist::{Cons, HMap, Nil};

#[test]
fn getero() {
    let list = Cons(1, Cons('x', Cons(4u8, Nil)));
    let f = Cons(|i| i + 1, Cons(|c: char| c.to_ascii_uppercase(), Cons(i64::from, Nil)));

    assert_eq!(list.map(f), Cons(2, Cons('X', Cons(4i64, Nil))));
}

#[test]
fn homo() {
    let list = Cons(1, Cons(2, Cons(3, Nil)));
    let f = &mut |i| i64::from(i) + 1;

    assert_eq!(list.map(f), Cons(2i64, Cons(3i64, Cons(4i64, Nil))));
}

#[test]
fn mixed() {
    let list = Cons('x', Cons("x", Cons(2u8, Cons(4u8, Cons(8u8, Nil)))));
    let f = Cons(
        |c: char| c.to_ascii_uppercase(),
        Cons(|s: &str| s.to_uppercase(), Cons(&mut |i| i * 2, Nil)),
    );

    assert_eq!(
        list.map(f),
        Cons('X', Cons(String::from("X"), Cons(4, Cons(8, Cons(16, Nil)))))
    );
}

#[test]
fn map_one_function_per_element() {
    let list = Cons(10u16, Cons(3u32, Cons(42u64, Nil)));
    let f = Cons(|x| x + 2, Cons(|y| y * 2, Cons(|z| z - 2, Nil)));
    assert_eq!(list.map(f), Cons(12, Cons(6, Cons(40, Nil))));
}

#[test]
fn map_one_function_for_all() {
    let list = Cons(1, Cons(2, Cons(3, Nil)));
    assert_eq!(list.map(&mut std::ops::Neg::neg), Cons(-1, Cons(-2, Cons(-3, Nil))));
}

#[test]
fn map_reusable_tail_function() {
    let list = Cons(1.5, Cons(12, Cons(16, Nil)));
    let f = Cons(|f: f64| (f * 2.) as i32, Cons(&mut |i: i32| format!("{}", i), Nil));
    assert_eq!(list.map(f), Cons(3, Cons(String::from("12"), Cons(String::from("16"), Nil))));
}

#[test]
fn map_empty() {
    assert_eq!(Nil.map(|x: i32| x), Nil);
}
