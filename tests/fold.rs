use minihlist::{Cons, Fold, FoldRight, Nil};

#[test]
fn fold_sum() {
    let sum = Cons(1, Cons(2, Cons(3, Nil))).fold(0, std::ops::Add::add);
    assert_eq!(sum, 6);
}

#[test]
fn rfold_sum() {
    let sum = Cons(1, Cons(2, Cons(3, Nil))).rfold(0, std::ops::Add::add);
    assert_eq!(sum, 6);
}

#[test]
fn fold_builds_left_to_right() {
    let res = Cons(1, Cons(2, Cons(3, Nil)))
        .fold(String::from("0"), |acc, i| format!("({} + {})", acc, i));
    assert_eq!(res, "(((0 + 1) + 2) + 3)");
}

#[test]
fn rfold_builds_right_to_left() {
    let res = Cons(1, Cons(2, Cons(3, Nil)))
        .rfold(String::from("0"), |acc, i| format!("({} + {})", acc, i));
    assert_eq!(res, "(((0 + 3) + 2) + 1)");
}

#[test]
fn fold_one_function_per_element() {
    let res = Cons(10u16, Cons(3u32, Cons(42u64, Nil))).fold(
        8u8,
        Cons(
            |acc, a| acc as u16 + a,
            Cons(|acc, b| acc as u32 * b, Cons(|acc, c| acc as u64 - c, Nil)),
        ),
    );
    assert_eq!(res, 12);
}

#[test]
fn fold_reusable_tail_function() {
    let res = Cons(1.5, Cons(12, Cons(16, Nil)))
        .fold(2., Cons(|acc: f64, f: f64| (acc * f) as i32, Cons(|acc, i| acc + i, Nil)));
    assert_eq!(res, 31);
}

#[test]
fn rfold_one_function_per_element() {
    let res = Cons(b' ', Cons(13, Cons(false, Nil))).rfold(
        1,
        Cons(
            |acc, c: u8| acc + (c as i32),
            Cons(|acc, i| acc * i, Cons(|acc, b| if b { 10 } else { acc }, Nil)),
        ),
    );
    assert_eq!(res, 45);
}

#[test]
fn rfold_reusable_tail_function() {
    let res = Cons(1.5, Cons(12, Cons(16, Nil)))
        .rfold(2, Cons(|acc: i32, f: f64| (acc as f64 * f) as i32, Cons(|acc, i| acc + i, Nil)));
    assert_eq!(res, 45);
}

#[test]
fn fold_empty_returns_accumulator() {
    assert_eq!(Nil.fold(7, |acc: i32, x: i32| acc + x), 7);
    assert_eq!(Nil.rfold(7, |acc: i32, x: i32| acc + x), 7);
}
