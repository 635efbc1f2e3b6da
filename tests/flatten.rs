use minihlist::{Cons, Flatten, Nil, NotHList};

#[derive(Debug, PartialEq)]
struct Wrap(Nil);

impl NotHList for Wrap {}

#[test]
fn test() {
    let hlist = Cons(
        1,
        Cons(
            Cons(2, Cons(3, Cons(4, Nil))),
            Cons(Cons(5, Cons(Cons(6, Cons(7, Nil)), Cons(Cons(8, Nil), Cons(9, Nil)))), Nil),
        ),
    );
    assert_eq!(
        hlist.flatten().flatten(),
        Cons(1, Cons(2, Cons(3, Cons(4, Cons(5, Cons(6, Cons(7, Cons(8, Cons(9, Nil)))))))))
    );
}

#[test]
fn hlist_with_hlist_inside_struct() {
    let hlist = Cons(Wrap(Nil), Cons(Cons(8, Nil), Nil));
    assert_eq!(hlist.flatten(), Cons(Wrap(Nil), Cons(8, Nil)));
}

#[test]
fn flatten_drops_empty_element() {
    let hlist = Cons(1, Cons(Nil, Cons(2, Nil)));
    assert_eq!(hlist.flatten(), Cons(1, Cons(2, Nil)));
}

#[test]
fn flatten_one_level_only() {
    let hlist = Cons(Cons(1, Cons(Cons('a', Nil), Nil)), Cons("s", Nil));
    assert_eq!(hlist.flatten(), Cons(1, Cons(Cons('a', Nil), Cons("s", Nil))));
}

#[test]
fn flatten_empty() {
    assert_eq!(Nil.flatten(), Nil);
}
