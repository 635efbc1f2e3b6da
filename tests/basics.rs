use minihlist::{pure, Append, Cons, Extend, Get, HList, Nil, Remove, Rev};

#[test]
fn append_places_last() {
    assert_eq!(Cons(1, Cons("", Nil)).append(17), Cons(1, Cons("", Cons(17, Nil))));
    assert_eq!(Nil.append(42), Cons(42, Nil));
}

#[test]
fn extend_concatenates() {
    let a = Cons(1, Cons("x", Nil));
    let b = Cons('c', Cons(2u8, Nil));
    assert_eq!(a.extend(b), Cons(1, Cons("x", Cons('c', Cons(2u8, Nil)))));
}

#[test]
fn extend_identities() {
    let s = Cons(1, Cons('y', Nil));
    assert_eq!(Nil.extend(s), s);
    assert_eq!(s.extend(Nil), s);
}

#[test]
fn len_counts_elements() {
    assert_eq!(Nil.len(), 0);
    assert_eq!(Cons(true, Cons(0, Nil)).len(), 2);
    assert_eq!(Cons(1, Cons('a', Cons("b", Nil))).len(), 3);
}

#[test]
fn push_puts_in_front() {
    assert_eq!(pure("hi").push(true), Cons(true, Cons("hi", Nil)));
    assert_eq!(Nil.push(1), Cons(1, Nil));
}

#[test]
fn pure_and_from() {
    assert_eq!(pure(10), Cons(10, Nil));
    assert_eq!(pure(Some(false)), Cons(Some(false), Nil));
    assert_eq!(Nil::from(()), Nil);
    assert_eq!(Cons::from(5), Cons(5, Nil));
    assert_eq!(Cons::from((1, Cons('a', Nil))), Cons(1, Cons('a', Nil)));
}

#[test]
fn pop_splits() {
    let (head, tail) = Cons(1, Cons(false, Cons((), Nil))).pop();
    assert_eq!(head, 1);
    assert_eq!(tail, Cons(false, Cons((), Nil)));
}

#[test]
fn get_by_type() {
    let mut list = Cons(1, Cons('x', Nil));
    let i: &i32 = list.get();
    assert_eq!(i, &1);
    *list.get_mut() = 'y';
    assert_eq!(list, Cons(1, Cons('y', Nil)));
}

#[test]
fn remove_by_type() {
    let list = Cons(1, Cons('x', Nil));
    let (i, rest): (i32, _) = list.remove();
    assert_eq!(i, 1);
    assert_eq!(rest, Cons('x', Nil));
}

#[test]
fn remove_then_reinsert() {
    let list = Cons(1, Cons('x', Cons(true, Nil)));
    let (c, rest): (char, _) = list.remove();
    assert_eq!(c, 'x');
    assert_eq!(rest.append(c), Cons(1, Cons(true, Cons('x', Nil))));
}

#[test]
fn rev_reverses() {
    let list = Cons(1, Cons("h", Cons('x', Nil)));
    assert_eq!(list.rev(), Cons('x', Cons("h", Cons(1, Nil))));
    assert_eq!(list.rev().rev(), list);
    assert_eq!(Nil.rev(), Nil);
}

#[test]
fn extend_adds_lengths() {
    let a = Cons(1, Nil);
    let b = Cons('a', Cons(2u8, Nil));
    assert_eq!(a.extend(b).len(), a.len() + b.len());
    assert_eq!(Nil.extend(Nil).len(), 0);
}

#[test]
fn remove_deep_element() {
    let list = Cons(1u8, Cons('x', Cons("s", Cons(true, Nil))));
    let (s, rest): (&str, _) = list.remove();
    assert_eq!(s, "s");
    assert_eq!(rest, Cons(1u8, Cons('x', Cons(true, Nil))));
    assert_eq!(rest.len() + 1, list.len());
}

#[test]
fn extend_is_associative() {
    let a = Cons(1, Cons(true, Nil));
    let b = Cons('c', Nil);
    let c = Cons(2u64, Cons("z", Nil));
    assert_eq!(a.extend(b).extend(c), a.extend(b.extend(c)));
}
