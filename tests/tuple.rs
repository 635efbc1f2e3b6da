use minihlist::{Cons, Exclude, IntoArray, Nil, SmallHList, Tuple, Unique};

fn assert_excludes<T: Exclude<E>, E>() {}

fn assert_unique<T: Unique>() {}

#[test]
fn exclude_hlist_with_tuple2() {
    assert_excludes::<Cons<(i32, i32), Nil>, u64>();
}

#[test]
fn uniq_hlist_with_tuple2() {
    assert_unique::<Cons<String, Cons<(i32, i32), Nil>>>();
}

#[test]
fn exclude_and_unique_lists() {
    assert_excludes::<Cons<usize, Cons<String, Cons<char, Nil>>>, i32>();
    assert_excludes::<Cons<u32, Cons<i32, Nil>>, Nil>();
    assert_unique::<Cons<usize, Cons<String, Cons<char, Nil>>>>();
    assert_unique::<Nil>();
}

#[test]
fn tuple_round_trip() {
    assert_eq!((1, 'a', "b").into_hlist(), Cons(1, Cons('a', Cons("b", Nil))));
    assert_eq!(<(i32, char)>::from_hlist(Cons(1, Cons('a', Nil))), (1, 'a'));
    assert_eq!(Cons(1, Cons('a', Nil)).into_tuple(), (1, 'a'));
    assert_eq!(<Cons<u8, Nil>>::from_tuple((7,)), Cons(7u8, Nil));
    assert_eq!(Nil.into_tuple(), ());
    assert_eq!(().into_hlist(), Nil);
}

#[test]
fn into_array() {
    let arr: [i32; 3] = Cons(1, Cons(2, Cons(3, Nil))).into_array();
    assert_eq!(arr, [1, 2, 3]);

    let empty: [i32; 0] = Nil.into_array();
    assert_eq!(empty, []);
}

#[test]
fn into_array_converts_each_element() {
    let arr: [u64; 3] = Cons(1u8, Cons(2u16, Cons(3u32, Nil))).into_array();
    assert_eq!(arr, [1, 2, 3]);
}
