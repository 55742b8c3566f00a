use linq::LinqIteratorExtensions;
use linq::VecCursor;

#[test]
fn empty() {
    let mut empty_iter = VecCursor::<i32>::new(vec![]);
    assert_eq!(None, empty_iter.next());
}

#[test]
fn empty2() {
    let mut empty_iter: VecCursor<i32> = VecCursor::new(Vec::new());
    assert_eq!(None, empty_iter.next());
}
