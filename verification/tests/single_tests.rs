use linq::single_func;
use linq::VecCursor;

#[test]
fn single_ints_via_func() {
    let source = vec![10];
    let result = single_func(VecCursor::new(source)).unwrap();
    assert_eq!(10, result);

    let source: Vec<i32> = vec![];
    let result = single_func(VecCursor::new(source));
    assert_eq!(None, result);

    let source = vec![10, 20];
    let result = single_func(VecCursor::new(source));
    assert_eq!(None, result);
}
