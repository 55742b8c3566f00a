use linq::LinqIteratorExtensions;
use linq::VecCursor;

/// Drain a cursor into a vector.
fn drain<C: LinqIteratorExtensions>(mut cursor: C) -> Vec<C::Item> {
    let mut collected = Vec::new();
    while let Some(x) = cursor.next() {
        collected.push(x);
    }
    collected
}

#[test]
fn next_yields_elements_in_order() {
    let mut c = VecCursor::new(vec![10, 20, 30]);
    assert_eq!(Some(10), c.next());
    assert_eq!(Some(20), c.next());
    assert_eq!(Some(30), c.next());
    assert_eq!(None, c.next());
}

#[test]
fn exhausted_cursor_never_revives() {
    let mut c = VecCursor::new(vec![1]);
    assert_eq!(Some(1), c.next());
    assert_eq!(None, c.next());
    assert_eq!(None, c.next());
    assert_eq!(None, c.next());
}

#[test]
fn single_or_else_does_not_invoke_fallback_for_singleton() {
    let actual = VecCursor::new(vec![12]).single_or_else(|| panic!("fallback must stay unused"));
    assert_eq!(actual, 12);
}

#[test]
fn first_or_else_does_not_invoke_fallback_when_element_exists() {
    let actual = VecCursor::new(vec![1, 2]).first_or_else(|| panic!("fallback must stay unused"));
    assert_eq!(actual, 1);
}

#[test]
fn single_or_else_invokes_fallback_exactly_once_when_empty() {
    let mut calls = 0;
    let actual = VecCursor::<i32>::new(vec![]).single_or_else(|| {
        calls += 1;
        130
    });
    assert_eq!(actual, 130);
    assert_eq!(calls, 1);
}

#[test]
fn single_or_else_invokes_fallback_exactly_once_for_two_or_more() {
    let mut calls = 0;
    let actual = VecCursor::new(vec![0, 1, 2]).single_or_else(|| {
        calls += 1;
        130
    });
    assert_eq!(actual, 130);
    assert_eq!(calls, 1);
}

#[test]
fn first_or_else_invokes_fallback_exactly_once_when_empty() {
    let mut calls = 0;
    let actual = VecCursor::<i32>::new(vec![]).first_or_else(|| {
        calls += 1;
        130
    });
    assert_eq!(actual, 130);
    assert_eq!(calls, 1);
}

#[test]
fn first_or_default_over_several_elements_returns_first() {
    assert_eq!(1, VecCursor::new(vec![1, 2, 3]).first_or_default());
}

#[test]
fn peek_len_repeats_while_count_is_one_shot() {
    let c = VecCursor::new(vec![10, 20, 30, 40]);
    // The peek-length query does not consume: it can be repeated.
    assert_eq!(4, c.len());
    assert_eq!(4, c.len());

    // The tally consumes the cursor: it can only be taken once.
    let mut c = c;
    assert_eq!(4, c.count());
    assert_eq!(0, c.len());
    assert_eq!(0, c.count());
}

#[test]
fn single_advances_at_most_twice() {
    let mut c = VecCursor::new(vec![10, 20, 30, 40]);
    assert_eq!(None, c.single());
    // Two elements were consumed by the cardinality check; the rest stay.
    assert_eq!(drain(c), vec![30, 40]);
}

#[test]
fn first_or_advances_once() {
    let mut c = VecCursor::new(vec![10, 20, 30]);
    assert_eq!(10, c.first_or(42));
    assert_eq!(drain(c), vec![20, 30]);
}
