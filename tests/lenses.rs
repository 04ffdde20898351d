use druid::lens::{with_mut, Deref, First, Id, InArc, Index, Lens, Second, Then, Unwrap};
use std::sync::Arc;

#[test]
fn then_reads_inner_part_of_outer_part() {
    let w: ((bool, i64), u8) = ((true, 4), 9);
    let l = Then::new(First, Second);
    let direct: i64 = Second.get(&First.get(&w));
    assert_eq!(Lens::<((bool, i64), u8), i64>::get(&l, &w), 4);
    assert_eq!(direct, 4);
}

#[test]
fn then_writes_through_both_lenses() {
    let mut w: ((bool, i64), u8) = ((true, 4), 9);
    let l = Then::new(First, Second);
    Lens::<((bool, i64), u8), i64>::set(&l, &mut w, 7);
    assert_eq!(w, ((true, 7), 9));
    assert_eq!(Lens::<((bool, i64), u8), i64>::get(&l, &w), 7);
}

#[test]
fn field_set_then_get() {
    let mut w: (bool, i64) = (false, 1);
    Second.set(&mut w, 5);
    assert_eq!(Lens::<(bool, i64), i64>::get(&Second, &w), 5);
    assert_eq!(w, (false, 5));
    First.set(&mut w, true);
    assert_eq!(Lens::<(bool, i64), bool>::get(&First, &w), true);
    assert_eq!(w, (true, 5));
}

#[test]
fn id_lens_replaces_whole() {
    let mut w: u32 = 3;
    Id.set(&mut w, 11);
    assert_eq!(Lens::<u32, u32>::get(&Id, &w), 11);
}

#[test]
fn index_set_then_get_in_bounds() {
    let mut v: Vec<i64> = vec![3, 4, 5];
    let l = Index::new(1, 0i64);
    l.set(&mut v, 9);
    assert_eq!(v, vec![3, 9, 5]);
    assert_eq!(l.get(&v), 9);
}

#[test]
fn index_out_of_bounds_reads_default_and_ignores_writes() {
    for index in [2usize, 3, 100, usize::MAX] {
        let mut v: Vec<i64> = vec![1, 2];
        let l = Index::new(index, -1i64);
        assert_eq!(l.get(&v), -1);
        l.set(&mut v, 42);
        assert_eq!(v, vec![1, 2]);
        assert_eq!(l.get(&v), -1);
    }
}

#[test]
fn index_on_empty_vector() {
    let mut v: Vec<u8> = Vec::new();
    let l = Index::new(0, 7u8);
    assert_eq!(l.get(&v), 7);
    l.set(&mut v, 1);
    assert!(v.is_empty());
}

#[test]
fn unwrap_lens_absent_and_present() {
    let l = Unwrap::new(0i64);
    let mut none: Option<i64> = None;
    assert_eq!(l.get(&none), 0);
    l.set(&mut none, 8);
    assert_eq!(none, None);
    let mut some: Option<i64> = Some(2);
    assert_eq!(l.get(&some), 2);
    l.set(&mut some, 8);
    assert_eq!(some, Some(8));
}

#[test]
fn writing_back_what_was_read_changes_nothing() {
    let mut v: Vec<i64> = vec![5, 6, 7];
    let l = Index::new(2, 0i64);
    let x = l.get(&v);
    l.set(&mut v, x);
    assert_eq!(v, vec![5, 6, 7]);
    let mut w: ((bool, i64), u8) = ((false, -3), 1);
    let t = Then::new(First, Second);
    let p: i64 = Lens::<((bool, i64), u8), i64>::get(&t, &w);
    Lens::<((bool, i64), u8), i64>::set(&t, &mut w, p);
    assert_eq!(w, ((false, -3), 1));
}

#[test]
fn then_through_absent_option_is_noop() {
    let mut w: (Option<i64>, bool) = (None, true);
    let t = Then::new(First, Unwrap::new(99i64));
    assert_eq!(Lens::<(Option<i64>, bool), i64>::get(&t, &w), 99);
    Lens::<(Option<i64>, bool), i64>::set(&t, &mut w, 5);
    assert_eq!(w, (None, true));
    let mut w2: (Option<i64>, bool) = (Some(1), true);
    Lens::<(Option<i64>, bool), i64>::set(&t, &mut w2, 5);
    assert_eq!(w2, (Some(5), true));
}

#[test]
fn with_mut_then_get_reads_new_value() {
    let mut w: (bool, i64) = (true, 10);
    with_mut(&Second, &mut w, |p: i64| p * 3);
    assert_eq!(w, (true, 30));
    with_mut(&Second, &mut w, |_p: i64| -4);
    assert_eq!(Lens::<(bool, i64), i64>::get(&Second, &w), -4);
}

#[test]
fn with_mut_on_absent_index_is_noop() {
    let mut v: Vec<i64> = vec![1, 2, 3];
    let l = Index::new(3, 50i64);
    let mut seen: i64 = 0;
    with_mut(&l, &mut v, |p: i64| {
        seen = p;
        p + 1
    });
    assert_eq!(seen, 50);
    assert_eq!(v, vec![1, 2, 3]);
    with_mut(&Index::new(0, 0i64), &mut v, |p: i64| p + 1);
    assert_eq!(v, vec![2, 2, 3]);
}

#[test]
fn deref_lens_reads_and_writes_box() {
    let mut b: Box<u16> = Box::new(4);
    assert_eq!(Deref.get(&b), 4);
    Deref.set(&mut b, 12);
    assert_eq!(*b, 12);
}

#[test]
fn in_arc_lens_reads_and_writes_copy_on_write() {
    let mut a: Arc<i64> = Arc::new(3);
    let b = a.clone();
    assert_eq!(InArc.get(&a), 3);
    InArc.set(&mut a, 9);
    assert_eq!(InArc.get(&a), 9);
    assert_eq!(*b, 3);
}
