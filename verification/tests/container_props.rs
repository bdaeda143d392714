use avec::AVec;
use avec::DynamicAlloc;
use avec::Heap;
use avec::SharedAlloc;

#[test]
fn pop_on_empty_is_none() {
    let mut v: AVec<i32, Heap> = AVec::new();
    assert_eq!(v.pop(), None);
    v.push(7);
    assert_eq!(v.pop(), Some(7));
    assert_eq!(v.pop(), None);
}

#[test]
fn push_doubles_capacity_when_full() {
    let mut v: AVec<i32, Heap> = AVec::new();
    assert_eq!(v.capacity(), 0);
    v.push(0);
    assert_eq!(v.capacity(), 1);
    v.push(1);
    assert_eq!(v.capacity(), 2);
    v.push(2);
    assert_eq!(v.capacity(), 4);
    v.push(3);
    v.push(4);
    assert_eq!(v.capacity(), 8);
}

#[test]
fn reserve_is_exact_and_keeps_view() {
    let mut v: AVec<i32, DynamicAlloc> = AVec::new();
    v.push(1);
    v.push(2);
    assert_eq!(v.capacity(), 2);
    v.reserve(10);
    assert_eq!(v.capacity(), 12);
    assert_eq!(v.to_vec(), vec![1, 2]);
    v.reserve(3);
    assert_eq!(v.capacity(), 12);
    assert_eq!(v.to_vec(), vec![1, 2]);
}

#[test]
fn with_capacity_presizes_exactly() {
    let v: AVec<i32, Heap> = AVec::with_capacity(32);
    assert_eq!(v.capacity(), 32);
    assert_eq!(v.len(), 0);
    let w: AVec<i32, Heap> = AVec::with_capacity(0);
    assert_eq!(w.capacity(), 0);
}

#[test]
fn resize_up_only_reserves_capacity() {
    let mut v: AVec<i32, Heap> = AVec::new();
    v.push(1);
    v.push(2);
    v.push(3);
    v.resize(7);
    assert_eq!(v.len(), 3);
    assert_eq!(v.capacity(), 7);
    assert_eq!(v.to_vec(), vec![1, 2, 3]);
}

#[test]
fn resize_to_current_length_is_a_no_op() {
    let mut v: AVec<i32, Heap> = AVec::new();
    v.push(4);
    v.push(5);
    let cap = v.capacity();
    v.resize(2);
    assert_eq!(v.len(), 2);
    assert_eq!(v.capacity(), cap);
    assert_eq!(v.to_vec(), vec![4, 5]);
}

#[test]
fn resize_down_truncates_and_shrinks() {
    let mut v: AVec<i32, SharedAlloc> = AVec::new();
    for i in 0..1000 {
        v.push(i);
    }
    v.resize(10);
    let expect: Vec<i32> = (0..10).collect();
    assert_eq!(v.to_vec(), expect);
    assert_eq!(v.len(), 10);
    assert_eq!(v.capacity(), 10);
}

#[test]
fn cross_strategy_equality() {
    let mut a: AVec<i32, DynamicAlloc> = AVec::new();
    let mut b: AVec<i32, SharedAlloc> = AVec::new();
    let mut c: AVec<i32, Heap> = AVec::new();
    for i in 0..1000 {
        a.push(i);
        b.push(i);
        c.push(i);
    }
    assert!(a.eq_elems(&b));
    assert!(b.eq_elems(&a));
    assert!(a.eq_elems(&c));
    assert!(a.eq_elems(&a));
    let _ = c.pop();
    assert!(!a.eq_elems(&c));
    c.push(-1);
    assert!(!a.eq_elems(&c));
}

#[test]
fn extend_matches_repeated_push() {
    let mut by_extend: AVec<i32, Heap> = AVec::with_capacity(2000);
    let src: Vec<i32> = (0..1000).collect();
    by_extend.extend(src);
    let mut by_push: AVec<i32, Heap> = AVec::new();
    for i in 0..1000 {
        by_push.push(i);
    }
    assert!(by_extend.eq_elems(&by_push));
    // The pre-reserved capacity covers the whole source, so extending
    // never reallocated.
    assert_eq!(by_extend.capacity(), 2000);
}

#[test]
fn indexed_access_reads_and_overwrites() {
    let mut v: AVec<i32, Heap> = AVec::new();
    v.push(10);
    v.push(20);
    v.push(30);
    assert_eq!(*v.get(0), 10);
    assert_eq!(*v.get(2), 30);
    v.set_at(1, 99);
    assert_eq!(*v.get(1), 99);
    assert_eq!(v.to_vec(), vec![10, 99, 30]);
}

#[test]
fn range_views_match_subsequences() {
    let mut v: AVec<i32, Heap> = AVec::new();
    for i in 0..8 {
        v.push(i);
    }
    assert_eq!(v.range_to_vec(0, 8), (0..8).collect::<Vec<i32>>());
    assert_eq!(v.range_to_vec(0, 3), vec![0, 1, 2]);
    assert_eq!(v.range_to_vec(5, 8), vec![5, 6, 7]);
    assert_eq!(v.range_to_vec(2, 5), vec![2, 3, 4]);
    assert_eq!(v.range_to_vec(4, 4), Vec::<i32>::new());
}

#[test]
fn teardown_runs_after_mutation() {
    let mut v: AVec<i32, DynamicAlloc> = AVec::new();
    for i in 0..100 {
        v.push(i);
    }
    v.resize(10);
    let _ = v.destroy();
}

#[test]
fn lexicographic_order_across_strategies() {
    let mut a: AVec<i32, Heap> = AVec::new();
    let mut b: AVec<i32, SharedAlloc> = AVec::new();
    a.push(1);
    a.push(2);
    b.push(1);
    b.push(3);
    assert_eq!(a.lex_cmp(&b), std::cmp::Ordering::Less);
    assert_eq!(b.lex_cmp(&a), std::cmp::Ordering::Greater);
    assert_eq!(a.lex_cmp(&a), std::cmp::Ordering::Equal);
    let _ = b.pop();
    // A strict prefix orders below the longer view.
    assert_eq!(b.lex_cmp(&a), std::cmp::Ordering::Less);
    assert_eq!(a.lex_cmp(&b), std::cmp::Ordering::Greater);
}

#[test]
fn default_is_empty() {
    let v: AVec<i32, Heap> = AVec::default();
    assert_eq!(v.len(), 0);
    assert_eq!(v.capacity(), 0);
}
