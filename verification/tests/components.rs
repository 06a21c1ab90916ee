use peekable_fwd_bwd::BoundedDeque;
use peekable_fwd_bwd::Duplicate;
use peekable_fwd_bwd::Fused;
use peekable_fwd_bwd::Peekable;
use peekable_fwd_bwd::ResumingSource;
use peekable_fwd_bwd::Source;
use peekable_fwd_bwd::VecSource;

#[test]
fn fused_never_resurrects_a_source() {
    let mut fused = Fused::new(ResumingSource::new(41, 99));

    assert_eq!(fused.pull(), Some(41));
    assert_eq!(fused.pull(), None);
    assert_eq!(fused.pull(), None);
    assert_eq!(fused.pull(), None);
}

#[test]
fn resuming_source_really_resumes() {
    let mut src = ResumingSource::new(41, 99);

    assert_eq!(src.pull(), Some(41));
    assert_eq!(src.pull(), None);
    assert_eq!(src.pull(), Some(99));
    assert_eq!(src.pull(), Some(99));
}

#[test]
fn vec_source_produces_front_to_back_then_nothing() {
    let mut src = VecSource::new(vec![4, 5]);

    assert_eq!(src.pull(), Some(4));
    assert_eq!(src.pull(), Some(5));
    assert_eq!(src.pull(), None);
    assert_eq!(src.pull(), None);
}

#[test]
fn adapter_exhaustion_is_stable_on_a_resuming_source() {
    let mut it = Peekable::<ResumingSource<i32>, 4, 4>::new(ResumingSource::new(41, 99));

    assert_eq!(it.next(), Some(41));
    assert_eq!(it.next(), None);
    assert_eq!(it.next(), None);
    assert_eq!(it.peek_fwd(), None);
    assert_eq!(it.peek_bwd(), Some(41));
}

#[test]
fn deque_keeps_front_to_back_order() {
    let mut d = BoundedDeque::<i32, 3>::new();

    assert_eq!(d.len(), 0);
    assert_eq!(d.capacity(), 3);
    d.push_back(1);
    d.push_back(2);
    d.push_front(0);
    assert_eq!(d.len(), 3);
    assert_eq!(d.get(0), Some(&0));
    assert_eq!(d.get(1), Some(&1));
    assert_eq!(d.get(2), Some(&2));
    assert_eq!(d.get(3), None);
    assert_eq!(d.pop_front(), Some(0));
    assert_eq!(d.pop_front(), Some(1));
    assert_eq!(d.pop_front(), Some(2));
    assert_eq!(d.pop_front(), None);
}

#[test]
fn deque_push_front_evicts_the_back_when_full() {
    let mut d = BoundedDeque::<i32, 2>::new();

    d.push_front(1);
    d.push_front(2);
    d.push_front(3);
    assert_eq!(d.len(), 2);
    assert_eq!(d.get(0), Some(&3));
    assert_eq!(d.get(1), Some(&2));
}

#[test]
fn deque_push_back_evicts_the_front_when_full() {
    let mut d = BoundedDeque::<i32, 2>::new();

    d.push_back(1);
    d.push_back(2);
    d.push_back(3);
    assert_eq!(d.len(), 2);
    assert_eq!(d.get(0), Some(&2));
    assert_eq!(d.get(1), Some(&3));
}

#[test]
fn deque_with_zero_capacity_drops_pushes() {
    let mut d = BoundedDeque::<i32, 0>::new();

    d.push_front(1);
    d.push_back(2);
    assert_eq!(d.len(), 0);
    assert_eq!(d.pop_front(), None);
}

#[test]
fn duplicate_returns_an_equal_value() {
    let x: i32 = -7;
    assert_eq!(x.dup(), -7);
    let y: u64 = 12345;
    assert_eq!(y.dup(), 12345);
    let c: char = 'q';
    assert_eq!(c.dup(), 'q');
    assert_eq!(true.dup(), true);
}
