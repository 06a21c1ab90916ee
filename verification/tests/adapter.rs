use peekable_fwd_bwd::Peekable;
use peekable_fwd_bwd::VecSource;

fn adapter<const BWD: usize, const FWD: usize>(
    items: Vec<i32>,
) -> Peekable<VecSource<i32>, BWD, FWD> {
    Peekable::<VecSource<i32>, BWD, FWD>::new(VecSource::new(items))
}

#[test]
fn test_next() {
    let a = vec![1, 2, 3];
    let mut it = adapter::<4, 4>(a);

    assert_eq!(it.next(), Some(1));
    assert_eq!(it.next(), Some(2));
    assert_eq!(it.next(), Some(3));
    assert_eq!(it.next(), None);
    assert_eq!(it.next(), None);
    assert_eq!(it.next(), None);
}

#[test]
fn test_peek_fwd() {
    let a = vec![1, 2, 3];
    let mut it = adapter::<4, 4>(a);

    assert_eq!(it.peek(), Some(1));
    assert_eq!(it.peek(), Some(1));
    assert_eq!(it.peek_fwd(), Some(1));
    assert_eq!(it.peek_fwd_nth(0), Some(1));
    assert_eq!(it.peek_fwd_nth(1), Some(2));
    assert_eq!(it.peek_fwd_nth(2), Some(3));
    assert_eq!(it.peek_fwd_nth(3), None);
    assert_eq!(it.peek_fwd_nth(4), None);

    assert_eq!(it.next(), Some(1));
    assert_eq!(it.peek(), Some(2));
    assert_eq!(it.peek_fwd_nth(1), Some(3));
}

#[test]
fn test_peek_fwd_lim() {
    let a = vec![1, 2, 3, 4, 5, 6, 7, 8];
    let mut it = adapter::<2, 4>(a);

    assert_eq!(it.peek_fwd_nth(0), Some(1));
    assert_eq!(it.peek_fwd_nth(1), Some(2));
    assert_eq!(it.peek_fwd_nth(2), Some(3));
    assert_eq!(it.peek_fwd_nth(3), Some(4));
    assert_eq!(it.peek_fwd_nth(4), None);
    assert_eq!(it.peek_fwd_nth(5), None);

    assert_eq!(it.next(), Some(1));
    assert_eq!(it.peek_fwd_nth(0), Some(2));
    assert_eq!(it.peek_fwd_nth(1), Some(3));
    assert_eq!(it.peek_fwd_nth(2), Some(4));
    assert_eq!(it.peek_fwd_nth(3), Some(5));
    assert_eq!(it.peek_fwd_nth(4), None);
    assert_eq!(it.peek_fwd_nth(5), None);
}

#[test]
fn test_peek_bwd() {
    let a = vec![1, 2, 3];
    let mut it = adapter::<4, 4>(a);

    assert_eq!(it.peek_bwd(), None);
    assert_eq!(it.peek_bwd_nth(0), None);
    assert_eq!(it.peek_bwd_nth(1), None);

    assert_eq!(it.next(), Some(1));
    assert_eq!(it.peek_bwd(), Some(1));
    assert_eq!(it.peek_bwd_nth(1), None);
    assert_eq!(it.peek_bwd_nth(2), None);

    assert_eq!(it.next(), Some(2));
    assert_eq!(it.peek_bwd(), Some(2));
    assert_eq!(it.peek_bwd_nth(1), Some(1));
    assert_eq!(it.peek_bwd_nth(2), None);
}

#[test]
fn test_peek_bwd_lim() {
    let a = vec![1, 2, 3, 4, 5, 6, 7, 8];
    let mut it = adapter::<2, 4>(a);

    assert_eq!(it.next(), Some(1));
    assert_eq!(it.next(), Some(2));
    assert_eq!(it.next(), Some(3));
    assert_eq!(it.peek_bwd_nth(0), Some(3));
    assert_eq!(it.peek_bwd_nth(1), Some(2));
    assert_eq!(it.peek_bwd_nth(2), None);
    assert_eq!(it.peek_bwd_nth(3), None);
}

#[test]
fn fresh_adapter_has_no_past_but_a_future() {
    let mut it = adapter::<4, 4>(vec![1, 2, 3]);

    assert_eq!(it.peek_bwd(), None);
    assert_eq!(it.peek_fwd(), Some(1));
}

#[test]
fn peek_after_two_advancements() {
    let mut it = adapter::<4, 4>(vec![1, 2, 3]);

    assert_eq!(it.next(), Some(1));
    assert_eq!(it.next(), Some(2));
    assert_eq!(it.peek(), Some(3));
    assert_eq!(it.peek_nth(1), None);
}

#[test]
fn exhaustion_after_consuming_all() {
    let mut it = adapter::<4, 4>(vec![1, 2, 3]);

    assert_eq!(it.next(), Some(1));
    assert_eq!(it.next(), Some(2));
    assert_eq!(it.next(), Some(3));
    assert_eq!(it.next(), None);
    assert_eq!(it.next(), None);
}

#[test]
fn forward_capacity_is_a_hard_ceiling() {
    let mut it = adapter::<4, 4>(vec![1, 2, 3, 4, 5, 6, 7, 8]);

    assert_eq!(it.peek_fwd_nth(3), Some(4));
    assert_eq!(it.peek_fwd_nth(4), None);
}

#[test]
fn backward_capacity_evicts_oldest() {
    let mut it = adapter::<2, 4>(vec![1, 2, 3, 4, 5, 6, 7, 8]);

    assert_eq!(it.next(), Some(1));
    assert_eq!(it.next(), Some(2));
    assert_eq!(it.next(), Some(3));
    assert_eq!(it.peek_bwd_nth(0), Some(3));
    assert_eq!(it.peek_bwd_nth(1), Some(2));
    assert_eq!(it.peek_bwd_nth(2), None);
}

#[test]
fn forward_peek_is_idempotent() {
    let mut it = adapter::<2, 4>(vec![7, 8, 9]);

    assert_eq!(it.peek_fwd_nth(2), it.peek_fwd_nth(2));
    assert_eq!(it.peek_fwd_nth(2), Some(9));
    assert_eq!(it.peek_fwd_nth(3), it.peek_fwd_nth(3));
    assert_eq!(it.peek_fwd_nth(3), None);
}

#[test]
fn backward_peek_is_idempotent() {
    let mut it = adapter::<4, 4>(vec![7, 8, 9]);

    assert_eq!(it.next(), Some(7));
    assert_eq!(it.next(), Some(8));
    assert_eq!(it.peek_bwd_nth(0), it.peek_bwd_nth(0));
    assert_eq!(it.peek_bwd_nth(0), Some(8));
    assert_eq!(it.peek_bwd_nth(1), it.peek_bwd_nth(1));
    assert_eq!(it.peek_bwd_nth(1), Some(7));
    assert_eq!(it.peek_bwd_nth(2), it.peek_bwd_nth(2));
    assert_eq!(it.peek_bwd_nth(2), None);
}

#[test]
fn peeked_value_comes_out_of_advancement() {
    let mut it = adapter::<2, 4>(vec![10, 20, 30, 40]);

    let peeked = it.peek_fwd_nth(2);
    assert_eq!(peeked, Some(30));
    assert_eq!(it.next(), Some(10));
    assert_eq!(it.next(), Some(20));
    assert_eq!(it.next(), peeked);
}

#[test]
fn history_is_ordered_most_recent_first() {
    let mut it = adapter::<4, 4>(vec![11, 22, 33]);

    assert_eq!(it.next(), Some(11));
    assert_eq!(it.next(), Some(22));
    assert_eq!(it.next(), Some(33));
    assert_eq!(it.peek_bwd_nth(0), Some(33));
    assert_eq!(it.peek_bwd_nth(1), Some(22));
    assert_eq!(it.peek_bwd_nth(2), Some(11));
}

#[test]
fn zero_forward_capacity_never_peeks() {
    let mut it = adapter::<4, 0>(vec![1, 2, 3]);

    assert_eq!(it.peek_fwd(), None);
    assert_eq!(it.peek_fwd_nth(0), None);
    assert_eq!(it.next(), Some(1));
    assert_eq!(it.peek_fwd(), None);
}

#[test]
fn zero_backward_capacity_keeps_no_history() {
    let mut it = adapter::<0, 4>(vec![1, 2, 3]);

    assert_eq!(it.next(), Some(1));
    assert_eq!(it.peek_bwd(), None);
    assert_eq!(it.peek_bwd_nth(0), None);
}

#[test]
fn empty_source_is_unavailable_everywhere() {
    let mut it = adapter::<4, 4>(vec![]);

    assert_eq!(it.peek_fwd(), None);
    assert_eq!(it.peek_bwd(), None);
    assert_eq!(it.next(), None);
    assert_eq!(it.next(), None);
}

#[test]
fn history_survives_exhaustion() {
    let mut it = adapter::<4, 4>(vec![5, 6]);

    assert_eq!(it.next(), Some(5));
    assert_eq!(it.next(), Some(6));
    assert_eq!(it.next(), None);
    assert_eq!(it.peek_bwd_nth(0), Some(6));
    assert_eq!(it.peek_bwd_nth(1), Some(5));
}
