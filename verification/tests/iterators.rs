use lazy_list::linked_list::List;
use std::cell::Cell;
use std::cell::RefCell;

fn reversed(items: &[i32]) -> Vec<i32> {
    items.iter().rev().copied().collect()
}

#[test]
fn owning_iterator_hands_out_the_reversed_input() {
    for items in [vec![], vec![1], vec![1, 2, 3]] {
        let seen: Vec<i32> = List::new(items.clone()).into_iter().collect();
        assert_eq!(seen, reversed(&items));
    }
}

#[test]
fn borrowing_iterator_hands_out_the_reversed_input() {
    for items in [vec![], vec![1], vec![1, 2, 3]] {
        let list = List::new(items.clone());
        let seen: Vec<i32> = list.iter().copied().collect();
        assert_eq!(seen, reversed(&items));
    }
}

#[test]
fn owning_iterator_steps_one_node_at_a_time() {
    let mut it = List::new(vec![1, 2]).into_iter();
    assert_eq!(it.next(), Some(2));
    assert_eq!(it.next(), Some(1));
    assert_eq!(it.next(), None);
    assert_eq!(it.next(), None);
}

#[test]
fn borrowing_iterator_steps_one_node_at_a_time() {
    let list = List::new(vec![1, 2]);
    let mut it = list.iter();
    assert_eq!(it.next(), Some(&2));
    assert_eq!(it.next(), Some(&1));
    assert_eq!(it.next(), None);
    assert_eq!(it.next(), None);
}

#[test]
fn borrowing_walk_leaves_the_list_as_it_was() {
    let list = List::new(vec![1, 2, 3]);
    let first: Vec<i32> = list.iter().copied().collect();
    let second: Vec<i32> = list.iter().copied().collect();
    assert_eq!(first, vec![3, 2, 1]);
    assert_eq!(second, first);
    let owned: Vec<i32> = list.into_iter().collect();
    assert_eq!(owned, first);
}

#[test]
fn borrowing_walks_can_run_side_by_side() {
    let list = List::new(vec![1, 2, 3]);
    let mut a = list.iter();
    let mut b = list.iter();
    assert_eq!(a.next(), Some(&3));
    assert_eq!(a.next(), Some(&2));
    assert_eq!(b.next(), Some(&3));
    assert_eq!(a.next(), Some(&1));
    assert_eq!(b.next(), Some(&2));
}

#[test]
fn a_reference_to_a_list_can_be_looped_over() {
    let list = List::new(vec![1, 2, 3]);
    let mut sum = 0;
    for value in &list {
        sum += *value;
    }
    assert_eq!(sum, 6);
    let mut folded = 0;
    for value in list {
        folded = folded * 10 + value;
    }
    assert_eq!(folded, 321);
}

#[test]
fn fold_over_a_walk_is_the_fold_over_the_reversed_input() {
    let items = vec![1, 2, 3];
    let expected = reversed(&items).iter().fold(0, |acc, v| acc * 10 + v);
    let owned = List::new(items.clone()).into_iter().fold(0, |acc, v| acc * 10 + v);
    let list = List::new(items);
    let borrowed = list.iter().fold(0, |acc, v| acc * 10 + v);
    assert_eq!(expected, 321);
    assert_eq!(owned, expected);
    assert_eq!(borrowed, expected);
}

#[test]
fn hinted_owning_iterator_hands_out_what_the_plain_one_does() {
    for items in [vec![], vec![1], vec![1, 2, 3]] {
        let seen: Vec<i32> = List::new(items.clone()).into_iter_prefetch(|_: &List<i32>| ()).collect();
        assert_eq!(seen, reversed(&items));
    }
}

#[test]
fn hinted_borrowing_iterator_hands_out_what_the_plain_one_does() {
    for items in [vec![], vec![1], vec![1, 2, 3]] {
        let list = List::new(items.clone());
        let seen: Vec<i32> = list.iter_prefetch(|_: &List<i32>| ()).copied().collect();
        assert_eq!(seen, reversed(&items));
    }
}

#[test]
fn hint_is_given_the_node_after_the_new_position() {
    let hinted: RefCell<Vec<Vec<i32>>> = RefCell::new(Vec::new());
    let list = List::new(vec![1, 2, 3, 4]);
    let mut it = list.iter_prefetch(|node: &List<i32>| {
        hinted.borrow_mut().push(node.iter().copied().collect());
    });
    assert_eq!(it.next(), Some(&4));
    assert_eq!(*hinted.borrow(), vec![vec![2, 1]]);
    assert_eq!(it.next(), Some(&3));
    assert_eq!(*hinted.borrow(), vec![vec![2, 1], vec![1]]);
    assert_eq!(it.next(), Some(&2));
    assert_eq!(*hinted.borrow(), vec![vec![2, 1], vec![1], vec![]]);
    assert_eq!(it.next(), Some(&1));
    assert_eq!(hinted.borrow().len(), 3);
    assert_eq!(it.next(), None);
    assert_eq!(hinted.borrow().len(), 3);
}

#[test]
fn hint_is_never_given_at_the_end_of_the_list() {
    let calls = Cell::new(0usize);
    let count = |_: &List<i32>| calls.set(calls.get() + 1);
    let mut it = List::new(vec![1]).into_iter_prefetch(&count);
    assert_eq!(it.next(), Some(1));
    assert_eq!(it.next(), None);
    assert_eq!(calls.get(), 0);
    let mut none = List::<i32>::new(vec![]).into_iter_prefetch(&count);
    assert_eq!(none.next(), None);
    assert_eq!(calls.get(), 0);
    let seen: Vec<i32> = List::new(vec![1, 2, 3, 4, 5]).into_iter_prefetch(&count).collect();
    assert_eq!(seen, vec![5, 4, 3, 2, 1]);
    assert_eq!(calls.get(), 4);
}
