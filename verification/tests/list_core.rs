use lazy_list::linked_list::List;

fn drained(list: List<i32>) -> Vec<i32> {
    list.into_iter().collect()
}

#[test]
fn new_puts_the_last_item_at_the_head() {
    assert_eq!(drained(List::new(vec![1, 2, 3])), vec![3, 2, 1]);
}

#[test]
fn new_of_nothing_is_the_empty_list() {
    let list: List<i32> = List::new(vec![]);
    assert!(list.is_nil());
    assert!(matches!(list, List::Nil));
    assert_eq!(drained(list), Vec::<i32>::new());
}

#[test]
fn new_of_one_item_is_one_node() {
    let list = List::new(vec![7]);
    assert!(!list.is_nil());
    match list {
        List::Cons(head, tail) => {
            assert_eq!(head, 7);
            assert!(tail.is_nil());
        }
        List::Nil => panic!("one item was given"),
    }
}

#[test]
fn is_nil_tells_the_two_variants_apart() {
    assert!(List::<u8>::Nil.is_nil());
    assert!(!List::Cons(1u8, Box::new(List::Nil)).is_nil());
}

#[test]
fn clear_empties_the_list() {
    let mut list = List::new(vec![1, 2, 3]);
    list.clear();
    assert!(list.is_nil());
    assert_eq!(drained(list), Vec::<i32>::new());
}

#[test]
fn clear_twice_is_clear_once() {
    let mut list = List::new(vec![4, 5]);
    list.clear();
    list.clear();
    assert!(list.is_nil());
}

#[test]
fn clear_of_the_empty_list_changes_nothing() {
    let mut list: List<i32> = List::Nil;
    list.clear();
    assert!(list.is_nil());
}

#[test]
fn clear_unlinks_a_million_nodes() {
    let items: Vec<u32> = (0..1_000_000).collect();
    let mut list = List::new(items);
    assert!(!list.is_nil());
    list.clear();
    assert!(list.is_nil());
}

#[test]
fn a_list_can_be_built_again_after_clear() {
    let mut list = List::new(vec![1]);
    list.clear();
    list = List::Cons(9, Box::new(list));
    assert_eq!(drained(list), vec![9]);
}

#[test]
fn clone_keeps_the_values_and_their_order() {
    let list = List::new(vec![String::from("a"), String::from("b"), String::from("c")]);
    let copy = list.clone();
    let seen: Vec<String> = copy.into_iter().collect();
    assert_eq!(seen, vec!["c", "b", "a"]);
    let kept: Vec<&String> = list.iter().collect();
    assert_eq!(kept, vec!["c", "b", "a"]);
    assert!(List::<u8>::Nil.clone().is_nil());
}

#[test]
fn clone_of_a_long_list_needs_no_deep_calls() {
    let mut list = List::new((0..1_000_000).collect::<Vec<u32>>());
    let mut copy = list.clone();
    assert_eq!(copy.iter().next(), Some(&999_999));
    copy.clear();
    list.clear();
}
