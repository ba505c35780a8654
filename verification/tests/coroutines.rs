use lazy_list::generator::GenIter;
use lazy_list::generator::GeneratorState;
use lazy_list::linked_list::List;
use std::cell::Cell;
use std::cell::RefCell;

fn run<T, G: GenIter<T>>(mut gen: G) -> (Vec<T>, Option<T>) {
    let mut yielded = Vec::new();
    while gen.can_resume() {
        match gen.resume() {
            GeneratorState::Yielded(value) => yielded.push(value),
            GeneratorState::Complete(value) => {
                assert!(!gen.can_resume());
                return (yielded, Some(value));
            }
        }
    }
    (yielded, None)
}

#[test]
fn owning_coroutine_yields_all_but_the_last_and_completes_with_it() {
    let mut gen = List::new(vec![1, 2, 3]).into_generator();
    assert_eq!(gen.resume(), GeneratorState::Yielded(3));
    assert_eq!(gen.resume(), GeneratorState::Yielded(2));
    assert!(gen.can_resume());
    assert_eq!(gen.resume(), GeneratorState::Complete(1));
    assert!(!gen.can_resume());
}

#[test]
fn borrowing_coroutine_yields_all_but_the_last_and_completes_with_it() {
    let list = List::new(vec![1, 2, 3]);
    let mut gen = list.generator();
    assert_eq!(gen.resume(), GeneratorState::Yielded(&3));
    assert_eq!(gen.resume(), GeneratorState::Yielded(&2));
    assert!(gen.can_resume());
    assert_eq!(gen.resume(), GeneratorState::Complete(&1));
    assert!(!gen.can_resume());
    let again: Vec<i32> = list.iter().copied().collect();
    assert_eq!(again, vec![3, 2, 1]);
}

#[test]
fn coroutine_over_one_value_completes_at_once() {
    let mut gen = List::new(vec![5]).into_generator();
    assert!(gen.can_resume());
    assert_eq!(gen.resume(), GeneratorState::Complete(5));
    assert!(!gen.can_resume());
    let list = List::new(vec![5]);
    assert_eq!(run(list.generator()), (vec![], Some(&5)));
}

#[test]
fn coroutine_over_the_empty_list_cannot_be_resumed() {
    let list: List<i32> = List::new(vec![]);
    assert!(!list.generator().can_resume());
    assert!(!list.generator_prefetch(|_: &List<i32>| ()).can_resume());
    assert!(!List::<i32>::new(vec![]).into_generator().can_resume());
    assert!(!List::<i32>::new(vec![]).into_generator_prefetch(|_: &List<i32>| ()).can_resume());
}

#[test]
fn finished_coroutine_cannot_be_resumed() {
    let list = List::new(vec![1, 2]);
    let mut plain = list.generator();
    let mut hinted = list.generator_prefetch(|_: &List<i32>| ());
    assert_eq!(plain.resume(), GeneratorState::Yielded(&2));
    assert_eq!(hinted.resume(), GeneratorState::Yielded(&2));
    assert_eq!(plain.resume(), GeneratorState::Complete(&1));
    assert_eq!(hinted.resume(), GeneratorState::Complete(&1));
    assert!(!plain.can_resume());
    assert!(!hinted.can_resume());
}

#[test]
fn coroutines_deliver_the_reversed_input() {
    for items in [vec![1], vec![1, 2, 3], vec![4, 5, 6, 7, 8]] {
        let mut expected: Vec<i32> = items.iter().rev().copied().collect();
        let last = expected.pop();
        assert_eq!(run(List::new(items.clone()).into_generator()), (expected.clone(), last));
        let hinted = List::new(items.clone()).into_generator_prefetch(|_: &List<i32>| ());
        assert_eq!(run(hinted), (expected.clone(), last));
        let list = List::new(items);
        let by_ref = run(list.generator());
        assert_eq!(by_ref.0, expected.iter().collect::<Vec<&i32>>());
        assert_eq!(by_ref.1, last.as_ref());
        let by_ref_hinted = run(list.generator_prefetch(|_: &List<i32>| ()));
        assert_eq!(by_ref_hinted, by_ref);
    }
}

#[test]
fn fold_over_a_coroutine_counts_the_final_value_in() {
    let items = vec![1, 2, 3];
    let expected = items.iter().rev().fold(0, |acc, v| acc * 10 + v);
    let (yielded, last) = run(List::new(items).into_generator());
    let folded = yielded.iter().chain(last.iter()).fold(0, |acc, v| acc * 10 + v);
    assert_eq!(expected, 321);
    assert_eq!(folded, expected);
}

#[test]
fn hint_is_given_on_every_resumption_but_the_final_one() {
    let calls = Cell::new(0usize);
    let count = |_: &List<i32>| calls.set(calls.get() + 1);
    let mut gen = List::new(vec![1, 2, 3]).into_generator_prefetch(&count);
    assert_eq!(gen.resume(), GeneratorState::Yielded(3));
    assert_eq!(calls.get(), 1);
    assert_eq!(gen.resume(), GeneratorState::Yielded(2));
    assert_eq!(calls.get(), 2);
    assert_eq!(gen.resume(), GeneratorState::Complete(1));
    assert_eq!(calls.get(), 2);
    let mut single = List::new(vec![1]).into_generator_prefetch(&count);
    assert_eq!(single.resume(), GeneratorState::Complete(1));
    assert_eq!(calls.get(), 2);
}

#[test]
fn coroutine_hint_is_given_the_node_after_the_new_position() {
    let hinted: RefCell<Vec<Vec<i32>>> = RefCell::new(Vec::new());
    let list = List::new(vec![1, 2, 3]);
    let mut gen = list.generator_prefetch(|node: &List<i32>| {
        hinted.borrow_mut().push(node.iter().copied().collect());
    });
    assert_eq!(gen.resume(), GeneratorState::Yielded(&3));
    assert_eq!(*hinted.borrow(), vec![vec![1]]);
    assert_eq!(gen.resume(), GeneratorState::Yielded(&2));
    assert_eq!(*hinted.borrow(), vec![vec![1], vec![]]);
    assert_eq!(gen.resume(), GeneratorState::Complete(&1));
    assert_eq!(hinted.borrow().len(), 2);
}
