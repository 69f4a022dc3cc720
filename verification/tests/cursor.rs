use const_list::ConstList;

#[test]
fn count_agrees_with_len() {
    let l0: ConstList<i32> = ConstList::new();
    let l1 = l0.push(10);
    let l2 = l1.push(20);
    let l3 = l2.push(30);
    assert_eq!(l0.iter().count(), l0.len());
    assert_eq!(l1.iter().count(), l1.len());
    assert_eq!(l2.iter().count(), l2.len());
    assert_eq!(l3.iter().count(), l3.len());
    assert_eq!(l3.iter().count(), 3);
}

#[test]
fn iteration_agrees_with_get() {
    let empty: ConstList<i32> = ConstList::new();
    let a = empty.push(2);
    let b = a.push(4);
    let list = b.push(8);

    let mut it = list.iter();
    let mut i: usize = 0;
    while let Some(element) = it.next() {
        assert_eq!(list.get(i), Some(element));
        i += 1;
    }
    assert_eq!(i, list.len());
    assert_eq!(list.get(i), None);
}

#[test]
fn exhausted_cursor_keeps_yielding_none() {
    let empty: ConstList<i32> = ConstList::new();
    let one = empty.push(1);
    let mut it = one.iter();
    assert_eq!(it.next(), Some(&1));
    assert_eq!(it.next(), None);
    assert_eq!(it.next(), None);
    assert_eq!(it.next(), None);
}

#[test]
fn fresh_cursor_replays_the_same_sequence() {
    let empty: ConstList<i32> = ConstList::new();
    let a = empty.push(5);
    let list = a.push(6);

    let mut first_pass = Vec::new();
    let mut it = list.iter();
    while let Some(element) = it.next() {
        first_pass.push(*element);
    }

    let mut second_pass = Vec::new();
    let mut it = list.iter();
    while let Some(element) = it.next() {
        second_pass.push(*element);
    }

    assert_eq!(first_pass, vec![6, 5]);
    assert_eq!(first_pass, second_pass);
}

#[test]
fn cursor_ignores_later_pushes_elsewhere() {
    let empty: ConstList<i32> = ConstList::new();
    let base = empty.push(1);
    let mut it = base.iter();
    let _longer = base.push(2);
    assert_eq!(it.next(), Some(&1));
    assert_eq!(it.next(), None);
}
