use version_number::parsers::modular::{PeekableSlice, TakeWhilePeekable};

#[test]
fn peek_while() {
    let iterable = &['h', 'e', 'l', 'l', 'o'];
    let mut peekable = PeekableSlice::new(iterable);
    let mut tw_peekable = peekable.take_while_peekable(|c: &char| *c != 'o');
    let mut collected = Vec::new();
    while let Some(c) = tw_peekable.next() {
        collected.push(*c);
    }

    // Taking the hell out of hello ;).
    assert_eq!(collected, vec!['h', 'e', 'l', 'l']);
}

#[test]
fn empty() {
    let iterable = &[] as &[char; 0];
    let mut peekable = PeekableSlice::new(iterable);
    let mut tw_peekable = peekable.take_while_peekable(|c: &char| *c != 'o');

    assert!(tw_peekable.next().is_none());
}

fn f(input: &mut PeekableSlice<'_, char>) -> String {
    let mut taker = input.take_while_peekable(|c: &char| *c != 'o');
    let mut acc = String::new();
    while let Some(next) = taker.next() {
        acc.push(*next);
    }
    acc
}

#[test]
fn restart_without_increment() {
    let iterable = &['h', 'e', 'l', 'l', 'o', 'w', 'o', 'r', 'l', 'd'];
    let mut peekable = PeekableSlice::new(iterable);

    let test1 = f(&mut peekable);
    assert_eq!(test1, "hell".to_string());

    let test2 = f(&mut peekable);
    assert_eq!(test2, "".to_string());
}

#[test]
fn restart_with_manual_increment() {
    let iterable = &['h', 'e', 'l', 'l', 'o', 'w', 'o', 'r', 'l', 'd'];
    let mut peekable = PeekableSlice::new(iterable);

    let test1 = f(&mut peekable);
    assert_eq!(test1, "hell".to_string());

    let test2 = peekable.next_if(|c: &char| *c == 'o');
    assert_eq!(*test2.unwrap(), 'o');

    let test3 = f(&mut peekable);
    assert_eq!(test3, "w".to_string());
}

#[test]
fn reader_hands_out_each_item_once() {
    let items = [1u8, 2, 3];
    let mut reader = PeekableSlice::new(&items);

    assert_eq!(reader.peek(), Some(&1));
    assert_eq!(reader.peek(), Some(&1));
    assert_eq!(reader.next(), Some(&1));
    assert_eq!(reader.next_if(|item: &u8| *item > 2), None);
    assert_eq!(reader.next_if(|item: &u8| *item == 2), Some(&2));

    let mut ahead = reader.clone();
    assert_eq!(ahead.next(), Some(&3));
    assert_eq!(ahead.next(), None);
    assert_eq!(ahead.peek(), None);
    assert_eq!(ahead.next_if(|_: &u8| true), None);

    assert_eq!(reader.peek(), Some(&3));
}
