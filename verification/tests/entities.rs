use lestinia_common::comp::uid::{Uid, UidAllocator};
use lestinia_common::hud::chat::Chat;

#[test]
fn a_uid_is_its_number() {
    let uid = Uid(42);
    assert_eq!(uid.id(), 42);
    assert_eq!(u64::from(uid), 42);
    let n: u64 = Uid(7).into();
    assert_eq!(n, 7);
    assert_eq!(uid, Uid(42));
    assert_ne!(uid, Uid(43));
}

#[test]
fn a_uid_prints_in_decimal() {
    assert_eq!(Uid(0).to_string(), "0");
    assert_eq!(Uid(1337).to_string(), "1337");
    assert_eq!(Uid(u64::MAX).to_string(), "18446744073709551615");
}

#[test]
fn an_update_with_the_same_number_changes_nothing() {
    let mut uid = Uid(5);
    uid.update(Uid(5));
    assert_eq!(uid, Uid(5));
}

#[test]
fn identifiers_rise_from_zero() {
    let mut allocator = UidAllocator::<char>::new();
    assert!(allocator.has_next());
    assert_eq!(allocator.allocate('a', None), Uid(0));
    assert_eq!(allocator.allocate('b', None), Uid(1));
    assert_eq!(allocator.allocate('c', None), Uid(2));
    assert_eq!(allocator.retrieve_entity_internal(0), Some('a'));
    assert_eq!(allocator.retrieve_entity_internal(1), Some('b'));
    assert_eq!(allocator.retrieve_entity_internal(2), Some('c'));
    assert_eq!(allocator.retrieve_entity_internal(3), None);
}

#[test]
fn a_wished_identifier_is_taken_as_it_is() {
    let mut allocator = UidAllocator::<char>::new();
    assert_eq!(allocator.allocate('x', Some(900)), Uid(900));
    assert_eq!(allocator.allocate('y', None), Uid(0));
    assert_eq!(allocator.allocate('z', Some(0)), Uid(0));
    assert_eq!(allocator.retrieve_entity_internal(900), Some('x'));
    assert_eq!(allocator.retrieve_entity_internal(0), Some('z'));
    assert_eq!(allocator.allocate('w', None), Uid(1));
}

#[test]
fn maintain_learns_the_mapping_anew() {
    let mut allocator = UidAllocator::<char>::new();
    allocator.allocate('a', None);
    allocator.allocate('b', None);
    allocator.maintain(&vec![(1, 'B'), (7, 'h'), (7, 'H')]);
    assert_eq!(allocator.retrieve_entity_internal(0), None);
    assert_eq!(allocator.retrieve_entity_internal(1), Some('B'));
    assert_eq!(allocator.retrieve_entity_internal(7), Some('H'));
    assert_eq!(allocator.allocate('c', None), Uid(2));
}

#[test]
fn a_chat_starts_empty() {
    let mut chat = Chat::new();
    assert_eq!(chat.len(), 0);
    assert!(!chat.take_new_messages());
}

#[test]
fn new_messages_are_shown_below_the_old_ones() {
    let mut chat = Chat::new();
    chat.new_message(String::from("first"));
    chat.new_message(String::from("second"));
    assert_eq!(chat.len(), 2);
    assert_eq!(chat.message(0), "first");
    assert_eq!(chat.message(1), "second");
    assert!(chat.take_new_messages());
    assert!(!chat.take_new_messages());
    chat.new_message(String::from("third"));
    assert!(chat.take_new_messages());
    assert_eq!(chat.message(2), "third");
}

#[test]
fn line_breaks_are_taken_out_of_the_input() {
    let mut chat = Chat::new();
    chat.set_input(String::from("one\ntwo\n\nthree\n"));
    assert_eq!(chat.submit(), "onetwothree");
    chat.set_input(String::from("\n"));
    assert_eq!(chat.submit(), "");
    chat.set_input(String::from("no break"));
    assert_eq!(chat.submit(), "no break");
}

#[test]
fn submit_sends_the_line_and_empties_it() {
    let mut chat = Chat::new();
    chat.set_input(String::from("hello"));
    assert_eq!(chat.submit(), "hello");
    assert_eq!(chat.len(), 1);
    assert_eq!(chat.message(0), "hello");
    assert!(chat.take_new_messages());
    assert_eq!(chat.submit(), "");
    assert_eq!(chat.len(), 2);
    assert_eq!(chat.message(1), "");
}
