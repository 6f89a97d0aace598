use unai::context::Context;
use unai::message::{Actor, Message};
use unai::store::{MessageStore, OrderDirection};
use unai::user::User;

fn stored_message(user: &str, text: &str) -> Message {
    Message {
        user: User { id: String::from(user) },
        from: Actor::User,
        text: String::from(text),
        context: Some(Context::new(String::from("ctx"))),
        reply_token: None,
        image: None,
    }
}

fn texts(messages: &[Message]) -> Vec<String> {
    messages.iter().map(|m| m.text.clone()).collect()
}

#[test]
fn empty_store_lists_nothing() {
    let store = MessageStore::new();
    let listed = store.list_by_user_id(String::from("u1"), 10, OrderDirection::Ascending);
    assert!(listed.is_empty());
}

#[test]
fn list_filters_by_user_and_keeps_order() {
    let mut store = MessageStore::new();
    store.save(vec![stored_message("u1", "a"), stored_message("u2", "x")]);
    store.save(vec![stored_message("u1", "b")]);
    store.save(vec![stored_message("u2", "y"), stored_message("u1", "c")]);
    let listed = store.list_by_user_id(String::from("u1"), 10, OrderDirection::Ascending);
    assert_eq!(texts(&listed), vec!["a", "b", "c"]);
    let other = store.list_by_user_id(String::from("u2"), 10, OrderDirection::Ascending);
    assert_eq!(texts(&other), vec!["x", "y"]);
}

#[test]
fn list_keeps_only_the_newest_up_to_limit() {
    let mut store = MessageStore::new();
    store.save(vec![
        stored_message("u1", "one"),
        stored_message("u1", "two"),
        stored_message("u1", "three"),
    ]);
    let listed = store.list_by_user_id(String::from("u1"), 2, OrderDirection::Ascending);
    assert_eq!(texts(&listed), vec!["two", "three"]);
}

#[test]
fn list_descending_is_newest_first() {
    let mut store = MessageStore::new();
    store.save(vec![
        stored_message("u1", "one"),
        stored_message("u1", "two"),
        stored_message("u1", "three"),
    ]);
    let listed = store.list_by_user_id(String::from("u1"), 2, OrderDirection::Descending);
    assert_eq!(texts(&listed), vec!["three", "two"]);
}

#[test]
fn list_twice_without_save_is_identical() {
    let mut store = MessageStore::new();
    store.save(vec![
        stored_message("u1", "one"),
        stored_message("u2", "noise"),
        stored_message("u1", "two"),
    ]);
    let first = store.list_by_user_id(String::from("u1"), 10, OrderDirection::Ascending);
    let second = store.list_by_user_id(String::from("u1"), 10, OrderDirection::Ascending);
    assert_eq!(texts(&first), texts(&second));
    let third = store.list_by_user_id(String::from("u1"), 1, OrderDirection::Descending);
    let fourth = store.list_by_user_id(String::from("u1"), 1, OrderDirection::Descending);
    assert_eq!(texts(&third), texts(&fourth));
}

#[test]
fn zero_limit_lists_nothing() {
    let mut store = MessageStore::new();
    store.save(vec![stored_message("u1", "one")]);
    let listed = store.list_by_user_id(String::from("u1"), 0, OrderDirection::Ascending);
    assert!(listed.is_empty());
}
