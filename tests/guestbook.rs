use guestbook::{GuestbookContract, GuestbookError, Message};
use soroban_sdk::{Address, Env, IntoVal, String, TryFromVal, Val, Vec};

const ALICE: &str = "GA3D5KRYM6CB7OWQ6TWYRR3Z4T7GNZLKERYNZGGA5SOAOPIFY6YQHES5";
const BOB: &str = "GAAAAAAAAAAAAAAAAAAAAAAAAAAAAAAAAAAAAAAAAAAAAAAAAAAAAWHF";

fn text(env: &Env, s: &str) -> String {
    String::from_str(env, s)
}

fn assert_entry(m: &Message, user: &Address, content: &String) {
    assert!(m.user == *user);
    assert!(m.content == *content);
}

#[test]
fn test_add_message() {
    let env = Env::default();
    let mut book = GuestbookContract::new(&env);
    let user = Address::from_str(&env, ALICE);
    book.add_message(user, text(&env, "Hello Stellar"), true).unwrap();

    let messages = book.get_messages();
    assert_eq!(messages.len(), 1);
}

#[test]
fn fresh_guestbook_is_empty() {
    let env = Env::default();
    let book = GuestbookContract::new(&env);
    assert_eq!(book.get_messages().len(), 0);
    assert_eq!(book.get_total_messages(), 0);
}

#[test]
fn one_authorized_message() {
    let env = Env::default();
    let alice = Address::from_str(&env, ALICE);
    let mut book = GuestbookContract::new(&env);
    assert_eq!(book.add_message(alice.clone(), text(&env, "Hello Stellar"), true), Ok(()));

    let messages = book.get_messages();
    assert_eq!(messages.len(), 1);
    assert_entry(&messages[0], &alice, &text(&env, "Hello Stellar"));
    assert_eq!(book.get_total_messages(), 1);
}

#[test]
fn two_authorized_messages_in_order() {
    let env = Env::default();
    let alice = Address::from_str(&env, ALICE);
    let bob = Address::from_str(&env, BOB);
    let mut book = GuestbookContract::new(&env);
    book.add_message(alice.clone(), text(&env, "Hello Stellar"), true).unwrap();
    book.add_message(bob.clone(), text(&env, "Hi"), true).unwrap();

    let messages = book.get_messages();
    assert_eq!(messages.len(), 2);
    assert_entry(&messages[0], &alice, &text(&env, "Hello Stellar"));
    assert_entry(&messages[1], &bob, &text(&env, "Hi"));
    assert_eq!(book.get_total_messages(), 2);
}

#[test]
fn unauthorized_message_is_refused() {
    let env = Env::default();
    let alice = Address::from_str(&env, ALICE);
    let mut book = GuestbookContract::new(&env);
    let r = book.add_message(alice, text(&env, "X"), false);
    assert_eq!(r, Err(GuestbookError::Unauthorized));
    assert_eq!(book.get_messages().len(), 0);
    assert_eq!(book.get_total_messages(), 0);
}

#[test]
fn unauthorized_message_leaves_log_unchanged() {
    let env = Env::default();
    let alice = Address::from_str(&env, ALICE);
    let bob = Address::from_str(&env, BOB);
    let mut book = GuestbookContract::new(&env);
    book.add_message(alice.clone(), text(&env, "first"), true).unwrap();
    let r = book.add_message(bob, text(&env, "second"), false);
    assert_eq!(r, Err(GuestbookError::Unauthorized));

    let messages = book.get_messages();
    assert_eq!(messages.len(), 1);
    assert_entry(&messages[0], &alice, &text(&env, "first"));
}

#[test]
fn history_is_exact_with_repeats() {
    let env = Env::default();
    let alice = Address::from_str(&env, ALICE);
    let bob = Address::from_str(&env, BOB);
    let calls = [
        (&alice, "a"),
        (&bob, "b"),
        (&alice, "a"),
        (&alice, "c"),
    ];
    let mut book = GuestbookContract::new(&env);
    for (user, content) in calls.iter() {
        book.add_message((*user).clone(), text(&env, content), true).unwrap();
    }

    let messages = book.get_messages();
    assert_eq!(messages.len(), calls.len());
    for (m, (user, content)) in messages.iter().zip(calls.iter()) {
        assert_entry(m, user, &text(&env, content));
    }
}

#[test]
fn total_matches_length_of_messages() {
    let env = Env::default();
    let alice = Address::from_str(&env, ALICE);
    let mut book = GuestbookContract::new(&env);
    for i in 0..5u32 {
        assert_eq!(book.get_total_messages() as usize, book.get_messages().len());
        assert_eq!(book.get_total_messages(), i);
        book.add_message(alice.clone(), text(&env, "again"), true).unwrap();
    }
    assert_eq!(book.get_total_messages(), 5);
    assert_eq!(book.get_messages().len(), 5);
}

#[test]
fn later_additions_keep_earlier_entries() {
    let env = Env::default();
    let alice = Address::from_str(&env, ALICE);
    let bob = Address::from_str(&env, BOB);
    let mut book = GuestbookContract::new(&env);
    book.add_message(alice.clone(), text(&env, "one"), true).unwrap();
    book.add_message(bob.clone(), text(&env, "two"), true).unwrap();
    book.add_message(bob.clone(), text(&env, "three"), true).unwrap();

    let messages = book.get_messages();
    assert_eq!(messages.len(), 3);
    assert_entry(&messages[0], &alice, &text(&env, "one"));
    assert_entry(&messages[1], &bob, &text(&env, "two"));
    assert_entry(&messages[2], &bob, &text(&env, "three"));
}

#[test]
fn stored_log_is_continued() {
    let env = Env::default();
    let alice = Address::from_str(&env, ALICE);
    let bob = Address::from_str(&env, BOB);
    let mut users: Vec<Address> = Vec::new(&env);
    let mut contents: Vec<String> = Vec::new(&env);
    users.push_back(alice.clone());
    contents.push_back(text(&env, "stored"));
    let mut book = GuestbookContract::restore(&env, Some((users, contents))).unwrap();
    assert_eq!(book.get_total_messages(), 1);
    book.add_message(bob.clone(), text(&env, "new"), true).unwrap();

    let messages = book.get_messages();
    assert_eq!(messages.len(), 2);
    assert_entry(&messages[0], &alice, &text(&env, "stored"));
    assert_entry(&messages[1], &bob, &text(&env, "new"));
}

#[test]
fn stored_form_follows_the_log() {
    let env = Env::default();
    let alice = Address::from_str(&env, ALICE);
    let bob = Address::from_str(&env, BOB);
    let mut book = GuestbookContract::new(&env);
    book.add_message(alice.clone(), text(&env, "one"), true).unwrap();
    book.add_message(bob.clone(), text(&env, "two"), true).unwrap();

    let (users, contents) = book.stored();
    assert_eq!(users.len(), 2);
    assert_eq!(contents.len(), 2);
    assert!(users.get(0).unwrap() == alice && contents.get(0).unwrap() == text(&env, "one"));
    assert!(users.get(1).unwrap() == bob && contents.get(1).unwrap() == text(&env, "two"));

    let reloaded = GuestbookContract::restore(&env, Some((users.clone(), contents.clone()))).unwrap();
    let messages = reloaded.get_messages();
    assert_eq!(messages.len(), 2);
    assert_entry(&messages[0], &alice, &text(&env, "one"));
    assert_entry(&messages[1], &bob, &text(&env, "two"));
}

#[test]
fn never_written_log_is_empty() {
    let env = Env::default();
    let book = GuestbookContract::restore(&env, None).unwrap();
    assert_eq!(book.get_messages().len(), 0);
    assert_eq!(book.get_total_messages(), 0);
}

#[test]
fn stored_log_of_unequal_halves_is_refused() {
    let env = Env::default();
    let mut users: Vec<Address> = Vec::new(&env);
    users.push_back(Address::from_str(&env, ALICE));
    let contents: Vec<String> = Vec::new(&env);
    let r = GuestbookContract::restore(&env, Some((users, contents)));
    assert!(matches!(r, Err(GuestbookError::MalformedLog)));
}

#[test]
fn stored_log_with_foreign_item_is_refused() {
    let env = Env::default();
    let mut vals: Vec<Val> = Vec::new(&env);
    vals.push_back(text(&env, "not an address").into_val(&env));
    let users: Vec<Address> = Vec::try_from_val(&env, &&vals).unwrap();
    let mut contents: Vec<String> = Vec::new(&env);
    contents.push_back(text(&env, "text"));
    let r = GuestbookContract::restore(&env, Some((users, contents)));
    assert!(matches!(r, Err(GuestbookError::MalformedLog)));
}

#[test]
fn mixed_run_keeps_earlier_reads_as_prefix() {
    let env = Env::default();
    let alice = Address::from_str(&env, ALICE);
    let bob = Address::from_str(&env, BOB);
    let mut book = GuestbookContract::new(&env);
    book.add_message(alice.clone(), text(&env, "one"), true).unwrap();
    let earlier = book.get_messages();

    let calls = [(&bob, "two", false), (&bob, "three", true), (&alice, "four", false)];
    for (user, content, authorized) in calls.iter() {
        let r = book.add_message((*user).clone(), text(&env, content), *authorized);
        assert_eq!(r.is_ok(), *authorized);
    }

    let later = book.get_messages();
    assert_eq!(later.len(), 2);
    for (m, e) in later.iter().zip(earlier.iter()) {
        assert_entry(m, &e.user, &e.content);
    }
    assert_entry(&later[1], &bob, &text(&env, "three"));
}
