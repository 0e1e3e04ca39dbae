use msgserver::message::{Message, MessageStore, SECONDS_PER_HOUR};
use msgserver::user::{User, UserStore};

const LIFESPAN_HOURS: i64 = 24;

#[test]
fn test_get_all_messages() {
    let mut store = MessageStore::new();
    let messages = Message::get_all(&store);
    assert!(messages.is_empty());

    Message::create(&mut store, 1, 2, "text", "Hello, World!", LIFESPAN_HOURS);
    let messages = Message::get_all(&store);
    assert_eq!(messages.len(), 1);
    assert_eq!(messages[0].content, "Hello, World!");
}

#[test]
fn test_get_messages_by_sender_receiver() {
    let mut store = MessageStore::new();
    Message::create(&mut store, 1, 2, "text", "Hello from 1 to 2", LIFESPAN_HOURS);
    Message::create(&mut store, 2, 1, "text", "Hello from 2 to 1", LIFESPAN_HOURS);

    let messages = Message::get_by_sender_receiver(&store, 1, 2);
    assert_eq!(messages.len(), 2);
    assert!(messages.iter().any(|m| m.content == "Hello from 1 to 2"));
    assert!(messages.iter().any(|m| m.content == "Hello from 2 to 1"));
}

#[test]
fn test_create_message() {
    let mut store = MessageStore::new();
    let new_message = Message::create(&mut store, 1, 2, "text", "Hello, World!", LIFESPAN_HOURS);
    assert_eq!(new_message.content, "Hello, World!");
    assert_eq!(new_message.sender, 1);
    assert_eq!(new_message.receiver, 2);
}

#[test]
fn test_get_all_users() {
    let mut store = UserStore::new();
    let users = User::get_all(&store);
    assert!(users.is_empty());

    User::create(&mut store, "test_user", "password");
    let users = User::get_all(&store);
    assert_eq!(users.len(), 1);
    assert_eq!(users[0].username, "test_user");
}

#[test]
fn test_get_user_by_id() {
    let mut store = UserStore::new();
    let new_user = User::create(&mut store, "test_user", "password");
    let user = User::get_by_id(&store, new_user.user_id);
    assert!(user.is_some());
    assert_eq!(user.unwrap().username, "test_user");
}

#[test]
fn test_create_user() {
    let mut store = UserStore::new();
    let new_user = User::create(&mut store, "test_user", "password");
    assert_eq!(new_user.username, "test_user");
    assert_eq!(new_user.status, true);
}

#[test]
fn test_update_user_status() {
    let mut store = UserStore::new();
    let new_user = User::create(&mut store, "test_user", "password");
    let updated = User::update_status(&mut store, new_user.user_id, false);
    assert!(updated);

    let user = User::get_by_id(&store, new_user.user_id).unwrap();
    assert_eq!(user.status, false);
}

#[test]
fn test_delete_user() {
    let mut store = UserStore::new();
    let new_user = User::create(&mut store, "test_user", "password");
    let deleted = User::delete(&mut store, new_user.user_id);
    assert!(deleted);

    let user = User::get_by_id(&store, new_user.user_id);
    assert!(user.is_none());
}

#[test]
fn dead_time_is_timestamp_plus_lifespan() {
    let mut store = MessageStore::new();
    let m = Message::create_at(&mut store, 1, 2, "text", "hi", 1000, LIFESPAN_HOURS);
    assert_eq!(m.timestamp, 1000);
    assert_eq!(m.dead_time, 1000 + LIFESPAN_HOURS * SECONDS_PER_HOUR);

    let m2 = Message::create(&mut store, 1, 2, "text", "hi again", 7);
    assert_eq!(m2.dead_time - m2.timestamp, 7 * SECONDS_PER_HOUR);
}

#[test]
fn dead_time_with_negative_lifespan() {
    let mut store = MessageStore::new();
    let m = Message::create_at(&mut store, 1, 2, "text", "short lived", 10_000, -2);
    assert_eq!(m.dead_time, 10_000 - 2 * SECONDS_PER_HOUR);
}

#[test]
fn conversation_is_symmetric() {
    let mut store = MessageStore::new();
    Message::create_at(&mut store, 1, 2, "text", "a", 10, LIFESPAN_HOURS);
    Message::create_at(&mut store, 2, 1, "text", "b", 20, LIFESPAN_HOURS);
    Message::create_at(&mut store, 1, 3, "text", "c", 30, LIFESPAN_HOURS);
    Message::create_at(&mut store, 2, 1, "text", "d", 40, LIFESPAN_HOURS);

    let forward = Message::get_by_sender_receiver(&store, 1, 2);
    let backward = Message::get_by_sender_receiver(&store, 2, 1);
    assert_eq!(forward.len(), 3);
    assert_eq!(backward.len(), 3);
    let forward_ids: Vec<i32> = forward.iter().map(|m| m.id).collect();
    let backward_ids: Vec<i32> = backward.iter().map(|m| m.id).collect();
    assert_eq!(forward_ids, backward_ids);
}

#[test]
fn conversation_sorted_by_timestamp() {
    let mut store = MessageStore::new();
    Message::create_at(&mut store, 1, 2, "text", "late", 300, LIFESPAN_HOURS);
    Message::create_at(&mut store, 2, 1, "text", "early", 100, LIFESPAN_HOURS);
    Message::create_at(&mut store, 1, 2, "text", "middle", 200, LIFESPAN_HOURS);

    let messages = Message::get_by_sender_receiver(&store, 1, 2);
    assert_eq!(messages.len(), 3);
    for w in messages.windows(2) {
        assert!(w[0].timestamp <= w[1].timestamp);
    }
    assert_eq!(messages[0].content, "early");
    assert_eq!(messages[1].content, "middle");
    assert_eq!(messages[2].content, "late");
}

#[test]
fn conversation_excludes_other_parties() {
    let mut store = MessageStore::new();
    Message::create_at(&mut store, 1, 2, "text", "ours", 10, LIFESPAN_HOURS);
    Message::create_at(&mut store, 1, 3, "text", "not ours", 20, LIFESPAN_HOURS);
    Message::create_at(&mut store, 3, 2, "text", "not ours either", 30, LIFESPAN_HOURS);

    let messages = Message::get_by_sender_receiver(&store, 1, 2);
    assert_eq!(messages.len(), 1);
    assert_eq!(messages[0].content, "ours");
}

#[test]
fn create_user_then_message_scenario() {
    let mut users = UserStore::new();
    let alice = User::create(&mut users, "alice", "pw1");
    assert!(alice.status);
    let bob = User::create(&mut users, "bob", "pw2");

    let mut messages = MessageStore::new();
    let sent = Message::create(&mut messages, alice.user_id, bob.user_id, "text", "hi", LIFESPAN_HOURS);

    let conversation = Message::get_by_sender_receiver(&messages, 1, 2);
    assert_eq!(conversation.len(), 1);
    assert_eq!(conversation[0].content, "hi");
    assert_eq!(conversation[0].dead_time, sent.timestamp + LIFESPAN_HOURS * SECONDS_PER_HOUR);
}

#[test]
fn ids_are_assigned_in_order() {
    let mut store = UserStore::new();
    let a = User::create(&mut store, "a", "pa");
    let b = User::create(&mut store, "b", "pb");
    let c = User::create(&mut store, "c", "pc");
    assert_eq!((a.user_id, b.user_id, c.user_id), (1, 2, 3));

    assert!(!User::update_status(&mut store, 99, false));
    assert!(!User::delete(&mut store, 99));
    assert!(User::get_by_id(&store, 99).is_none());
}
