use content_backend::clock::Timestamp;
use content_backend::gateway::{GatewayError, Query, Reply};
use content_backend::models::{Content, User};
use content_backend::store::Store;

fn at(secs: i64) -> Timestamp {
    Timestamp { secs, nanos: 0 }
}

fn user(id: i32, name: &str, hash: &str, secs: i64) -> User {
    User { id, username: name.to_string(), password_hash: hash.to_string(), created_at: at(secs) }
}

fn content(id: i32, title: &str, body: &str, author: i32, created: i64, updated: i64) -> Content {
    Content {
        id,
        title: title.to_string(),
        body: body.to_string(),
        author_id: author,
        created_at: at(created),
        updated_at: at(updated),
    }
}

#[test]
fn a_fresh_store_finds_nothing() {
    let store = Store::new();
    assert_eq!(store.find_user_by_name("alice"), None);
    assert_eq!(store.find_content(1), None);
    assert_eq!(store.find_content(0), None);
    assert_eq!(store.find_content(-1), None);
}

#[test]
fn insert_user_gives_ids_from_one() {
    let mut store = Store::new();
    assert_eq!(
        store.insert_user("alice".to_string(), "h1".to_string(), at(10)),
        Ok(user(1, "alice", "h1", 10))
    );
    assert_eq!(
        store.insert_user("bob".to_string(), "h2".to_string(), at(11)),
        Ok(user(2, "bob", "h2", 11))
    );
    assert_eq!(store.find_user_by_name("alice"), Some(user(1, "alice", "h1", 10)));
    assert_eq!(store.find_user_by_name("bob"), Some(user(2, "bob", "h2", 11)));
    assert_eq!(store.find_user_by_name("carol"), None);
}

#[test]
fn insert_user_refuses_a_taken_username() {
    let mut store = Store::new();
    assert!(store.insert_user("alice".to_string(), "h1".to_string(), at(10)).is_ok());
    assert_eq!(
        store.insert_user("alice".to_string(), "h2".to_string(), at(11)),
        Err(GatewayError::UniqueViolation)
    );
    assert_eq!(store.find_user_by_name("alice"), Some(user(1, "alice", "h1", 10)));
    assert_eq!(
        store.insert_user("bob".to_string(), "h3".to_string(), at(12)),
        Ok(user(2, "bob", "h3", 12))
    );
}

#[test]
fn usernames_are_compared_exactly() {
    let mut store = Store::new();
    assert!(store.insert_user("alice".to_string(), "h1".to_string(), at(10)).is_ok());
    assert!(store.insert_user("Alice".to_string(), "h2".to_string(), at(10)).is_ok());
    assert!(store.insert_user("alice ".to_string(), "h3".to_string(), at(10)).is_ok());
    assert_eq!(store.find_user_by_name("Alice"), Some(user(2, "Alice", "h2", 10)));
}

#[test]
fn insert_content_sets_both_instants() {
    let mut store = Store::new();
    assert_eq!(
        store.insert_content("T1".to_string(), "B1".to_string(), 7, at(20)),
        Ok(content(1, "T1", "B1", 7, 20, 20))
    );
    assert_eq!(
        store.insert_content("T2".to_string(), "B2".to_string(), 8, at(21)),
        Ok(content(2, "T2", "B2", 8, 21, 21))
    );
    assert_eq!(store.find_content(1), Some(content(1, "T1", "B1", 7, 20, 20)));
    assert_eq!(store.find_content(2), Some(content(2, "T2", "B2", 8, 21, 21)));
    assert_eq!(store.find_content(3), None);
}

#[test]
fn update_content_coalesces_each_field() {
    let mut store = Store::new();
    assert!(store.insert_content("T1".to_string(), "B1".to_string(), 7, at(20)).is_ok());
    assert_eq!(
        store.update_content(1, Some("T2".to_string()), None, at(30)),
        Some(content(1, "T2", "B1", 7, 20, 30))
    );
    assert_eq!(
        store.update_content(1, None, Some("B3".to_string()), at(31)),
        Some(content(1, "T2", "B3", 7, 20, 31))
    );
    assert_eq!(
        store.update_content(1, Some("T4".to_string()), Some("B4".to_string()), at(32)),
        Some(content(1, "T4", "B4", 7, 20, 32))
    );
    assert_eq!(
        store.update_content(1, None, None, at(33)),
        Some(content(1, "T4", "B4", 7, 20, 33))
    );
    assert_eq!(store.find_content(1), Some(content(1, "T4", "B4", 7, 20, 33)));
}

#[test]
fn update_content_takes_an_empty_string_as_a_value() {
    let mut store = Store::new();
    assert!(store.insert_content("T1".to_string(), "B1".to_string(), 7, at(20)).is_ok());
    assert_eq!(
        store.update_content(1, Some(String::new()), None, at(30)),
        Some(content(1, "", "B1", 7, 20, 30))
    );
}

#[test]
fn update_content_misses_an_absent_id() {
    let mut store = Store::new();
    assert_eq!(store.update_content(1, Some("T".to_string()), None, at(30)), None);
    assert!(store.insert_content("T1".to_string(), "B1".to_string(), 7, at(20)).is_ok());
    assert_eq!(store.update_content(2, Some("T".to_string()), None, at(30)), None);
    assert_eq!(store.update_content(0, Some("T".to_string()), None, at(30)), None);
    assert_eq!(store.update_content(-1, Some("T".to_string()), None, at(30)), None);
    assert_eq!(store.update_content(i32::MAX, None, None, at(30)), None);
    assert_eq!(store.update_content(i32::MIN, None, None, at(30)), None);
    assert_eq!(store.find_content(1), Some(content(1, "T1", "B1", 7, 20, 20)));
}

#[test]
fn update_content_may_set_an_earlier_instant() {
    let mut store = Store::new();
    assert!(store.insert_content("T1".to_string(), "B1".to_string(), 7, at(20)).is_ok());
    assert_eq!(store.update_content(1, None, None, at(5)), Some(content(1, "T1", "B1", 7, 20, 5)));
}

#[test]
fn delete_content_counts_what_it_removed() {
    let mut store = Store::new();
    assert!(store.insert_content("T1".to_string(), "B1".to_string(), 7, at(20)).is_ok());
    assert!(store.insert_content("T2".to_string(), "B2".to_string(), 7, at(21)).is_ok());
    assert_eq!(store.delete_content(1), 1);
    assert_eq!(store.delete_content(1), 0);
    assert_eq!(store.delete_content(3), 0);
    assert_eq!(store.delete_content(0), 0);
    assert_eq!(store.delete_content(-5), 0);
    assert_eq!(store.find_content(1), None);
    assert_eq!(store.find_content(2), Some(content(2, "T2", "B2", 7, 21, 21)));
    assert_eq!(store.update_content(1, Some("T".to_string()), None, at(30)), None);
}

#[test]
fn a_deleted_id_is_not_given_out_again() {
    let mut store = Store::new();
    assert!(store.insert_content("T1".to_string(), "B1".to_string(), 7, at(20)).is_ok());
    assert_eq!(store.delete_content(1), 1);
    assert_eq!(
        store.insert_content("T2".to_string(), "B2".to_string(), 7, at(21)),
        Ok(content(2, "T2", "B2", 7, 21, 21))
    );
    assert_eq!(store.find_content(1), None);
}

#[test]
fn execute_answers_each_statement() {
    let mut store = Store::new();
    assert_eq!(
        store.execute(Query::InsertUser {
            username: "alice".to_string(),
            password_hash: "h".to_string(),
            created_at: at(1),
        }),
        Reply::User(user(1, "alice", "h", 1))
    );
    assert_eq!(
        store.execute(Query::InsertUser {
            username: "alice".to_string(),
            password_hash: "h".to_string(),
            created_at: at(2),
        }),
        Reply::Failed(GatewayError::UniqueViolation)
    );
    assert_eq!(
        store.execute(Query::FindUserByName { username: "alice".to_string() }),
        Reply::UserLookup(Some(user(1, "alice", "h", 1)))
    );
    assert_eq!(
        store.execute(Query::FindUserByName { username: "bob".to_string() }),
        Reply::UserLookup(None)
    );
    assert_eq!(
        store.execute(Query::InsertContent {
            title: "T".to_string(),
            body: "B".to_string(),
            author_id: 1,
            now: at(3),
        }),
        Reply::Content(content(1, "T", "B", 1, 3, 3))
    );
    assert_eq!(
        store.execute(Query::FindContent { id: 1 }),
        Reply::ContentLookup(Some(content(1, "T", "B", 1, 3, 3)))
    );
    assert_eq!(
        store.execute(Query::UpdateContent {
            id: 1,
            title: None,
            body: Some("C".to_string()),
            now: at(4),
        }),
        Reply::ContentLookup(Some(content(1, "T", "C", 1, 3, 4)))
    );
    assert_eq!(
        store.execute(Query::UpdateContent { id: 2, title: None, body: None, now: at(4) }),
        Reply::ContentLookup(None)
    );
    assert_eq!(store.execute(Query::DeleteContent { id: 1 }), Reply::Removed(1));
    assert_eq!(store.execute(Query::DeleteContent { id: 1 }), Reply::Removed(0));
    assert_eq!(store.execute(Query::FindContent { id: 1 }), Reply::ContentLookup(None));
}
