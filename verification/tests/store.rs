use user_access::error::RepoError;
use user_access::models::NewUser;
use user_access::store::{advance, UserStore};

fn columns(email: &str, hash: &str, name: &str) -> NewUser {
    NewUser { email: email.to_string(), password_hash: hash.to_string(), name: name.to_string() }
}

#[test]
fn new_store_is_empty() {
    let store = UserStore::new();
    assert_eq!(store.len(), 0);
    assert!(store.rows().is_empty());
    assert!(store.get(1).is_none());
    assert!(store.find_by_email("a@x.com").is_none());
}

#[test]
fn insert_returns_the_row_it_stored() {
    let mut store = UserStore::new();
    let row = store.insert(7, columns("a@x.com", "h1", "Ann"), 1_000).unwrap();
    assert_eq!(row.id, 7);
    assert_eq!(row.email, "a@x.com");
    assert_eq!(row.password_hash, "h1");
    assert_eq!(row.name, "Ann");
    assert_eq!(row.created_at, 1_000);
    assert_eq!(row.updated_at, 1_000);
    assert_eq!(store.len(), 1);
    assert_eq!(store.get(7), Some(&row));
    assert_eq!(store.find_by_email("a@x.com"), Some(&row));
}

#[test]
fn insert_refuses_a_taken_email() {
    let mut store = UserStore::new();
    store.insert(1, columns("a@x.com", "h1", "Ann"), 10).unwrap();
    let second = store.insert(2, columns("a@x.com", "h2", "Bob"), 20);
    assert_eq!(second, Err(RepoError::Conflict));
    assert_eq!(store.len(), 1);
    assert_eq!(store.get(1).unwrap().name, "Ann");
    assert!(store.get(2).is_none());
}

#[test]
fn insert_refuses_a_taken_identifier() {
    let mut store = UserStore::new();
    store.insert(1, columns("a@x.com", "h1", "Ann"), 10).unwrap();
    let second = store.insert(1, columns("b@x.com", "h2", "Bob"), 20);
    assert_eq!(second, Err(RepoError::Conflict));
    assert_eq!(store.len(), 1);
    assert!(store.find_by_email("b@x.com").is_none());
}

#[test]
fn emails_are_compared_exactly() {
    let mut store = UserStore::new();
    store.insert(1, columns("a@x.com", "h1", "Ann"), 10).unwrap();
    assert!(store.insert(2, columns("A@x.com", "h2", "Bob"), 20).is_ok());
    assert!(store.insert(3, columns("a@x.com ", "h3", "Cy"), 30).is_ok());
    assert_eq!(store.find_by_email("A@x.com").unwrap().id, 2);
    assert!(store.find_by_email("a@x.co").is_none());
    assert!(store.find_by_email("").is_none());
}

#[test]
fn rows_keep_the_order_of_insertion() {
    let mut store = UserStore::new();
    store.insert(3, columns("c@x.com", "h", "C"), 1).unwrap();
    store.insert(1, columns("a@x.com", "h", "A"), 2).unwrap();
    store.insert(2, columns("b@x.com", "h", "B"), 3).unwrap();
    let ids: Vec<u128> = store.rows().iter().map(|row| row.id).collect();
    assert_eq!(ids, vec![3, 1, 2]);
    assert_eq!(store.delete(1), 1);
    let ids: Vec<u128> = store.rows().iter().map(|row| row.id).collect();
    assert_eq!(ids, vec![3, 2]);
}

#[test]
fn update_profile_changes_email_and_name_only() {
    let mut store = UserStore::new();
    store.insert(1, columns("a@x.com", "h1", "Ann"), 10).unwrap();
    let row = store.update_profile(1, "b@x.com", "Ann B", 25).unwrap();
    assert_eq!(row.id, 1);
    assert_eq!(row.email, "b@x.com");
    assert_eq!(row.name, "Ann B");
    assert_eq!(row.password_hash, "h1");
    assert_eq!(row.created_at, 10);
    assert_eq!(row.updated_at, 25);
    assert_eq!(store.get(1), Some(&row));
    assert!(store.find_by_email("a@x.com").is_none());
    assert_eq!(store.find_by_email("b@x.com"), Some(&row));
}

#[test]
fn update_profile_may_keep_the_email() {
    let mut store = UserStore::new();
    store.insert(1, columns("a@x.com", "h1", "Ann"), 10).unwrap();
    let row = store.update_profile(1, "a@x.com", "Ann B", 11).unwrap();
    assert_eq!(row.email, "a@x.com");
    assert_eq!(row.name, "Ann B");
}

#[test]
fn update_profile_refuses_the_email_of_another_row() {
    let mut store = UserStore::new();
    store.insert(1, columns("a@x.com", "h1", "Ann"), 10).unwrap();
    store.insert(2, columns("b@x.com", "h2", "Bob"), 10).unwrap();
    assert_eq!(store.update_profile(2, "a@x.com", "Bob", 20), Err(RepoError::Conflict));
    let bob = store.get(2).unwrap();
    assert_eq!(bob.email, "b@x.com");
    assert_eq!(bob.updated_at, 10);
}

#[test]
fn update_profile_of_an_absent_row_is_not_found() {
    let mut store = UserStore::new();
    store.insert(1, columns("a@x.com", "h1", "Ann"), 10).unwrap();
    assert_eq!(store.update_profile(9, "z@x.com", "Zed", 20), Err(RepoError::NotFound));
    // an absent row comes before a taken email
    assert_eq!(store.update_profile(9, "a@x.com", "Zed", 20), Err(RepoError::NotFound));
    assert_eq!(store.len(), 1);
}

#[test]
fn update_time_moves_forward_when_the_clock_does_not() {
    let mut store = UserStore::new();
    store.insert(1, columns("a@x.com", "h1", "Ann"), 10).unwrap();
    // the clock stands still
    assert_eq!(store.update_profile(1, "a@x.com", "A", 10).unwrap().updated_at, 11);
    // the clock went back
    assert_eq!(store.update_profile(1, "a@x.com", "B", 5).unwrap().updated_at, 12);
    // the clock is ahead
    assert_eq!(store.update_profile(1, "a@x.com", "C", 40).unwrap().updated_at, 40);
    assert_eq!(store.update_password_hash(1, "h2".to_string(), 40).unwrap().updated_at, 41);
    assert_eq!(store.get(1).unwrap().created_at, 10);
}

#[test]
fn advance_gives_the_later_instant() {
    assert_eq!(advance(10, 11), Some(11));
    assert_eq!(advance(10, 10), Some(11));
    assert_eq!(advance(10, -3), Some(11));
    assert_eq!(advance(-5, -4), Some(-4));
    assert_eq!(advance(i64::MAX - 1, 0), Some(i64::MAX));
    assert_eq!(advance(i64::MAX - 1, i64::MAX), Some(i64::MAX));
    assert_eq!(advance(i64::MAX, i64::MAX), None);
    assert_eq!(advance(i64::MAX, 0), None);
    assert_eq!(advance(i64::MIN, i64::MIN), Some(i64::MIN + 1));
}

#[test]
fn a_row_at_the_last_instant_cannot_be_updated() {
    let mut store = UserStore::new();
    store.insert(1, columns("a@x.com", "h1", "Ann"), i64::MAX).unwrap();
    assert_eq!(
        store.update_profile(1, "b@x.com", "Ann B", i64::MAX),
        Err(RepoError::ResourceExhausted)
    );
    assert_eq!(
        store.update_password_hash(1, "h2".to_string(), 0),
        Err(RepoError::ResourceExhausted)
    );
    let row = store.get(1).unwrap();
    assert_eq!(row.email, "a@x.com");
    assert_eq!(row.password_hash, "h1");
    assert_eq!(row.updated_at, i64::MAX);
    // it can still be deleted
    assert_eq!(store.delete(1), 1);
}

#[test]
fn update_password_hash_changes_the_hash_only() {
    let mut store = UserStore::new();
    store.insert(1, columns("a@x.com", "h1", "Ann"), 10).unwrap();
    let row = store.update_password_hash(1, "h2".to_string(), 30).unwrap();
    assert_eq!(row.password_hash, "h2");
    assert_eq!(row.email, "a@x.com");
    assert_eq!(row.name, "Ann");
    assert_eq!(row.created_at, 10);
    assert_eq!(row.updated_at, 30);
    assert_eq!(store.get(1), Some(&row));
    assert_eq!(store.update_password_hash(2, "h3".to_string(), 31), Err(RepoError::NotFound));
}

#[test]
fn delete_counts_the_rows_it_removed() {
    let mut store = UserStore::new();
    store.insert(1, columns("a@x.com", "h1", "Ann"), 10).unwrap();
    store.insert(2, columns("b@x.com", "h2", "Bob"), 10).unwrap();
    assert_eq!(store.delete(3), 0);
    assert_eq!(store.len(), 2);
    assert_eq!(store.delete(1), 1);
    assert_eq!(store.len(), 1);
    assert_eq!(store.delete(1), 0);
    assert!(store.get(1).is_none());
    assert!(store.find_by_email("a@x.com").is_none());
    assert_eq!(store.get(2).unwrap().email, "b@x.com");
}

#[test]
fn a_deleted_email_and_identifier_can_be_used_again() {
    let mut store = UserStore::new();
    store.insert(1, columns("a@x.com", "h1", "Ann"), 10).unwrap();
    assert_eq!(store.delete(1), 1);
    let again = store.insert(1, columns("a@x.com", "h9", "Ann II"), 50).unwrap();
    assert_eq!(again.name, "Ann II");
    assert_eq!(again.created_at, 50);
    assert_eq!(store.len(), 1);
}
