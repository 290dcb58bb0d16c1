use user_access::error::RepoError;
use user_access::model_response::ModelResponse;
use user_access::models::{NewUser, User, UserResponse};
use user_access::password::{verify, PasswordHasher};
use user_access::store::UserStore;
use user_access::user_repository::UserRepository;
use user_access::user_repository_imp::UserRepositoryImp;

fn request(email: &str, password: &str, name: &str) -> NewUser {
    NewUser {
        email: email.to_string(),
        password_hash: password.to_string(),
        name: name.to_string(),
    }
}

fn quick_repository() -> UserRepositoryImp {
    UserRepositoryImp::with_hasher(UserStore::new(), PasswordHasher::with_cost(4))
}

#[test]
fn register_then_conflict_then_update() {
    let mut repository = UserRepositoryImp::new(UserStore::new());
    assert_eq!(repository.hasher.cost, 12);

    let created = repository.create_user(request("a@x.com", "secret123", "Ann")).unwrap();
    assert_eq!(created.email, "a@x.com");
    assert_eq!(created.name, "Ann");
    let stored = repository.store.get(created.id).unwrap().clone();
    assert_eq!(created.created_at, stored.created_at);
    assert_eq!(stored.updated_at, stored.created_at);
    // the clock reads a time after the first day of 2020
    assert!(created.created_at > 1_577_836_800_000_000);

    let again = repository.create_user(request("a@x.com", "other-password", "Another Ann"));
    assert_eq!(again, Err(RepoError::Conflict));
    assert_eq!(repository.store.len(), 1);

    let updated = repository.update_user(created.id, "b@x.com", "Ann B").unwrap();
    assert_eq!(updated.id, created.id);
    assert_eq!(updated.email, "b@x.com");
    assert_eq!(updated.name, "Ann B");
    assert_eq!(updated.created_at, created.created_at);
    let stored = repository.store.get(created.id).unwrap();
    assert!(stored.updated_at > stored.created_at);
    assert_eq!(stored.email, "b@x.com");
    assert_eq!(stored.name, "Ann B");
}

#[test]
fn created_user_is_found_by_email() {
    let mut repository = quick_repository();
    let created = repository.create_user(request("a@x.com", "secret123", "Ann")).unwrap();
    let found = repository.find_by_email("a@x.com").unwrap().unwrap();
    assert_eq!(found, created);
    assert_eq!(found.id, created.id);
    assert_eq!(found.email, "a@x.com");
    assert_eq!(found.name, "Ann");
    assert_eq!(found.created_at, created.created_at);
}

#[test]
fn find_by_email_of_nobody_is_none() {
    let mut repository = quick_repository();
    assert_eq!(repository.find_by_email("a@x.com"), Ok(None));
    repository.create_user(request("a@x.com", "secret123", "Ann")).unwrap();
    assert_eq!(repository.find_by_email("b@x.com"), Ok(None));
    assert_eq!(repository.find_by_email(""), Ok(None));
}

#[test]
fn second_user_with_same_email_is_a_conflict() {
    let mut repository = quick_repository();
    let first = repository.create_user(request("a@x.com", "secret123", "Ann")).unwrap();
    let second = repository.create_user(request("a@x.com", "secret456", "Bob"));
    assert_eq!(second, Err(RepoError::Conflict));
    assert_eq!(repository.store.len(), 1);
    let with_email: Vec<&User> =
        repository.store.rows().iter().filter(|row| row.email == "a@x.com").collect();
    assert_eq!(with_email.len(), 1);
    assert_eq!(with_email[0].id, first.id);
    assert_eq!(with_email[0].name, "Ann");
    assert!(verify("secret123", &with_email[0].password_hash));
}

#[test]
fn delete_returns_one_then_zero() {
    let mut repository = quick_repository();
    let created = repository.create_user(request("a@x.com", "secret123", "Ann")).unwrap();
    assert_eq!(repository.delete_user(created.id), Ok(1));
    assert_eq!(repository.delete_user(created.id), Ok(0));
    assert_eq!(repository.find_by_email("a@x.com"), Ok(None));
    assert_eq!(repository.store.len(), 0);
}

#[test]
fn delete_of_an_unknown_id_is_zero() {
    let mut repository = quick_repository();
    assert_eq!(repository.delete_user(42), Ok(0));
    let created = repository.create_user(request("a@x.com", "secret123", "Ann")).unwrap();
    assert_eq!(repository.delete_user(created.id ^ 1), Ok(0));
    assert_eq!(repository.store.len(), 1);
}

#[test]
fn update_password_changes_what_verifies() {
    let mut repository = quick_repository();
    let created = repository.create_user(request("a@x.com", "secret123", "Ann")).unwrap();
    let old_hash = repository.store.get(created.id).unwrap().password_hash.clone();
    assert!(verify("secret123", &old_hash));

    let updated = repository.update_password(created.id, "new-secret").unwrap();
    assert_eq!(updated, created);
    let stored = repository.store.get(created.id).unwrap();
    assert_ne!(stored.password_hash, old_hash);
    assert!(verify("new-secret", &stored.password_hash));
    assert!(!verify("secret123", &stored.password_hash));
    assert!(stored.updated_at > stored.created_at);
    assert_eq!(stored.email, "a@x.com");
    assert_eq!(stored.name, "Ann");
}

#[test]
fn update_password_of_an_unknown_id_is_not_found() {
    let mut repository = quick_repository();
    assert_eq!(repository.update_password(42, "new-secret"), Err(RepoError::NotFound));
    // the lookup comes before the hashing
    let mut broken = UserRepositoryImp::with_hasher(UserStore::new(), PasswordHasher::with_cost(3));
    assert_eq!(broken.update_password(42, "new-secret"), Err(RepoError::NotFound));
}

#[test]
fn update_user_of_an_unknown_id_is_not_found() {
    let mut repository = quick_repository();
    repository.create_user(request("a@x.com", "secret123", "Ann")).unwrap();
    assert_eq!(repository.update_user(42, "b@x.com", "Bob"), Err(RepoError::NotFound));
    assert_eq!(repository.update_user(42, "a@x.com", "Bob"), Err(RepoError::NotFound));
    assert_eq!(repository.store.len(), 1);
}

#[test]
fn update_user_to_the_email_of_another_is_a_conflict() {
    let mut repository = quick_repository();
    let ann = repository.create_user(request("a@x.com", "secret123", "Ann")).unwrap();
    let bob = repository.create_user(request("b@x.com", "secret456", "Bob")).unwrap();
    assert_ne!(ann.id, bob.id);
    assert_eq!(repository.update_user(bob.id, "a@x.com", "Bob"), Err(RepoError::Conflict));
    assert_eq!(repository.find_by_email("b@x.com").unwrap().unwrap().id, bob.id);
    // keeping one's own email is no conflict
    let same = repository.update_user(ann.id, "a@x.com", "Ann A").unwrap();
    assert_eq!(same.email, "a@x.com");
    assert_eq!(same.name, "Ann A");
}

#[test]
fn malformed_requests_are_refused() {
    let mut repository = quick_repository();
    assert_eq!(
        repository.create_user(request("", "secret123", "Ann")),
        Err(RepoError::Validation)
    );
    assert_eq!(
        repository.create_user(request("a@x.com", "secret123", "")),
        Err(RepoError::Validation)
    );
    assert_eq!(repository.create_user(request("", "", "")), Err(RepoError::Validation));
    assert_eq!(repository.store.len(), 0);
    // an empty password is not malformed
    assert!(repository.create_user(request("a@x.com", "", "Ann")).is_ok());
    // validation comes before the conflict
    assert_eq!(
        repository.create_user(request("a@x.com", "secret123", "")),
        Err(RepoError::Validation)
    );
}

#[test]
fn validate_accepts_what_has_email_and_name() {
    assert_eq!(request("a@x.com", "secret123", "Ann").validate(), Ok(()));
    assert_eq!(request("a", "", "b").validate(), Ok(()));
    assert_eq!(request("", "secret123", "Ann").validate(), Err(RepoError::Validation));
    assert_eq!(request("a@x.com", "secret123", "").validate(), Err(RepoError::Validation));
}

#[test]
fn a_failed_hash_stores_nothing() {
    let mut repository =
        UserRepositoryImp::with_hasher(UserStore::new(), PasswordHasher::with_cost(3));
    assert_eq!(
        repository.create_user(request("a@x.com", "secret123", "Ann")),
        Err(RepoError::Hashing)
    );
    assert_eq!(repository.store.len(), 0);
    assert_eq!(repository.find_by_email("a@x.com"), Ok(None));

    repository.store.insert(5, request("b@x.com", "old-hash", "Bob"), 100).unwrap();
    assert_eq!(repository.update_password(5, "new-secret"), Err(RepoError::Hashing));
    let stored = repository.store.get(5).unwrap();
    assert_eq!(stored.password_hash, "old-hash");
    assert_eq!(stored.updated_at, 100);
}

#[test]
fn a_row_at_the_last_instant_refuses_updates() {
    let mut repository = quick_repository();
    repository.store.insert(5, request("b@x.com", "old-hash", "Bob"), i64::MAX).unwrap();
    assert_eq!(
        repository.update_user(5, "c@x.com", "Bob C"),
        Err(RepoError::ResourceExhausted)
    );
    assert_eq!(repository.update_password(5, "new-secret"), Err(RepoError::ResourceExhausted));
    let stored = repository.store.get(5).unwrap();
    assert_eq!(stored.email, "b@x.com");
    assert_eq!(stored.password_hash, "old-hash");
}

#[test]
fn the_stored_hash_is_never_the_password() {
    let mut repository = quick_repository();
    let created = repository.create_user(request("a@x.com", "secret123", "Ann")).unwrap();
    let stored = repository.store.get(created.id).unwrap();
    assert_ne!(stored.password_hash, "secret123");
    assert_eq!(stored.password_hash.len(), 60);
    assert!(verify("secret123", &stored.password_hash));
}

#[test]
fn responses_do_not_show_the_hash() {
    let mut repository = quick_repository();
    let created = repository.create_user(request("a@x.com", "secret123", "Ann")).unwrap();
    let hash = repository.store.get(created.id).unwrap().password_hash.clone();
    let found = repository.find_by_email("a@x.com").unwrap().unwrap();
    let updated = repository.update_user(created.id, "b@x.com", "Ann B").unwrap();
    let rehashed = repository.update_password(created.id, "new-secret").unwrap();
    let new_hash = repository.store.get(created.id).unwrap().password_hash.clone();
    for response in [created, found, updated, rehashed] {
        let shown = format!("{:?}", response);
        assert!(!shown.contains(&hash));
        assert!(!shown.contains(&new_hash));
        assert!(!shown.contains("secret"));
    }
}

#[test]
fn to_response_keeps_id_email_name_and_creation_time() {
    let user = User {
        id: 0xa1a2a3a4_b1b2_c1c2_d1d2_d3d4d5d6d7d8,
        email: "a@x.com".to_string(),
        password_hash: "$2b$04$abcdefghijklmnopqrstuv".to_string(),
        name: "Ann".to_string(),
        created_at: 1_700_000_000_000_000,
        updated_at: 1_700_000_000_500_000,
    };
    let response = user.to_response();
    assert_eq!(
        response,
        UserResponse {
            id: 0xa1a2a3a4_b1b2_c1c2_d1d2_d3d4d5d6d7d8,
            email: "a@x.com".to_string(),
            name: "Ann".to_string(),
            created_at: 1_700_000_000_000_000,
        }
    );
}

#[test]
fn new_identifiers_are_random_uuids() {
    let mut repository = quick_repository();
    let ann = repository.create_user(request("a@x.com", "secret123", "Ann")).unwrap();
    let bob = repository.create_user(request("b@x.com", "secret456", "Bob")).unwrap();
    assert_ne!(ann.id, bob.id);
    for id in [ann.id, bob.id] {
        assert_eq!((id >> 76) & 0xf, 4);
        assert_eq!((id >> 62) & 0x3, 2);
    }
}

#[test]
fn clones_are_equal_to_what_was_cloned() {
    let user = User {
        id: 9,
        email: "a@x.com".to_string(),
        password_hash: "h".to_string(),
        name: "Ann".to_string(),
        created_at: 1,
        updated_at: 2,
    };
    assert_eq!(user.clone(), user);
    let columns = request("a@x.com", "secret123", "Ann");
    assert_eq!(columns.clone(), columns);
    let response = user.to_response();
    assert_eq!(response.clone(), response);
}

#[test]
fn error_messages_name_the_failure() {
    assert_eq!(RepoError::Validation.message(), "email and name must not be empty");
    assert_eq!(RepoError::Conflict.message(), "a user with this email already exists");
    assert_eq!(RepoError::NotFound.message(), "no such user");
    assert_eq!(RepoError::Hashing.message(), "Failed to hash password");
    assert_eq!(RepoError::ResourceExhausted.message(), "the user store is exhausted");
}
