use user_service::domain::user::User;
use user_service::domain::user_email_duplicate_validator_interface::UserEmailDuplicateValidatorInterface;
use user_service::domain::user_error::UserEmailDuplicateValidationError;
use user_service::domain::user_error::UserRepositoryError;
use user_service::domain::user_id::UserId;
use user_service::domain::user_repository_interface::UserRepositoryInterface;
use user_service::infrastructure::repository::user_email_duplicate_validator_in_memory::UserEmailDuplicateValidatorInMemory;
use user_service::infrastructure::repository::user_repository_in_memory::UserRepositoryInMemory;

fn user(id: u128, name: &str, email: &str) -> User {
    User { id: UserId(id), name: name.to_string(), email: email.to_string() }
}

#[test]
fn test_validate_returns_ok_for_new_email() {
    let repository = UserRepositoryInMemory::new();
    let validator = UserEmailDuplicateValidatorInMemory::new();
    let new_email = format!("unique+{}@example.com", UserId::new().to_string());
    let result = validator.validate_user_email_duplicate(&repository, &new_email);

    assert!(result.is_ok());
}

#[test]
fn test_validate_returns_err_for_existing_email() {
    let email = format!("test+{}@example.com", UserId::new().to_string());
    let user = User::new("Test User".into(), email.clone());
    let mut user_repo = UserRepositoryInMemory::new();
    user_repo.create(&user).expect("should insert user");
    let validator = UserEmailDuplicateValidatorInMemory::new();
    let result = validator.validate_user_email_duplicate(&user_repo, &email);

    assert!(result.is_err());
    let error = result.unwrap_err();
    assert!(matches!(error, UserEmailDuplicateValidationError::AlreadyExists));
    assert_eq!(error.message(), "User email already exists");
}

#[test]
fn test_create_user_successfully() {
    let email = format!("test+{}@example.com", UserId::new().to_string());
    let mut user_repository = UserRepositoryInMemory::new();
    let user = User::new("Test User".into(), email.into());
    let created_user = user_repository.create(&user).expect("should successfully create user");

    assert_eq!(created_user.name, user.name);
    assert_eq!(created_user.email, user.email);
    assert_eq!(created_user.id, user.id);
}

#[test]
fn test_find_all_users_successfully() {
    let mut user_repository = UserRepositoryInMemory::new();

    let email1 = format!("user1+{}@example.com", UserId::new().to_string());
    let user1 = User::new("User One".into(), email1.clone());
    user_repository.create(&user1).expect("should create user 1");

    let email2 = format!("user2+{}@example.com", UserId::new().to_string());
    let user2 = User::new("User Two".into(), email2.clone());
    user_repository.create(&user2).expect("should create user 2");

    let users = user_repository.find_all().expect("should fetch all users");

    assert!(users.iter().any(|u| u.email == email1), "User 1 should exist");
    assert!(users.iter().any(|u| u.email == email2), "User 2 should exist");
}

#[test]
fn empty_store_lists_nothing_and_finds_nothing() {
    let repository = UserRepositoryInMemory::new();
    assert_eq!(repository.len(), 0);
    assert_eq!(repository.find_all().unwrap(), Vec::<User>::new());
    assert!(matches!(repository.find_by_id(&UserId(1)), Err(UserRepositoryError::NotFound)));
    assert!(!repository.contains_id(&UserId(1)));
    assert!(!repository.contains_email("test@example.com"));
}

#[test]
fn find_all_orders_by_name_and_keeps_equal_names_in_stored_order() {
    let mut repository = UserRepositoryInMemory::new();
    let stored = vec![
        user(1, "bob", "bob@example.com"),
        user(2, "Carol", "carol@example.com"),
        user(3, "alice", "alice1@example.com"),
        user(4, "Bob", "bob2@example.com"),
        user(5, "alice", "alice2@example.com"),
        user(6, "al", "al@example.com"),
        user(7, "Émile", "emile@example.com"),
        user(8, "", "nameless@example.com"),
    ];
    for row in &stored {
        repository.create(row).unwrap();
    }
    let listed: Vec<u128> = repository.find_all().unwrap().iter().map(|u| u.id.0).collect();
    // Code point order: upper case before lower case, a prefix before what it begins.
    assert_eq!(listed, vec![8, 4, 2, 6, 3, 5, 1, 7]);
    assert_eq!(repository.len(), 8);
}

#[test]
fn create_refuses_a_stored_identifier_and_keeps_the_rows() {
    let mut repository = UserRepositoryInMemory::new();
    repository.create(&user(1, "Alice", "alice@example.com")).unwrap();
    let result = repository.create(&user(1, "Bob", "bob@example.com"));
    match result {
        Err(UserRepositoryError::Storage(text)) => assert_eq!(text, "Failed to insert user"),
        other => panic!("expected a storage error, got {:?}", other),
    }
    assert_eq!(repository.len(), 1);
    assert_eq!(repository.find_by_id(&UserId(1)).unwrap(), user(1, "Alice", "alice@example.com"));
    assert!(!repository.contains_email("bob@example.com"));
}

#[test]
fn find_by_id_finds_each_stored_user() {
    let mut repository = UserRepositoryInMemory::new();
    let alice = user(1, "Alice", "alice@example.com");
    let bob = user(2, "Bob", "bob@example.com");
    repository.create(&alice).unwrap();
    repository.create(&bob).unwrap();
    assert_eq!(repository.find_by_id(&UserId(1)).unwrap(), alice);
    assert_eq!(repository.find_by_id(&UserId(2)).unwrap(), bob);
    assert!(matches!(repository.find_by_id(&UserId(3)), Err(UserRepositoryError::NotFound)));
    assert!(repository.contains_id(&UserId(2)));
    assert!(repository.contains_email("bob@example.com"));
    assert!(!repository.contains_email("Bob@example.com"));
}
