use std::cell::RefCell;

use user_service::application::usecase::create_user::email_check_verdict;
use user_service::application::usecase::create_user::insert_verdict;
use user_service::application::usecase::create_user::CreateUserError;
use user_service::application::usecase::create_user::CreateUserInput;
use user_service::application::usecase::create_user::CreateUserUsecase;
use user_service::application::usecase::find_all_user::FindAllUserOutput;
use user_service::application::usecase::find_all_user::FindAllUserUsecase;
use user_service::application::usecase::find_user_by_id::FindUserByIdUsecase;
use user_service::domain::user::User;
use user_service::domain::user_email_duplicate_validator_interface::existence_verdict;
use user_service::domain::user_email_duplicate_validator_interface::UserEmailDuplicateValidatorInterface;
use user_service::domain::user_error::UserEmailDuplicateValidationError;
use user_service::domain::user_error::UserRepositoryError;
use user_service::domain::user_id::UserId;
use user_service::domain::user_repository_interface::UserRepositoryInterface;
use user_service::infrastructure::repository::user_email_duplicate_validator_in_memory::UserEmailDuplicateValidatorInMemory;
use user_service::infrastructure::repository::user_repository_in_memory::UserRepositoryInMemory;

/// A repository that answers what it was told to answer and keeps every user
/// that `create` was handed.
struct ScriptedRepository {
    handed: Vec<User>,
    fail_create: bool,
    stored_as: Option<User>,
    users: Vec<User>,
}

impl ScriptedRepository {
    fn holding(users: Vec<User>) -> Self {
        ScriptedRepository { handed: Vec::new(), fail_create: false, stored_as: None, users }
    }

    fn failing() -> Self {
        ScriptedRepository { handed: Vec::new(), fail_create: true, stored_as: None, users: Vec::new() }
    }

    fn storing_as(stored: User) -> Self {
        ScriptedRepository {
            handed: Vec::new(),
            fail_create: false,
            stored_as: Some(stored),
            users: Vec::new(),
        }
    }
}

impl UserRepositoryInterface for ScriptedRepository {
    fn create(&mut self, user: &User) -> Result<User, UserRepositoryError> {
        self.handed.push(user.clone());
        if self.fail_create {
            Err(UserRepositoryError::Storage("Failed to insert user".to_string()))
        } else {
            match &self.stored_as {
                Some(stored) => Ok(stored.clone()),
                None => Ok(user.clone()),
            }
        }
    }

    fn find_all(&self) -> Result<Vec<User>, UserRepositoryError> {
        if self.fail_create {
            Err(UserRepositoryError::Storage("Failed to fetch users".to_string()))
        } else {
            Ok(self.users.clone())
        }
    }

    fn find_by_id(&self, user_id: &UserId) -> Result<User, UserRepositoryError> {
        match self.users.iter().find(|user| user.id == *user_id) {
            Some(user) => Ok(user.clone()),
            None => Err(UserRepositoryError::NotFound),
        }
    }
}

/// A validator that gives one fixed answer and keeps every email that it was
/// asked about.
struct ScriptedValidator {
    asked: RefCell<Vec<String>>,
    answer: fn() -> Result<(), UserEmailDuplicateValidationError>,
}

impl ScriptedValidator {
    fn answering(answer: fn() -> Result<(), UserEmailDuplicateValidationError>) -> Self {
        ScriptedValidator { asked: RefCell::new(Vec::new()), answer }
    }
}

impl UserEmailDuplicateValidatorInterface<ScriptedRepository> for ScriptedValidator {
    fn validate_user_email_duplicate(
        &self,
        _repository: &ScriptedRepository,
        email: &str,
    ) -> Result<(), UserEmailDuplicateValidationError> {
        self.asked.borrow_mut().push(email.to_string());
        (self.answer)()
    }
}

#[test]
fn test_create_user_usecase_successful() {
    let input = CreateUserInput::new("Test User".into(), "test@example.com".into());
    let expected_name = input.name.clone();
    let expected_email = input.email.clone();

    let mut usecase = CreateUserUsecase::new(
        ScriptedRepository::holding(Vec::new()),
        ScriptedValidator::answering(|| Ok(())),
    );
    let result = usecase.execute(input).unwrap();

    assert_eq!(&result.name, &expected_name);
    assert_eq!(&result.email, &expected_email);
    let (repository, validator) = usecase.into_parts();
    assert_eq!(*validator.asked.borrow(), vec!["test@example.com".to_string()]);
    assert_eq!(repository.handed.len(), 1);
    assert_eq!(repository.handed[0].name, expected_name);
    assert_eq!(repository.handed[0].email, expected_email);
    assert_eq!(repository.handed[0], result);
    assert_eq!(repository.handed[0].id.0 & 0xf000_c000_0000_0000_0000, 0x4000_8000_0000_0000_0000);
}

#[test]
fn test_create_user_duplicate_email_fails() {
    let input = CreateUserInput::new("Test User".into(), "test@example.com".into());
    let mut usecase = CreateUserUsecase::new(
        ScriptedRepository::holding(Vec::new()),
        ScriptedValidator::answering(|| Err(UserEmailDuplicateValidationError::AlreadyExists)),
    );
    let result = usecase.execute(input);

    assert!(result.is_err());
    assert!(matches!(result.unwrap_err(), CreateUserError::DuplicateEmail));
    let (repository, validator) = usecase.into_parts();
    assert_eq!(*validator.asked.borrow(), vec!["test@example.com".to_string()]);
    assert!(repository.handed.is_empty());
}

#[test]
fn create_user_returns_the_user_as_the_repository_stored_it() {
    let stored = User { id: UserId(7), name: "As Stored".into(), email: "stored@example.com".into() };
    let mut usecase = CreateUserUsecase::new(
        ScriptedRepository::storing_as(stored.clone()),
        ScriptedValidator::answering(|| Ok(())),
    );
    let result = usecase
        .execute(CreateUserInput::new("Test User".into(), "test@example.com".into()))
        .unwrap();
    assert_eq!(result, stored);
    assert_eq!(result.id, UserId(7));
    let (repository, _) = usecase.into_parts();
    assert_eq!(repository.handed.len(), 1);
    assert_eq!(repository.handed[0].name, "Test User");
    assert_eq!(repository.handed[0].email, "test@example.com");
}

#[test]
fn create_user_hands_on_the_user_it_was_given() {
    let user = User { id: UserId(42), name: "Test User".into(), email: "test@example.com".into() };
    let mut usecase = CreateUserUsecase::new(
        ScriptedRepository::holding(Vec::new()),
        ScriptedValidator::answering(|| Ok(())),
    );
    let result = usecase.execute_with_user(user.clone()).unwrap();
    assert_eq!(result, user);
    let (repository, validator) = usecase.into_parts();
    assert_eq!(repository.handed, vec![user]);
    assert_eq!(*validator.asked.borrow(), vec!["test@example.com".to_string()]);
}

#[test]
fn create_user_in_memory_goes_by_email_and_identifier() {
    let mut usecase =
        CreateUserUsecase::new(UserRepositoryInMemory::new(), UserEmailDuplicateValidatorInMemory::new());
    let alice = User { id: UserId(1), name: "Alice".into(), email: "alice@example.com".into() };
    assert_eq!(usecase.execute_with_user(alice.clone()).unwrap(), alice);

    // The email is stored: a duplicate, whatever the identifier.
    let same_email = User { id: UserId(2), name: "Other".into(), email: "alice@example.com".into() };
    assert!(matches!(usecase.execute_with_user(same_email), Err(CreateUserError::DuplicateEmail)));

    // The identifier is stored beside a free email: the store refuses.
    let same_id = User { id: UserId(1), name: "Bob".into(), email: "bob@example.com".into() };
    match usecase.execute_with_user(same_id) {
        Err(CreateUserError::Storage(text)) => assert_eq!(text, "Failed to insert user"),
        other => panic!("expected a storage error, got {:?}", other),
    }

    // Both are free: created.
    let bob = User { id: UserId(2), name: "Bob".into(), email: "bob@example.com".into() };
    assert_eq!(usecase.execute_with_user(bob.clone()).unwrap(), bob);

    let (repository, _) = usecase.into_parts();
    assert_eq!(repository.len(), 2);
    assert_eq!(repository.find_by_id(&UserId(1)).unwrap(), alice);
    assert_eq!(repository.find_by_id(&UserId(2)).unwrap(), bob);
}

#[test]
fn create_user_passes_on_a_failed_check_without_touching_the_repository() {
    let input = CreateUserInput::new("Test User".into(), "test@example.com".into());
    let mut usecase = CreateUserUsecase::new(
        ScriptedRepository::holding(Vec::new()),
        ScriptedValidator::answering(|| {
            Err(UserEmailDuplicateValidationError::Unexpected("pool timed out".to_string()))
        }),
    );
    match usecase.execute(input) {
        Err(CreateUserError::Storage(text)) => assert_eq!(text, "Unexpected error: pool timed out"),
        other => panic!("expected a storage error, got {:?}", other),
    }
    let (repository, _) = usecase.into_parts();
    assert!(repository.handed.is_empty());
}

#[test]
fn create_user_passes_on_a_failed_insert() {
    let input = CreateUserInput::new("Test User".into(), "test@example.com".into());
    let mut usecase =
        CreateUserUsecase::new(ScriptedRepository::failing(), ScriptedValidator::answering(|| Ok(())));
    match usecase.execute(input) {
        Err(CreateUserError::Storage(text)) => assert_eq!(text, "Failed to insert user"),
        other => panic!("expected a storage error, got {:?}", other),
    }
    let (repository, _) = usecase.into_parts();
    assert_eq!(repository.handed.len(), 1);
    assert_eq!(repository.handed[0].email, "test@example.com");
}

#[test]
fn create_user_in_memory_refuses_the_second_use_of_an_email() {
    let mut usecase =
        CreateUserUsecase::new(UserRepositoryInMemory::new(), UserEmailDuplicateValidatorInMemory::new());
    let first = usecase
        .execute(CreateUserInput::new("Test User".into(), "test@example.com".into()))
        .unwrap();
    let second = usecase.execute(CreateUserInput::new("Other User".into(), "test@example.com".into()));
    assert!(matches!(second, Err(CreateUserError::DuplicateEmail)));
    let third = usecase
        .execute(CreateUserInput::new("Test User".into(), "other@example.com".into()))
        .unwrap();
    assert_ne!(first.id, third.id);
    let (repository, _) = usecase.into_parts();
    assert_eq!(repository.len(), 2);
    assert_eq!(repository.find_by_id(&first.id).unwrap(), first);
    assert_eq!(repository.find_by_id(&third.id).unwrap(), third);
}

#[test]
fn verdict_of_the_email_check() {
    assert!(email_check_verdict(Ok(())).is_ok());
    assert!(matches!(
        email_check_verdict(Err(UserEmailDuplicateValidationError::AlreadyExists)),
        Err(CreateUserError::DuplicateEmail)
    ));
    match email_check_verdict(Err(UserEmailDuplicateValidationError::Unexpected("down".to_string()))) {
        Err(CreateUserError::Storage(text)) => assert_eq!(text, "Unexpected error: down"),
        other => panic!("expected a storage error, got {:?}", other),
    }
}

#[test]
fn verdict_of_the_insert() {
    let stored = User { id: UserId(7), name: "As Stored".into(), email: "test@example.com".into() };
    assert_eq!(insert_verdict(Ok(stored.clone())).unwrap(), stored);
    match insert_verdict(Err(UserRepositoryError::Storage("Failed to insert user".into()))) {
        Err(CreateUserError::Storage(text)) => assert_eq!(text, "Failed to insert user"),
        other => panic!("expected a storage error, got {:?}", other),
    }
}

#[test]
fn verdict_of_the_existence_query() {
    assert!(existence_verdict(false).is_ok());
    assert!(matches!(existence_verdict(true), Err(UserEmailDuplicateValidationError::AlreadyExists)));
}

#[test]
fn test_find_all_user_usecase_successful() {
    let user1 = User::new("Test User1".into(), format!("test+{}@example.com", UserId::new().to_string()));
    let user2 = User::new("Test User2".into(), format!("test+{}@example.com", UserId::new().to_string()));

    let usecase =
        FindAllUserUsecase::new(ScriptedRepository::holding(vec![user1.clone(), user2.clone()]));
    let output = usecase.execute().unwrap();

    assert_eq!(output, FindAllUserOutput(vec![user1, user2]));
    assert_eq!(output.clone(), output);
}

#[test]
fn find_all_user_usecase_passes_on_a_failure() {
    let usecase = FindAllUserUsecase::new(ScriptedRepository::failing());
    match usecase.execute() {
        Err(UserRepositoryError::Storage(text)) => assert_eq!(text, "Failed to fetch users"),
        other => panic!("expected a storage error, got {:?}", other),
    }
}

#[test]
fn test_find_by_id_usecase_successful() {
    let user = User::new("Test User".into(), format!("test@example.com"));
    let user_id = user.id.clone();

    let usecase = FindUserByIdUsecase::new(ScriptedRepository::holding(vec![user.clone()]));
    let result = usecase.execute(user_id).unwrap();
    assert_eq!(result, user);
}

#[test]
fn find_by_id_usecase_passes_not_found_on() {
    let usecase = FindUserByIdUsecase::new(ScriptedRepository::holding(Vec::new()));
    assert!(matches!(usecase.execute(UserId::new()), Err(UserRepositoryError::NotFound)));
    let repository = usecase.into_repository();
    assert!(repository.handed.is_empty());
}
