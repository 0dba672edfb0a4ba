use user_service::application::request_response::create_user_response::CreateUserResponseBody;
use user_service::application::request_response::find_all_user_response::FindAllUserResponseBody;
use user_service::application::request_response::find_all_user_response::FindAllUserResponseBodyItem;
use user_service::application::request_response::find_user_by_id_request::FindUserByIdRequestParam;
use user_service::application::request_response::find_user_by_id_response::FindUserByIdResponseBody;
use user_service::application::usecase::create_user::CreateUserOutput;
use user_service::application::usecase::find_all_user::FindAllUserOutput;
use user_service::application::usecase::find_user_by_id::FindUserByIdOutput;
use user_service::domain::user::User;
use user_service::domain::user_id::UserId;
use uuid::Uuid;

#[test]
fn test_create_user_output() {
    let id = UserId::new();
    let output = CreateUserOutput {
        id: id.clone(),
        name: "Test User".to_string(),
        email: "test@example.com".to_string(),
    };

    let response: CreateUserResponseBody = output.into();

    assert_eq!(response.id, Uuid::from_u128(id.0).to_string());
    assert_eq!(response.id, id.to_string());
    assert_eq!(response.name, "Test User");
    assert_eq!(response.email, "test@example.com");
}

#[test]
fn test_find_all_user_output() {
    let user1 = User {
        id: UserId::new(),
        name: "Alice".to_string(),
        email: "alice@example.com".to_string(),
    };
    let user2 = User {
        id: UserId::new(),
        name: "Bob".to_string(),
        email: "bob@example.com".to_string(),
    };

    let output = FindAllUserOutput(vec![user1.clone(), user2.clone()]);
    let response: FindAllUserResponseBody = output.into();

    assert_eq!(response.0.len(), 2);

    assert_eq!(response.0[0].id, user1.id.to_string());
    assert_eq!(response.0[0].name, user1.name);
    assert_eq!(response.0[0].email, user1.email);

    assert_eq!(response.0[1].id, user2.id.to_string());
    assert_eq!(response.0[1].name, user2.name);
    assert_eq!(response.0[1].email, user2.email);
}

#[test]
fn test_find_by_id_output() {
    let id = UserId::new();
    let output = FindUserByIdOutput {
        id: id.clone(),
        name: "Test User".to_string(),
        email: "test@example.com".to_string(),
    };

    let response: FindUserByIdResponseBody = output.into();
    assert_eq!(response.id, Uuid::from_u128(id.0).to_string());
    assert_eq!(response.name, "Test User");
    assert_eq!(response.email, "test@example.com");
}

#[test]
fn identifier_is_shown_in_canonical_text() {
    let user = User {
        id: UserId(0x79ca0feb84f24e75ae07fc0dd877f9ce),
        name: "Test User".to_string(),
        email: "test@example.com".to_string(),
    };
    let created: CreateUserResponseBody = user.clone().into();
    assert_eq!(created.id, "79ca0feb-84f2-4e75-ae07-fc0dd877f9ce");
    let found: FindUserByIdResponseBody = user.clone().into();
    assert_eq!(found.id, "79ca0feb-84f2-4e75-ae07-fc0dd877f9ce");
    let item: FindAllUserResponseBodyItem = user.into();
    assert_eq!(item.id, "79ca0feb-84f2-4e75-ae07-fc0dd877f9ce");
}

#[test]
fn empty_list_is_shown_as_empty_list() {
    let response: FindAllUserResponseBody = FindAllUserOutput(Vec::new()).into();
    assert!(response.0.is_empty());
}

#[test]
fn path_parameter_is_read_from_identifier_text() {
    let param = FindUserByIdRequestParam::parse("79ca0feb-84f2-4e75-ae07-fc0dd877f9ce").unwrap();
    assert_eq!(param.id, UserId(0x79ca0feb84f24e75ae07fc0dd877f9ce));
    assert!(FindUserByIdRequestParam::parse("not-a-uuid").is_none());
    assert!(FindUserByIdRequestParam::parse("").is_none());
    assert!(FindUserByIdRequestParam::parse("79ca0feb-84f2-4e75-ae07-fc0dd877f9c").is_none());
}
