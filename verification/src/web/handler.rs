//! The handlers of the routes: each runs a use case on the state it is given
//! and says with which status and body the service answers.

use vstd::prelude::*;

use crate::application::request_response::create_user_request::broken_rules;
use crate::application::request_response::create_user_request::valid_email;
use crate::application::request_response::create_user_request::valid_name;
use crate::application::request_response::create_user_request::CreateUserRequestBody;
use crate::application::request_response::create_user_request::FieldErrorView;
use crate::application::request_response::create_user_request::ValidationErrors;
use crate::application::request_response::create_user_response::shown;
use crate::application::request_response::create_user_response::CreateUserResponseBody;
use crate::application::request_response::find_all_user_response::shown_all;
use crate::application::request_response::find_all_user_response::FindAllUserResponseBody;
use crate::application::request_response::find_user_by_id_request::FindUserByIdRequestParam;
use crate::application::request_response::find_user_by_id_response::FindUserByIdResponseBody;
use crate::application::usecase::create_user::identifier_taken;
use crate::application::usecase::create_user::CreateUserError;
use crate::application::usecase::create_user::CreateUserInput;
use crate::application::usecase::create_user::CreateUserOutput;
use crate::application::usecase::create_user::CreateUserUsecase;
use crate::application::usecase::find_all_user::FindAllUserOutput;
use crate::application::usecase::find_all_user::FindAllUserUsecase;
use crate::application::usecase::find_user_by_id::FindUserByIdOutput;
use crate::application::usecase::find_user_by_id::FindUserByIdUsecase;
use crate::domain::user::UserView;
use crate::domain::user_email_duplicate_validator_interface::UserEmailDuplicateValidatorInterface;
use crate::domain::user_error::UserRepositoryError;
use crate::domain::user_id::is_random_layout;
use crate::domain::user_id::UserId;
use crate::domain::user_repository_interface::first_with_id;
use crate::domain::user_repository_interface::has_email;
use crate::domain::user_repository_interface::has_id;
use crate::domain::user_repository_interface::is_listing_by_name;
use crate::domain::user_repository_interface::UserRepositoryInterface;
use crate::web::problem::plain_problem;
use crate::web::problem::text_view;
use crate::web::problem::Problem;
use crate::web::problem::ProblemValueView;
use crate::web::problem::ProblemView;
use crate::web::problem_type::BAD_REQUEST_STATUS;
use crate::web::problem_type::CONFLICT_STATUS;
use crate::web::problem_type::CREATED;
use crate::web::problem_type::DUPLICATE;
use crate::web::problem_type::INTERNAL_SERVER_ERROR;
use crate::web::problem_type::INTERNAL_SERVER_ERROR_STATUS;
use crate::web::problem_type::NOT_FOUND;
use crate::web::problem_type::NOT_FOUND_STATUS;
use crate::web::problem_type::OK;
use crate::web::problem_type::VALIDATE;

verus! {

/// What the handlers work on: the repository, the validator of emails, and
/// whether the answer to a failure of the store may say what failed. A
/// service in production keeps that to itself.
pub struct AppState<T, U> where
    T: UserRepositoryInterface,
    U: UserEmailDuplicateValidatorInterface<T>,
 {
    pub user_repository: T,
    pub user_email_duplicate_validator: U,
    pub expose_error_detail: bool,
}

/// The extra members of a validation problem: one for each broken rule that
/// has a message, in the order of the rules, with that message.
pub open spec fn field_values(errors: Seq<FieldErrorView>) -> Seq<ProblemValueView>
    decreases errors.len(),
{
    if errors.len() == 0 {
        Seq::empty()
    } else {
        let before = field_values(errors.drop_last());
        match errors.last().message {
            Some(message) => before.push(
                ProblemValueView { key: errors.last().field, messages: seq![message] },
            ),
            None => before,
        }
    }
}

/// The problem of a body that broke the rules `errors`.
pub open spec fn validation_problem(errors: Seq<FieldErrorView>) -> ProblemView {
    ProblemView {
        values: field_values(errors),
        ..plain_problem(BAD_REQUEST_STATUS, "Validation Error"@, VALIDATE@).with_detail(
            "One or more validation rules failed for the provided input"@,
        ).with_instance("/users"@)
    }
}

/// The problem of an email that a stored user has.
pub open spec fn duplicate_email_problem() -> ProblemView {
    plain_problem(CONFLICT_STATUS, "Duplicate User Email"@, DUPLICATE@).with_detail(
        "This email address is already in use"@,
    ).with_instance("/users"@)
}

/// The problem of an identifier that no stored user has.
pub open spec fn user_not_found_problem(instance: Seq<char>) -> ProblemView {
    plain_problem(NOT_FOUND_STATUS, "User Not Found"@, NOT_FOUND@).with_detail(
        "The requested user was not found"@,
    ).with_instance(instance)
}

/// The problem of a path that no route has.
pub open spec fn not_found_problem() -> ProblemView {
    plain_problem(NOT_FOUND_STATUS, "Not Found"@, NOT_FOUND@).with_detail(
        "The requested resource was not found."@,
    )
}

/// The problem of a failure that is not the sender's.
pub open spec fn internal_error_problem(
    instance: Option<Seq<char>>,
    detail: Option<Seq<char>>,
) -> ProblemView {
    ProblemView {
        detail,
        instance,
        ..plain_problem(INTERNAL_SERVER_ERROR_STATUS, "Internal Server Error"@, INTERNAL_SERVER_ERROR@)
    }
}

/// What an answer says of a failure of the store: its words where they may be
/// shown, nothing where they may not.
pub open spec fn shown_detail(text: Seq<char>, expose_error_detail: bool) -> Option<Seq<char>> {
    if expose_error_detail {
        Some(text)
    } else {
        None
    }
}

/// The instance of the problems about one user.
pub open spec fn user_instance(user_id: UserId) -> Seq<char> {
    "/users/"@ + user_id.text()
}

/// The problem of a body that broke rules: status 400, and for each broken
/// rule that has a message a member named after the field.
pub fn validation_problem_of(errors: &ValidationErrors) -> (problem: Problem)
    ensures
        problem@ == validation_problem(errors@),
{
    let mut problem = Problem::new(BAD_REQUEST_STATUS, "Validation Error", VALIDATE).with_detail(
        String::from_str("One or more validation rules failed for the provided input"),
    ).with_instance(String::from_str("/users"));
    let field_errors = errors.field_errors();
    let mut index: usize = 0;
    assert(errors@.subrange(0, 0) =~= Seq::<FieldErrorView>::empty());
    while index < field_errors.len()
        invariant
            index <= field_errors.len(),
            field_errors == &errors.0,
            problem@ == (ProblemView {
                values: field_values(errors@.subrange(0, index as int)),
                ..validation_problem(errors@)
            }),
        decreases field_errors.len() - index,
    {
        let ghost seen = errors@.subrange(0, index as int);
        assert(errors@.subrange(0, index + 1).drop_last() =~= seen);
        assert(errors@.subrange(0, index + 1).last() == errors@[index as int]);
        let error = &field_errors[index];
        match &error.message {
            Some(message) => {
                let mut messages: Vec<String> = Vec::new();
                messages.push(message.clone());
                assert(messages@.map_values(|message: String| message@) =~= seq![message@]);
                problem = problem.with_value(error.field.clone(), messages);
            },
            None => {},
        }
        index = index + 1;
    }
    assert(errors@.subrange(0, index as int) =~= errors@);
    problem
}

/// The problem of a failure that is not the sender's, about `instance`, with
/// the store's words where they may be shown.
pub fn internal_error_problem_of(
    instance: Option<String>,
    text: &str,
    expose_error_detail: bool,
) -> (problem: Problem)
    ensures
        problem@ == internal_error_problem(
            text_view(instance),
            shown_detail(text@, expose_error_detail),
        ),
{
    let problem = Problem::new(
        INTERNAL_SERVER_ERROR_STATUS,
        "Internal Server Error",
        INTERNAL_SERVER_ERROR,
    );
    let problem = match instance {
        Some(instance) => problem.with_instance(instance),
        None => problem,
    };
    if expose_error_detail {
        problem.with_detail(String::from_str(text))
    } else {
        problem
    }
}

/// The answer to a request to create a user, given how the use case ended:
/// 201 with the user, 409 where the email is taken, 500 for anything else.
pub fn create_user_response(
    result: Result<CreateUserOutput, CreateUserError>,
    expose_error_detail: bool,
) -> (response: Result<(u16, CreateUserResponseBody), Problem>)
    ensures
        match result {
            Ok(user) => response matches Ok((status, body)) && status == CREATED && body@ == shown(
                user@,
            ) && UserId::parsed(body@.id) == Some(user.id),
            Err(CreateUserError::DuplicateEmail) => response matches Err(problem) && problem@
                == duplicate_email_problem(),
            Err(CreateUserError::Storage(text)) => response matches Err(problem) && problem@
                == internal_error_problem(
                Some("/users"@),
                shown_detail(text@, expose_error_detail),
            ),
        },
{
    match result {
        Ok(user) => Ok((CREATED, CreateUserResponseBody::from(user))),
        Err(CreateUserError::DuplicateEmail) => Err(
            Problem::new(CONFLICT_STATUS, "Duplicate User Email", DUPLICATE).with_detail(
                String::from_str("This email address is already in use"),
            ).with_instance(String::from_str("/users")),
        ),
        Err(CreateUserError::Storage(text)) => Err(
            internal_error_problem_of(
                Some(String::from_str("/users")),
                text.as_str(),
                expose_error_detail,
            ),
        ),
    }
}

/// The answer to a request for all users, given how the use case ended: 200
/// with the list, 500 where the store failed.
pub fn find_all_user_response(
    result: Result<FindAllUserOutput, UserRepositoryError>,
    expose_error_detail: bool,
) -> (response: Result<(u16, FindAllUserResponseBody), Problem>)
    ensures
        match result {
            Ok(output) => response matches Ok((status, body)) && status == OK && body@
                == shown_all(output@),
            Err(error) => response matches Err(problem) && problem@ == internal_error_problem(
                Some("/users"@),
                shown_detail(error.message_spec(), expose_error_detail),
            ),
        },
{
    match result {
        Ok(output) => Ok((OK, FindAllUserResponseBody::from(output))),
        Err(error) => Err(
            internal_error_problem_of(
                Some(String::from_str("/users")),
                error.message().as_str(),
                expose_error_detail,
            ),
        ),
    }
}

/// The answer to a request for the user `user_id`, given how the use case
/// ended: 200 with the user, 404 where there is none, 500 where the store
/// failed.
pub fn find_user_by_id_response(
    user_id: UserId,
    result: Result<FindUserByIdOutput, UserRepositoryError>,
    expose_error_detail: bool,
) -> (response: Result<(u16, FindUserByIdResponseBody), Problem>)
    ensures
        match result {
            Ok(user) => response matches Ok((status, body)) && status == OK && body@ == shown(
                user@,
            ),
            Err(UserRepositoryError::NotFound) => response matches Err(problem) && problem@
                == user_not_found_problem(user_instance(user_id)),
            Err(UserRepositoryError::Storage(text)) => response matches Err(problem) && problem@
                == internal_error_problem(
                Some(user_instance(user_id)),
                shown_detail(text@, expose_error_detail),
            ),
        },
{
    let id_text = user_id.to_string();
    let instance_uri = String::from_str("/users/").concat(id_text.as_str());
    match result {
        Ok(user) => Ok((OK, FindUserByIdResponseBody::from(user))),
        Err(UserRepositoryError::NotFound) => Err(
            Problem::new(NOT_FOUND_STATUS, "User Not Found", NOT_FOUND).with_detail(
                String::from_str("The requested user was not found"),
            ).with_instance(instance_uri),
        ),
        Err(UserRepositoryError::Storage(text)) => Err(
            internal_error_problem_of(Some(instance_uri), text.as_str(), expose_error_detail),
        ),
    }
}

/// How the answer to a request to create a user hangs together with the body
/// of the request and the rows before and after it, for stores that may fault
/// as `validator_faults` and `repository_faults` say.
///
/// A body that breaks a rule is refused whatever the stores do. A created
/// user is shown as the repository stored it: of a repository that cannot
/// fault that is the name and email of the body under a fresh random
/// identifier, and the one row that is added.
pub open spec fn create_user_handled(
    rows: Seq<UserView>,
    validator_faults: bool,
    repository_faults: bool,
    name: Seq<char>,
    email: Seq<char>,
    expose_error_detail: bool,
    rows_after: Seq<UserView>,
    response: Result<(u16, CreateUserResponseBody), Problem>,
) -> bool {
    if !(valid_name(name) && valid_email(email)) {
        &&& rows_after == rows
        &&& response matches Err(problem)
        &&& problem@ == validation_problem(broken_rules(name, email))
    } else {
        match response {
            Ok((status, body)) => {
                &&& status == CREATED
                &&& exists|shown_id: UserId|
                    body@.id == #[trigger] shown_id.text() && UserId::parsed(body@.id) == Some(
                        shown_id,
                    )
                &&& !validator_faults && !repository_faults ==> !has_email(rows, email)
                &&& !repository_faults ==> exists|id: UserId|
                    {
                        &&& #[trigger] is_random_layout(id.0)
                        &&& UserId::parsed(body@.id) == Some(id)
                        &&& body@ == shown(UserView { id, name, email })
                        &&& !has_id(rows, id)
                        &&& rows_after == rows.push(UserView { id, name, email })
                    }
            },
            Err(problem) => {
                ||| {
                    &&& problem@ == duplicate_email_problem()
                    &&& rows_after == rows
                    &&& !validator_faults && !repository_faults ==> has_email(rows, email)
                }
                ||| {
                    &&& problem@ == internal_error_problem(Some("/users"@), problem@.detail)
                    &&& expose_error_detail || problem@.detail is None
                    &&& !repository_faults ==> rows_after == rows
                    &&& !validator_faults && !repository_faults ==> !has_email(rows, email)
                        && identifier_taken(rows)
                }
            },
        }
    }
}

/// Answers a request to create a user.
///
/// A body that breaks a rule is answered with 400 and the store is not asked.
/// Otherwise the use case runs: 201 with the created user, 409 where the
/// email is taken, 500 where the store failed.
pub fn handle_create_user<T, U>(state: AppState<T, U>, body: CreateUserRequestBody) -> (out: (
    AppState<T, U>,
    Result<(u16, CreateUserResponseBody), Problem>,
)) where T: UserRepositoryInterface, U: UserEmailDuplicateValidatorInterface<T>
    ensures
        out.0.user_email_duplicate_validator == state.user_email_duplicate_validator,
        out.0.expose_error_detail == state.expose_error_detail,
        out.0.user_repository.may_fault() == state.user_repository.may_fault(),
        !body.is_valid() ==> out.0.user_repository == state.user_repository,
        valid_email(body.email@) ==> body.email@.contains('@'),
        create_user_handled(
            state.user_repository.rows(),
            state.user_email_duplicate_validator.may_fault(),
            state.user_repository.may_fault(),
            body.name@,
            body.email@,
            state.expose_error_detail,
            out.0.user_repository.rows(),
            out.1,
        ),
{
    if let Err(validation_errors) = body.validate() {
        let problem = validation_problem_of(&validation_errors);
        return (state, Err(problem));
    }
    let expose_error_detail = state.expose_error_detail;
    let ghost rows = state.user_repository.rows();
    let ghost name = body.name@;
    let ghost email = body.email@;
    let create_user_input = CreateUserInput::from(body);
    let mut usecase = CreateUserUsecase::new(
        state.user_repository,
        state.user_email_duplicate_validator,
    );
    let result = usecase.execute(create_user_input);
    proof {
        if result is Ok {
            let persisted = result->Ok_0;
            assert(shown(persisted@).id == persisted.id.text());
        }
    }
    let response = create_user_response(result, expose_error_detail);
    let (user_repository, user_email_duplicate_validator) = usecase.into_parts();
    (AppState { user_repository, user_email_duplicate_validator, expose_error_detail }, response)
}

/// How the answer to a request for all users hangs together with the rows.
/// A repository that cannot fault is always answered for with 200 and its
/// rows.
pub open spec fn find_all_user_handled(
    rows: Seq<UserView>,
    repository_faults: bool,
    expose_error_detail: bool,
    response: Result<(u16, FindAllUserResponseBody), Problem>,
) -> bool {
    match response {
        Ok((status, body)) => {
            &&& status == OK
            &&& !repository_faults ==> exists|users: Seq<UserView>|
                #[trigger] is_listing_by_name(rows, users) && body@ == shown_all(users)
        },
        Err(problem) => {
            &&& repository_faults
            &&& problem@ == internal_error_problem(Some("/users"@), problem@.detail)
            &&& expose_error_detail || problem@.detail is None
        },
    }
}

/// How the answer to a request for the user `user_id` hangs together with the
/// rows. A repository that cannot fault is answered for with 200 and the user
/// where a row has the identifier, and with 404 where none has.
pub open spec fn find_user_by_id_handled(
    rows: Seq<UserView>,
    repository_faults: bool,
    expose_error_detail: bool,
    user_id: UserId,
    response: Result<(u16, FindUserByIdResponseBody), Problem>,
) -> bool {
    match response {
        Ok((status, body)) => {
            &&& status == OK
            &&& !repository_faults ==> has_id(rows, user_id) && body@ == shown(
                first_with_id(rows, user_id),
            )
        },
        Err(problem) => {
            ||| {
                &&& problem@ == user_not_found_problem(user_instance(user_id))
                &&& !repository_faults ==> !has_id(rows, user_id)
            }
            ||| {
                &&& repository_faults
                &&& problem@ == internal_error_problem(
                    Some(user_instance(user_id)),
                    problem@.detail,
                )
                &&& expose_error_detail || problem@.detail is None
            }
        },
    }
}

/// Answers a request for all users: 200 with every stored user, ordered by
/// name, or 500 where the store failed.
pub fn handle_find_all_user<T, U>(state: AppState<T, U>) -> (out: (
    AppState<T, U>,
    Result<(u16, FindAllUserResponseBody), Problem>,
)) where T: UserRepositoryInterface, U: UserEmailDuplicateValidatorInterface<T>
    ensures
        out.0 == state,
        find_all_user_handled(
            state.user_repository.rows(),
            state.user_repository.may_fault(),
            state.expose_error_detail,
            out.1,
        ),
{
    let expose_error_detail = state.expose_error_detail;
    let usecase = FindAllUserUsecase::new(state.user_repository);
    let result = usecase.execute();
    proof {
        if result is Ok && !usecase.repository().may_fault() {
            assert(is_listing_by_name(usecase.repository().rows(), (result->Ok_0)@));
        }
    }
    let response = find_all_user_response(result, expose_error_detail);
    let user_repository = usecase.into_repository();
    (
        AppState {
            user_repository,
            user_email_duplicate_validator: state.user_email_duplicate_validator,
            expose_error_detail,
        },
        response,
    )
}

/// Answers a request for one user: 200 with the user, 404 where no stored
/// user has the identifier, 500 where the store failed.
pub fn handle_find_user_by_id<T, U>(state: AppState<T, U>, user_id: FindUserByIdRequestParam) -> (out:
    (AppState<T, U>, Result<(u16, FindUserByIdResponseBody), Problem>)) where
    T: UserRepositoryInterface,
    U: UserEmailDuplicateValidatorInterface<T>,

    ensures
        out.0 == state,
        find_user_by_id_handled(
            state.user_repository.rows(),
            state.user_repository.may_fault(),
            state.expose_error_detail,
            user_id.id,
            out.1,
        ),
{
    let expose_error_detail = state.expose_error_detail;
    let usecase = FindUserByIdUsecase::new(state.user_repository);
    let user_id = user_id.id;
    let result = usecase.execute(user_id);
    let response = find_user_by_id_response(user_id, result, expose_error_detail);
    let user_repository = usecase.into_repository();
    (
        AppState {
            user_repository,
            user_email_duplicate_validator: state.user_email_duplicate_validator,
            expose_error_detail,
        },
        response,
    )
}

/// Answers a request that no route takes: 404.
pub fn handle_not_found() -> (problem: Problem)
    ensures
        problem@ == not_found_problem(),
{
    Problem::new(NOT_FOUND_STATUS, "Not Found", NOT_FOUND).with_detail(
        String::from_str("The requested resource was not found."),
    )
}

} // verus!
