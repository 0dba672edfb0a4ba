//! What holds of the service over one request and over several, proved from
//! what the handlers promise.

use vstd::prelude::*;

use crate::application::request_response::create_user_request::valid_email;
use crate::application::request_response::create_user_request::valid_name;
use crate::application::request_response::create_user_response::shown;
use crate::application::request_response::create_user_response::CreateUserResponseBody;
use crate::application::request_response::find_all_user_response::shown_all;
use crate::application::request_response::find_all_user_response::FindAllUserResponseBody;
use crate::application::request_response::find_user_by_id_response::FindUserByIdResponseBody;
use crate::application::usecase::create_user::identifier_taken;
use crate::domain::user::UserView;
use crate::domain::user_id::is_random_layout;
use crate::domain::user_id::UserId;
use crate::domain::user_repository_interface::first_with_id;
use crate::domain::user_repository_interface::has_email;
use crate::domain::user_repository_interface::has_id;
use crate::domain::user_repository_interface::is_listing_by_name;
use crate::domain::user_repository_interface::lemma_first_with_id_at;
use crate::domain::user_repository_interface::lemma_first_with_id_survives_push;
use crate::domain::user_repository_interface::lemma_listing_shows_row;
use crate::web::handler::create_user_handled;
use crate::web::handler::duplicate_email_problem;
use crate::web::handler::find_all_user_handled;
use crate::web::handler::find_user_by_id_handled;
use crate::web::handler::user_instance;
use crate::web::handler::user_not_found_problem;
use crate::web::problem::Problem;
use crate::web::problem_type::CREATED;
use crate::web::problem_type::OK;

verus! {

/// A request to create a user never takes a stored row away and never
/// changes one: the rows before it are the first rows after it. This holds of
/// a repository that cannot fault.
pub proof fn lemma_create_keeps_stored_rows(
    rows: Seq<UserView>,
    validator_faults: bool,
    name: Seq<char>,
    email: Seq<char>,
    expose_error_detail: bool,
    rows_after: Seq<UserView>,
    response: Result<(u16, CreateUserResponseBody), Problem>,
)
    requires
        create_user_handled(
            rows,
            validator_faults,
            false,
            name,
            email,
            expose_error_detail,
            rows_after,
            response,
        ),
    ensures
        rows.len() <= rows_after.len() <= rows.len() + 1,
        rows_after.subrange(0, rows.len() as int) == rows,
        response is Ok <==> rows_after.len() == rows.len() + 1,
{
    assert(rows_after.subrange(0, rows.len() as int) =~= rows);
}

/// A valid body whose email no stored user has is answered with 201, and the
/// answer repeats name and email under an identifier of 36 characters that
/// no stored user had; the new user is stored behind the others. This holds
/// where neither the validator nor the repository faults. The one way out
/// is a fresh identifier that is taken already, which is answered with 500.
pub proof fn lemma_valid_body_creates_user(
    rows: Seq<UserView>,
    name: Seq<char>,
    email: Seq<char>,
    expose_error_detail: bool,
    rows_after: Seq<UserView>,
    response: Result<(u16, CreateUserResponseBody), Problem>,
)
    requires
        create_user_handled(rows, false, false, name, email, expose_error_detail, rows_after, response),
        valid_name(name),
        valid_email(email),
        !has_email(rows, email),
    ensures
        match response {
            Ok((status, body)) => {
                &&& status == CREATED
                &&& body@.name == name
                &&& body@.email == email
                &&& body@.id.len() == 36
                &&& exists|id: UserId|
                    {
                        &&& !#[trigger] has_id(rows, id)
                        &&& body@.id == id.text()
                        &&& rows_after == rows.push(UserView { id, name, email })
                    }
            },
            Err(problem) => {
                &&& identifier_taken(rows)
                &&& problem@.status == 500
                &&& rows_after == rows
            },
        },
{
    if response is Ok {
        let body = response->Ok_0.1;
        let id = choose|id: UserId|
            {
                &&& #[trigger] is_random_layout(id.0)
                &&& body@ == shown(UserView { id, name, email })
                &&& !has_id(rows, id)
                &&& rows_after == rows.push(UserView { id, name, email })
            };
        assert(!has_id(rows, id));
    }
}

/// A body that breaks a rule is answered with 400 and the problem that names
/// the broken rules, whatever the store holds, and the store keeps its rows.
pub proof fn lemma_invalid_body_is_refused(
    rows: Seq<UserView>,
    validator_faults: bool,
    repository_faults: bool,
    name: Seq<char>,
    email: Seq<char>,
    expose_error_detail: bool,
    rows_after: Seq<UserView>,
    response: Result<(u16, CreateUserResponseBody), Problem>,
)
    requires
        create_user_handled(
            rows,
            validator_faults,
            repository_faults,
            name,
            email,
            expose_error_detail,
            rows_after,
            response,
        ),
        !valid_name(name) || !valid_email(email),
    ensures
        response matches Err(problem) && problem@.status == 400 && problem@.problem_type
            == "validation"@,
        rows_after == rows,
{
}

/// Of two requests to create a user with the same email, one after the
/// other, the second is answered with 409 where the first was answered with
/// 201, and it stores nothing. This holds where neither store can fault and
/// the second body has a valid name.
pub proof fn lemma_second_use_of_email_conflicts(
    rows: Seq<UserView>,
    email: Seq<char>,
    expose_error_detail: bool,
    first_name: Seq<char>,
    rows_between: Seq<UserView>,
    first: Result<(u16, CreateUserResponseBody), Problem>,
    second_name: Seq<char>,
    rows_after: Seq<UserView>,
    second: Result<(u16, CreateUserResponseBody), Problem>,
)
    requires
        create_user_handled(
            rows,
            false,
            false,
            first_name,
            email,
            expose_error_detail,
            rows_between,
            first,
        ),
        first is Ok,
        create_user_handled(
            rows_between,
            false,
            false,
            second_name,
            email,
            expose_error_detail,
            rows_after,
            second,
        ),
        valid_name(second_name),
    ensures
        second matches Err(problem) && problem@ == duplicate_email_problem(),
        duplicate_email_problem().status == 409,
        duplicate_email_problem().problem_type == "duplicate-email"@,
        rows_after == rows_between,
{
    let id = choose|id: UserId|
        #[trigger] is_random_layout(id.0) && rows_between == rows.push(
            UserView { id, name: first_name, email },
        );
    assert(rows_between[rows.len() as int].email == email);
    assert(has_email(rows_between, email));
}

/// An email that a stored user has is refused with 409 however the store
/// came to hold it, where neither store can fault.
pub proof fn lemma_taken_email_conflicts(
    rows: Seq<UserView>,
    name: Seq<char>,
    email: Seq<char>,
    expose_error_detail: bool,
    rows_after: Seq<UserView>,
    response: Result<(u16, CreateUserResponseBody), Problem>,
)
    requires
        create_user_handled(rows, false, false, name, email, expose_error_detail, rows_after, response),
        valid_name(name),
        valid_email(email),
        has_email(rows, email),
    ensures
        response matches Err(problem) && problem@ == duplicate_email_problem(),
        rows_after == rows,
{
}

/// The list of all users of a repository that cannot fault is answered with
/// 200 and shows every stored user, each with its identifier, name and
/// email, and as many users as are stored.
pub proof fn lemma_list_shows_stored_user(
    rows: Seq<UserView>,
    expose_error_detail: bool,
    response: Result<(u16, FindAllUserResponseBody), Problem>,
    index: int,
)
    requires
        find_all_user_handled(rows, false, expose_error_detail, response),
        0 <= index < rows.len(),
    ensures
        response matches Ok((status, body)) && status == OK && body@.len() == rows.len()
            && body@.contains(shown(rows[index])),
{
    let body = response->Ok_0.1;
    let users = choose|users: Seq<UserView>| #[trigger]
        is_listing_by_name(rows, users) && body@ == shown_all(users);
    lemma_listing_shows_row(rows, users, index);
    let at = choose|i: int| 0 <= i < users.len() && users[i] == rows[index];
    assert(shown_all(users)[at] == shown(rows[index]));
}

/// After three users were created one after the other, the list of all users
/// shows all three, each as the answer to its creation showed it. This holds
/// of a repository that cannot fault.
pub proof fn lemma_list_shows_created_users(
    rows: Seq<UserView>,
    validator_faults: bool,
    expose_error_detail: bool,
    names: (Seq<char>, Seq<char>, Seq<char>),
    emails: (Seq<char>, Seq<char>, Seq<char>),
    rows_after: (Seq<UserView>, Seq<UserView>, Seq<UserView>),
    created: (
        Result<(u16, CreateUserResponseBody), Problem>,
        Result<(u16, CreateUserResponseBody), Problem>,
        Result<(u16, CreateUserResponseBody), Problem>,
    ),
    listed: Result<(u16, FindAllUserResponseBody), Problem>,
)
    requires
        create_user_handled(
            rows,
            validator_faults,
            false,
            names.0,
            emails.0,
            expose_error_detail,
            rows_after.0,
            created.0,
        ),
        create_user_handled(
            rows_after.0,
            validator_faults,
            false,
            names.1,
            emails.1,
            expose_error_detail,
            rows_after.1,
            created.1,
        ),
        create_user_handled(
            rows_after.1,
            validator_faults,
            false,
            names.2,
            emails.2,
            expose_error_detail,
            rows_after.2,
            created.2,
        ),
        created.0 is Ok,
        created.1 is Ok,
        created.2 is Ok,
        find_all_user_handled(rows_after.2, false, expose_error_detail, listed),
    ensures
        listed is Ok,
        ({
            let all = listed->Ok_0.1@;
            let first = created.0->Ok_0.1@;
            let second = created.1->Ok_0.1@;
            let third = created.2->Ok_0.1@;
            &&& all.contains(first)
            &&& all.contains(second)
            &&& all.contains(third)
            &&& first.name == names.0 && first.email == emails.0
            &&& second.name == names.1 && second.email == emails.1
            &&& third.name == names.2 && third.email == emails.2
        }),
{
    let n = rows.len() as int;
    let first = created.0->Ok_0.1;
    let second = created.1->Ok_0.1;
    let third = created.2->Ok_0.1;
    let id0 = choose|id: UserId|
        #[trigger] is_random_layout(id.0) && first@ == shown(
            UserView { id, name: names.0, email: emails.0 },
        ) && rows_after.0 == rows.push(UserView { id, name: names.0, email: emails.0 });
    let id1 = choose|id: UserId|
        #[trigger] is_random_layout(id.0) && second@ == shown(
            UserView { id, name: names.1, email: emails.1 },
        ) && rows_after.1 == rows_after.0.push(UserView { id, name: names.1, email: emails.1 });
    let id2 = choose|id: UserId|
        #[trigger] is_random_layout(id.0) && third@ == shown(
            UserView { id, name: names.2, email: emails.2 },
        ) && rows_after.2 == rows_after.1.push(UserView { id, name: names.2, email: emails.2 });
    assert(rows_after.2[n] == rows_after.0[n]);
    assert(rows_after.2[n + 1] == rows_after.1[n + 1]);
    assert(shown(rows_after.2[n]) == first@);
    assert(shown(rows_after.2[n + 1]) == second@);
    assert(shown(rows_after.2[n + 2]) == third@);
    lemma_list_shows_stored_user(rows_after.2, expose_error_detail, listed, n);
    lemma_list_shows_stored_user(rows_after.2, expose_error_detail, listed, n + 1);
    lemma_list_shows_stored_user(rows_after.2, expose_error_detail, listed, n + 2);
}

/// A user that was created is found under the identifier that the answer to
/// its creation gave, read back from its text, and is shown as that answer
/// showed it. This holds where the repository does not fault.
pub proof fn lemma_created_user_is_found(
    rows: Seq<UserView>,
    validator_faults: bool,
    name: Seq<char>,
    email: Seq<char>,
    expose_error_detail: bool,
    rows_after: Seq<UserView>,
    created: Result<(u16, CreateUserResponseBody), Problem>,
    user_id: UserId,
    found: Result<(u16, FindUserByIdResponseBody), Problem>,
)
    requires
        create_user_handled(
            rows,
            validator_faults,
            false,
            name,
            email,
            expose_error_detail,
            rows_after,
            created,
        ),
        created matches Ok((_, body)) && UserId::parsed(body@.id) == Some(user_id),
        find_user_by_id_handled(rows_after, false, expose_error_detail, user_id, found),
    ensures
        found is Ok,
        found->Ok_0.0 == OK,
        found->Ok_0.1@ == created->Ok_0.1@,
{
    let before = created->Ok_0.1;
    let id = choose|id: UserId|
        {
            &&& #[trigger] is_random_layout(id.0)
            &&& !has_id(rows, id)
            &&& rows_after == rows.push(UserView { id, name, email })
            &&& before@ == shown(UserView { id, name, email })
            &&& UserId::parsed(before@.id) == Some(id)
        };
    assert(id == user_id);
    assert forall|i: int| 0 <= i < rows.len() implies (#[trigger] rows_after[i]).id != id by {
        assert(rows_after[i] == rows[i]);
    }
    lemma_first_with_id_at(rows_after, id, rows.len() as int);
}

/// A user that is found stays found, and is shown the same, after any
/// further request to create a user. This holds of a repository that cannot
/// fault.
pub proof fn lemma_found_user_stays_found(
    rows: Seq<UserView>,
    validator_faults: bool,
    name: Seq<char>,
    email: Seq<char>,
    expose_error_detail: bool,
    rows_after: Seq<UserView>,
    created: Result<(u16, CreateUserResponseBody), Problem>,
    user_id: UserId,
)
    requires
        create_user_handled(
            rows,
            validator_faults,
            false,
            name,
            email,
            expose_error_detail,
            rows_after,
            created,
        ),
        has_id(rows, user_id),
    ensures
        has_id(rows_after, user_id),
        first_with_id(rows_after, user_id) == first_with_id(rows, user_id),
{
    if created is Ok {
        let id = choose|id: UserId|
            {
                &&& #[trigger] is_random_layout(id.0)
                &&& rows_after == rows.push(UserView { id, name, email })
            };
        lemma_first_with_id_survives_push(rows, user_id, UserView { id, name, email });
    }
}

/// An identifier that no stored user has is answered with 404 and the
/// problem of a user that was not found, where the repository does not
/// fault.
pub proof fn lemma_unknown_user_is_not_found(
    rows: Seq<UserView>,
    expose_error_detail: bool,
    user_id: UserId,
    found: Result<(u16, FindUserByIdResponseBody), Problem>,
)
    requires
        find_user_by_id_handled(rows, false, expose_error_detail, user_id, found),
        !has_id(rows, user_id),
    ensures
        found matches Err(problem) && problem@ == user_not_found_problem(user_instance(user_id)),
        user_not_found_problem(user_instance(user_id)).status == 404,
{
}

} // verus!
