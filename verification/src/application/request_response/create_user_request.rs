//! The body of a request to create a user, and the rules it has to meet.

use vstd::prelude::*;
use vstd::std_specs::convert::FromSpecImpl;

use crate::application::usecase::create_user::CreateUserInput;

verus! {

/// The least number of characters of a name.
pub const NAME_MIN_LENGTH: u64 = 2;

/// The greatest number of characters of a name.
pub const NAME_MAX_LENGTH: u64 = 50;

/// What `validator::ValidateEmail::validate_email` says of a text: whether it
/// is an email address.
pub uninterp spec fn valid_email(text: Seq<char>) -> bool;

/// Asks `validator::ValidateEmail::validate_email` whether a text is an email
/// address. The answer is named: the function goes by the address grammar of
/// HTML forms and by the rules for international domain names. One thing is
/// claimed of it beside the name: before anything else the function rejects
/// a text that holds no `@`.
#[verifier::external_body]
fn email_is_well_formed(text: &str) -> (valid: bool)
    ensures
        valid == valid_email(text@),
        valid ==> text@.contains('@'),
{
    validator::ValidateEmail::validate_email(&text)
}

/// Asks `validator::ValidateLength::validate_length` whether a text has at
/// least `min` and at most `max` characters. The function counts the
/// characters of the text and compares the count with both bounds.
#[verifier::external_body]
fn length_is_within(text: &str, min: u64, max: u64) -> (within: bool)
    ensures
        within == (min <= text@.len() <= max),
{
    validator::ValidateLength::validate_length(text, Some(min), Some(max), None)
}

/// Whether a name has an accepted length.
pub open spec fn valid_name(name: Seq<char>) -> bool {
    NAME_MIN_LENGTH <= name.len() <= NAME_MAX_LENGTH
}

/// One rule that a field of a request body broke.
#[derive(Debug)]
pub struct FieldError {
    /// The name of the field.
    pub field: String,
    /// The name of the rule.
    pub code: String,
    /// What to tell the sender, where the rule has a message.
    pub message: Option<String>,
}

/// What a broken rule is.
pub struct FieldErrorView {
    pub field: Seq<char>,
    pub code: Seq<char>,
    pub message: Option<Seq<char>>,
}

impl View for FieldError {
    type V = FieldErrorView;

    open spec fn view(&self) -> FieldErrorView {
        FieldErrorView {
            field: self.field@,
            code: self.code@,
            message: match self.message {
                Some(text) => Some(text@),
                None => None,
            },
        }
    }
}

/// The rules that a request body broke, in the order of its fields. It is
/// never empty where a validation returned it.
#[derive(Debug)]
pub struct ValidationErrors(pub Vec<FieldError>);

impl View for ValidationErrors {
    type V = Seq<FieldErrorView>;

    open spec fn view(&self) -> Seq<FieldErrorView> {
        self.0@.map_values(|error: FieldError| error@)
    }
}

impl ValidationErrors {
    /// The broken rules, in the order of the fields.
    pub fn field_errors(&self) -> (errors: &Vec<FieldError>)
        ensures
            errors == &self.0,
    {
        &self.0
    }
}

/// The broken rule of a name of the wrong length.
pub open spec fn name_length_error() -> FieldErrorView {
    FieldErrorView {
        field: "name"@,
        code: "length"@,
        message: Some("Name must be between 3 and 50 characters"@),
    }
}

/// The broken rule of an email that is no address.
pub open spec fn email_format_error() -> FieldErrorView {
    FieldErrorView { field: "email"@, code: "email"@, message: None }
}

/// The rules that a name and an email break.
pub open spec fn broken_rules(name: Seq<char>, email: Seq<char>) -> Seq<FieldErrorView> {
    let of_name = if valid_name(name) {
        Seq::<FieldErrorView>::empty()
    } else {
        seq![name_length_error()]
    };
    let of_email = if valid_email(email) {
        Seq::<FieldErrorView>::empty()
    } else {
        seq![email_format_error()]
    };
    of_name + of_email
}

/// What a request to create a user brings.
#[derive(Debug)]
pub struct CreateUserRequestBody {
    pub name: String,
    pub email: String,
}

impl CreateUserRequestBody {
    /// Whether the body meets every rule.
    pub open spec fn is_valid(&self) -> bool {
        valid_name(self.name@) && valid_email(self.email@)
    }

    /// Holds the body to its rules: the name has 2 to 50 characters and the
    /// email is an address, which no text without `@` is. Returns every rule
    /// that is broken.
    pub fn validate(&self) -> (result: Result<(), ValidationErrors>)
        ensures
            result is Ok <==> self.is_valid(),
            result matches Err(errors) ==> errors@ == broken_rules(self.name@, self.email@),
            valid_email(self.email@) ==> self.email@.contains('@'),
    {
        let mut errors: Vec<FieldError> = Vec::new();
        if !length_is_within(self.name.as_str(), NAME_MIN_LENGTH, NAME_MAX_LENGTH) {
            errors.push(
                FieldError {
                    field: String::from_str("name"),
                    code: String::from_str("length"),
                    message: Some(String::from_str("Name must be between 3 and 50 characters")),
                },
            );
        }
        if !email_is_well_formed(self.email.as_str()) {
            errors.push(
                FieldError {
                    field: String::from_str("email"),
                    code: String::from_str("email"),
                    message: None,
                },
            );
        }
        if errors.len() == 0 {
            Ok(())
        } else {
            let errors = ValidationErrors(errors);
            assert(errors@ =~= broken_rules(self.name@, self.email@));
            Err(errors)
        }
    }
}

impl From<CreateUserRequestBody> for CreateUserInput {
    fn from(body: CreateUserRequestBody) -> (input: Self) {
        CreateUserInput::new(body.name, body.email)
    }
}

impl FromSpecImpl<CreateUserRequestBody> for CreateUserInput {
    open spec fn obeys_from_spec() -> bool {
        true
    }

    open spec fn from_spec(body: CreateUserRequestBody) -> Self {
        CreateUserInput { name: body.name, email: body.email }
    }
}

} // verus!
