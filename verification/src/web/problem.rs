//! Problem details: the body of every answer that is not a success.

use vstd::prelude::*;

verus! {

/// A member that a problem carries beside the standard ones: the messages for
/// one field of the request.
#[derive(Debug)]
pub struct ProblemValue {
    pub key: String,
    pub messages: Vec<String>,
}

/// What an extra member is.
pub struct ProblemValueView {
    pub key: Seq<char>,
    pub messages: Seq<Seq<char>>,
}

impl View for ProblemValue {
    type V = ProblemValueView;

    open spec fn view(&self) -> ProblemValueView {
        ProblemValueView {
            key: self.key@,
            messages: self.messages@.map_values(|message: String| message@),
        }
    }
}

/// A problem: the status of the response, a title and a type, and where they
/// are known a detail, the instance that the problem is about and messages
/// for single fields.
#[derive(Debug)]
pub struct Problem {
    pub status: u16,
    pub title: String,
    pub problem_type: String,
    pub detail: Option<String>,
    pub instance: Option<String>,
    pub values: Vec<ProblemValue>,
}

/// What a problem is.
pub struct ProblemView {
    pub status: u16,
    pub title: Seq<char>,
    pub problem_type: Seq<char>,
    pub detail: Option<Seq<char>>,
    pub instance: Option<Seq<char>>,
    pub values: Seq<ProblemValueView>,
}

/// What an optional text is.
pub open spec fn text_view(text: Option<String>) -> Option<Seq<char>> {
    match text {
        Some(text) => Some(text@),
        None => None,
    }
}

impl View for Problem {
    type V = ProblemView;

    open spec fn view(&self) -> ProblemView {
        ProblemView {
            status: self.status,
            title: self.title@,
            problem_type: self.problem_type@,
            detail: text_view(self.detail),
            instance: text_view(self.instance),
            values: self.values@.map_values(|value: ProblemValue| value@),
        }
    }
}

/// The problem with a status, a title and a type and nothing else.
pub open spec fn plain_problem(
    status: u16,
    title: Seq<char>,
    problem_type: Seq<char>,
) -> ProblemView {
    ProblemView {
        status,
        title,
        problem_type,
        detail: None,
        instance: None,
        values: Seq::empty(),
    }
}

impl ProblemView {
    /// The same problem with the detail `detail`.
    pub open spec fn with_detail(self, detail: Seq<char>) -> ProblemView {
        ProblemView { detail: Some(detail), ..self }
    }

    /// The same problem about the instance `instance`.
    pub open spec fn with_instance(self, instance: Seq<char>) -> ProblemView {
        ProblemView { instance: Some(instance), ..self }
    }

    /// The same problem with one more extra member.
    pub open spec fn with_value(self, key: Seq<char>, messages: Seq<Seq<char>>) -> ProblemView {
        ProblemView { values: self.values.push(ProblemValueView { key, messages }), ..self }
    }
}

impl Problem {
    /// A problem with a status, a title and a type and nothing else.
    pub fn new(status: u16, title: &str, problem_type: &str) -> (problem: Self)
        ensures
            problem@ == plain_problem(status, title@, problem_type@),
    {
        let problem = Problem {
            status,
            title: String::from_str(title),
            problem_type: String::from_str(problem_type),
            detail: None,
            instance: None,
            values: Vec::new(),
        };
        assert(problem@.values =~= Seq::empty());
        problem
    }

    /// Sets the detail.
    pub fn with_detail(self, detail: String) -> (problem: Self)
        ensures
            problem@ == self@.with_detail(detail@),
    {
        Problem { detail: Some(detail), ..self }
    }

    /// Sets the instance.
    pub fn with_instance(self, instance: String) -> (problem: Self)
        ensures
            problem@ == self@.with_instance(instance@),
    {
        Problem { instance: Some(instance), ..self }
    }

    /// Adds the messages for one field.
    pub fn with_value(self, key: String, messages: Vec<String>) -> (problem: Self)
        ensures
            problem@ == self@.with_value(
                key@,
                messages@.map_values(|message: String| message@),
            ),
    {
        let mut problem = self;
        let ghost before = problem@;
        problem.values.push(ProblemValue { key, messages });
        assert(problem@.values =~= before.values.push(
            ProblemValueView { key: key@, messages: messages@.map_values(|message: String| message@) },
        ));
        problem
    }
}

} // verus!
