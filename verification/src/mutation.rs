//! The project mutation client.
//!
//! Adding an issue or pull request to a Projects-v2 board is one GraphQL
//! mutation, `addProjectV2ItemById`. This module builds the request — the
//! mutation text is fixed, the project and content ids travel as bound
//! variables, never interpolated into the query — and classifies what came
//! back into the handler's own taxonomy: transport and serialization
//! failures are kept apart from GraphQL-level errors, and a reply that
//! carries neither an item id nor an error is flagged as ambiguous rather
//! than swallowed.

use vstd::prelude::*;
use vstd::string::StringExecFns;

verus! {

/// Category of a GraphQL-level error, read off the structured error type
/// in the response's error list.
#[derive(Clone, Copy, Debug, PartialEq, Eq)]
pub enum GraphQlErrorCategory {
    /// The bearer token was expired, invalid, or lacked a scope.
    Unauthorized,
    /// The caller exhausted its rate limit.
    RateLimited,
    /// The project or content id names nothing.
    NotFound,
    /// The input was malformed.
    Validation,
    /// An upstream fault with no better classification.
    Service,
}

/// One GraphQL-level error from the response's error list.
pub struct GraphQlApiError {
    /// The structured category of the error.
    pub category: GraphQlErrorCategory,
    /// The upstream error message.
    pub message: String,
}

/// What the attempt to deliver the mutation produced, before
/// classification. Transport and serialization failures are distinguished
/// from a parsed response because they are plausibly transient while
/// GraphQL application errors are not.
pub enum GraphQlCallResult {
    /// The request went out and a response parsed: the item id selected by
    /// the mutation, if the response carried one, and the GraphQL-level
    /// error list.
    Response { item_id: Option<String>, errors: Vec<GraphQlApiError> },
    /// The request never yielded a usable response: DNS, TLS, connection
    /// failure, or a timeout.
    TransportFailure { message: String },
    /// The request or the response could not be serialized or parsed.
    SerializationFailure { message: String },
}

/// Why a mutation failed, in the handler's own taxonomy.
#[derive(Clone, Copy, Debug, PartialEq, Eq)]
pub enum MutationFailureKind {
    /// The request never yielded a usable response.
    Transport,
    /// The request or response could not be (de)serialized.
    Serialization,
    /// The bearer token was expired, invalid, or lacked a scope.
    Unauthorized,
    /// The caller exhausted its rate limit.
    RateLimited,
    /// The project or content id names nothing.
    NotFound,
    /// The input was malformed.
    Validation,
    /// An upstream GitHub fault.
    ServiceError,
    /// The response carried neither an item id nor an error: a documented
    /// edge case of the upstream API, surfaced instead of swallowed.
    Ambiguous,
}

/// The outcome of one mutation call: the id of the created project item,
/// or a classified failure with the upstream messages.
pub enum MutationOutcome {
    /// The response carried a non-null item id.
    Success { item_id: String },
    /// Anything else, classified.
    Failure { kind: MutationFailureKind, message: String },
}

/// Whether two string slices hold the same characters.
fn str_eq(a: &str, b: &str) -> (r: bool)
    ensures
        r == (a@ == b@),
{
    let owned_a = a.to_owned();
    let owned_b = b.to_owned();
    owned_a == owned_b
}

/// The category for a structured error type string of GitHub's GraphQL
/// API. Unrecognized types fall to `Service`.
pub open spec fn spec_categorize(code: Seq<char>) -> GraphQlErrorCategory {
    if code == "FORBIDDEN"@ || code == "INSUFFICIENT_SCOPES"@ {
        GraphQlErrorCategory::Unauthorized
    } else if code == "RATE_LIMITED"@ {
        GraphQlErrorCategory::RateLimited
    } else if code == "NOT_FOUND"@ {
        GraphQlErrorCategory::NotFound
    } else if code == "UNPROCESSABLE"@ {
        GraphQlErrorCategory::Validation
    } else {
        GraphQlErrorCategory::Service
    }
}

/// Classify the structured error type string of a GraphQL-level error.
pub fn categorize_error_code(code: &str) -> (r: GraphQlErrorCategory)
    ensures
        r == spec_categorize(code@),
{
    if str_eq(code, "FORBIDDEN") || str_eq(code, "INSUFFICIENT_SCOPES") {
        GraphQlErrorCategory::Unauthorized
    } else if str_eq(code, "RATE_LIMITED") {
        GraphQlErrorCategory::RateLimited
    } else if str_eq(code, "NOT_FOUND") {
        GraphQlErrorCategory::NotFound
    } else if str_eq(code, "UNPROCESSABLE") {
        GraphQlErrorCategory::Validation
    } else {
        GraphQlErrorCategory::Service
    }
}

/// The failure kind a GraphQL-level error category maps to.
pub open spec fn spec_kind_of_category(c: GraphQlErrorCategory) -> MutationFailureKind {
    match c {
        GraphQlErrorCategory::Unauthorized => MutationFailureKind::Unauthorized,
        GraphQlErrorCategory::RateLimited => MutationFailureKind::RateLimited,
        GraphQlErrorCategory::NotFound => MutationFailureKind::NotFound,
        GraphQlErrorCategory::Validation => MutationFailureKind::Validation,
        GraphQlErrorCategory::Service => MutationFailureKind::ServiceError,
    }
}

fn kind_of_category(c: GraphQlErrorCategory) -> (r: MutationFailureKind)
    ensures
        r == spec_kind_of_category(c),
{
    match c {
        GraphQlErrorCategory::Unauthorized => MutationFailureKind::Unauthorized,
        GraphQlErrorCategory::RateLimited => MutationFailureKind::RateLimited,
        GraphQlErrorCategory::NotFound => MutationFailureKind::NotFound,
        GraphQlErrorCategory::Validation => MutationFailureKind::Validation,
        GraphQlErrorCategory::Service => MutationFailureKind::ServiceError,
    }
}

/// The concatenation of the error messages, each followed by a comma.
pub open spec fn spec_joined_messages(errors: Seq<GraphQlApiError>) -> Seq<char>
    decreases errors.len(),
{
    if errors.len() == 0 {
        Seq::empty()
    } else {
        errors.first().message@ + ","@ + spec_joined_messages(errors.drop_first())
    }
}

fn join_messages(errors: &Vec<GraphQlApiError>) -> (r: String)
    ensures
        r@ == spec_joined_messages(errors@),
{
    let mut out = String::new();
    let n = errors.len();
    assert(errors@.skip(0) == errors@);
    for i in 0..n
        invariant
            n == errors@.len(),
            spec_joined_messages(errors@) =~= out@ + spec_joined_messages(errors@.skip(i as int)),
    {
        out.append(errors[i].message.as_str());
        out.append(",");
        assert(errors@.skip(i as int).drop_first() == errors@.skip(i + 1));
    }
    assert(out@ =~= spec_joined_messages(errors@));
    out
}

/// Classify the result of one mutation call into the handler's taxonomy:
/// transport and serialization failures keep their own kinds; a parsed
/// response with GraphQL-level errors takes the kind of the first error's
/// category and carries every message; a clean response succeeds exactly
/// when it holds an item id, and is `Ambiguous` otherwise.
pub fn classify_outcome(result: GraphQlCallResult) -> (r: MutationOutcome)
    ensures
        result matches GraphQlCallResult::TransportFailure { message } ==> r == (
        MutationOutcome::Failure { kind: MutationFailureKind::Transport, message }),
        result matches GraphQlCallResult::SerializationFailure { message } ==> r == (
        MutationOutcome::Failure { kind: MutationFailureKind::Serialization, message }),
        result matches GraphQlCallResult::Response { item_id, errors } ==> (errors@.len() > 0
            ==> (r matches MutationOutcome::Failure { kind, message } && kind
            == spec_kind_of_category(errors@.first().category) && message@ == spec_joined_messages(
            errors@,
        ))),
        result matches GraphQlCallResult::Response { item_id: Some(id), errors } ==> (errors@.len()
            == 0 ==> r == (MutationOutcome::Success { item_id: id })),
        result matches GraphQlCallResult::Response { item_id: None, errors } ==> (errors@.len() == 0
            ==> (r matches MutationOutcome::Failure { kind, message } && kind
            == MutationFailureKind::Ambiguous && message@ == Seq::<char>::empty())),
{
    match result {
        GraphQlCallResult::TransportFailure { message } => MutationOutcome::Failure {
            kind: MutationFailureKind::Transport,
            message,
        },
        GraphQlCallResult::SerializationFailure { message } => MutationOutcome::Failure {
            kind: MutationFailureKind::Serialization,
            message,
        },
        GraphQlCallResult::Response { item_id, errors } => {
            if errors.len() > 0 {
                let kind = kind_of_category(errors[0].category);
                let message = join_messages(&errors);
                MutationOutcome::Failure { kind, message }
            } else {
                match item_id {
                    Some(id) => MutationOutcome::Success { item_id: id },
                    None => MutationOutcome::Failure {
                        kind: MutationFailureKind::Ambiguous,
                        message: String::new(),
                    },
                }
            }
        },
    }
}

/// The text of the add-item mutation, selecting the created item's id. The
/// two inputs are GraphQL variables.
pub open spec fn spec_add_item_query() -> Seq<char> {
    "mutation($projectId: ID!, $contentId: ID!) { addProjectV2ItemById(input: {projectId: $projectId, contentId: $contentId}) { item { id } } }"@
}

/// One prepared mutation request: the fixed query text and the two values
/// bound as variables.
pub struct AddItemRequest {
    /// The mutation text, exactly [`spec_add_item_query`].
    pub query: String,
    /// Value for the `$projectId` variable.
    pub project_id: String,
    /// Value for the `$contentId` variable.
    pub content_id: String,
}

/// Build the add-item request for a project and a content node. The ids
/// are bound as variables; the query text never depends on them, which
/// rules out injection and quoting errors.
pub fn build_add_item_request(project_id: &str, content_id: &str) -> (r: AddItemRequest)
    ensures
        r.query@ == spec_add_item_query(),
        r.project_id@ == project_id@,
        r.content_id@ == content_id@,
{
    AddItemRequest {
        query:
            "mutation($projectId: ID!, $contentId: ID!) { addProjectV2ItemById(input: {projectId: $projectId, contentId: $contentId}) { item { id } } }".to_owned(),
        project_id: project_id.to_owned(),
        content_id: content_id.to_owned(),
    }
}

} // verus!
