//! The webhook dispatcher.
//!
//! One inbound request runs a fixed course: verify the signature (fail
//! fast with 401), parse the payload (fail with 400), route on the
//! action — an "opened" event with a content node and a known
//! installation proceeds to credential resolution and the project
//! mutation, everything else is answered directly — and map the outcome
//! to one coarse HTTP status. No state survives the request; callers
//! receive only a status code, never upstream error text.

use vstd::prelude::*;
use crate::broker::BrokerError;
use crate::CoreConfig;
use crate::mutation::MutationFailureKind;
use crate::mutation::MutationOutcome;
use crate::signature::spec_header_view;
use crate::signature::spec_verify;
use crate::signature::verify;

verus! {

/// Status for a handled or intentionally skipped event.
pub const STATUS_OK: u16 = 200;

/// Status for a malformed body or an actionable event that cannot be
/// attributed to an installation.
pub const STATUS_BAD_REQUEST: u16 = 400;

/// Status for a signature mismatch or a credential resolution failure.
pub const STATUS_UNAUTHORIZED: u16 = 401;

/// Status for an unclassified mutation failure.
pub const STATUS_INTERNAL_ERROR: u16 = 500;

/// A webhook event reduced to what routing reads. Parsing the raw JSON
/// body happens outside the verified core; a body that does not parse is
/// handed in as no event at all.
pub struct WebhookEvent {
    /// The event's action, for instance `"opened"` or `"closed"`.
    pub action: String,
    /// Node id of the issue the event carries, if any.
    pub issue_node_id: Option<String>,
    /// Node id of the pull request the event carries, if any.
    pub pull_request_node_id: Option<String>,
    /// Name of the repository the event came from, if present.
    pub repository_name: Option<String>,
    /// Id of the app installation that produced the event, if present.
    pub installation_id: Option<u64>,
}

/// What the dispatcher decides for one request.
pub enum DispatchPlan {
    /// Terminal: the signature did not verify; respond 401 and make no
    /// outbound call.
    Unauthorized,
    /// Terminal: the body was malformed, or an actionable event lacked an
    /// installation or repository reference; respond 400.
    BadRequest,
    /// Terminal: nothing to do for this event; respond 200 so the sender
    /// does not redeliver.
    Acknowledge,
    /// Resolve a credential for this installation and add this content
    /// node to the project.
    Proceed {
        /// The installation to resolve a credential for.
        installation_id: u64,
        /// The issue or pull request node to add to the project.
        content_node_id: String,
    },
}

/// Whether the event's action is `"opened"`.
pub open spec fn spec_is_opened(event: WebhookEvent) -> bool {
    event.action@ == "opened"@
}

/// The content node an event carries: the issue's node id when an issue
/// is present — also when a pull request stands beside it — else the pull
/// request's, else nothing.
pub open spec fn spec_content_node(event: WebhookEvent) -> Option<Seq<char>> {
    if event.issue_node_id is Some {
        Some(event.issue_node_id.unwrap()@)
    } else if event.pull_request_node_id is Some {
        Some(event.pull_request_node_id.unwrap()@)
    } else {
        None
    }
}

/// How a parsed event is routed.
///
/// An event whose action is not `"opened"`, or an "opened" event carrying
/// neither issue nor pull request, is acknowledged. An "opened" event with
/// a content node but no installation id or no repository reference cannot
/// be attributed and is a bad request. An "opened" event with a content
/// node, an installation id and a repository reference proceeds to the
/// mutation with exactly that installation and content node.
pub open spec fn spec_routed(event: WebhookEvent, r: DispatchPlan) -> bool {
    &&& !spec_is_opened(event) ==> r == DispatchPlan::Acknowledge
    &&& spec_is_opened(event) && spec_content_node(event) is None ==> r
        == DispatchPlan::Acknowledge
    &&& spec_is_opened(event) && spec_content_node(event) is Some && (event.installation_id is None
        || event.repository_name is None) ==> r == DispatchPlan::BadRequest
    &&& spec_is_opened(event) && spec_content_node(event) is Some && event.installation_id is Some
        && event.repository_name is Some ==> (r matches DispatchPlan::Proceed {
        installation_id,
        content_node_id,
    } && installation_id == event.installation_id.unwrap() && content_node_id@
        == spec_content_node(event).unwrap())
}

/// Route one parsed event.
pub fn route(event: &WebhookEvent) -> (r: DispatchPlan)
    ensures
        spec_routed(*event, r),
{
    let opened: String = "opened".to_owned();
    if !(event.action == opened) {
        return DispatchPlan::Acknowledge;
    }
    let content: Option<&String> = match &event.issue_node_id {
        Some(node) => Some(node),
        None => match &event.pull_request_node_id {
            Some(node) => Some(node),
            None => None,
        },
    };
    match content {
        None => DispatchPlan::Acknowledge,
        Some(node) => match event.installation_id {
            Some(installation_id) => {
                if event.repository_name.is_some() {
                    DispatchPlan::Proceed { installation_id, content_node_id: node.clone() }
                } else {
                    DispatchPlan::BadRequest
                }
            },
            None => DispatchPlan::BadRequest,
        },
    }
}

/// Decide one request from its raw parts: the configured webhook secret,
/// the raw body, the presented signature header, and the event the body
/// parsed to — or `None` when it did not parse.
///
/// The signature is checked first: a request that does not verify is
/// terminal `Unauthorized`, whatever the body holds, and only a verified
/// request can ever proceed to an outbound call.
pub fn plan_dispatch(
    config: &CoreConfig,
    body: &[u8],
    signature_header: Option<&[u8]>,
    parsed: Option<&WebhookEvent>,
) -> (r: DispatchPlan)
    ensures
        !spec_verify(config.webhook_secret@, body@, spec_header_view(signature_header)) ==> r
            == DispatchPlan::Unauthorized,
        spec_verify(config.webhook_secret@, body@, spec_header_view(signature_header))
            ==> match parsed {
            None => r == DispatchPlan::BadRequest,
            Some(event) => spec_routed(*event, r),
        },
        r is Proceed ==> spec_verify(config.webhook_secret@, body@, spec_header_view(signature_header)),
{
    if !verify(config.webhook_secret.as_slice(), body, signature_header) {
        return DispatchPlan::Unauthorized;
    }
    match parsed {
        None => DispatchPlan::BadRequest,
        Some(event) => route(event),
    }
}

/// The status a terminal plan answers with; a `Proceed` plan is not
/// terminal — its status is the mutation outcome's.
pub fn plan_status(plan: &DispatchPlan) -> (r: Option<u16>)
    ensures
        *plan is Unauthorized ==> r == Some(STATUS_UNAUTHORIZED),
        *plan is BadRequest ==> r == Some(STATUS_BAD_REQUEST),
        *plan is Acknowledge ==> r == Some(STATUS_OK),
        *plan is Proceed ==> r is None,
{
    match plan {
        DispatchPlan::Unauthorized => Some(STATUS_UNAUTHORIZED),
        DispatchPlan::BadRequest => Some(STATUS_BAD_REQUEST),
        DispatchPlan::Acknowledge => Some(STATUS_OK),
        DispatchPlan::Proceed { .. } => None,
    }
}

/// The status a mutation outcome maps to: success acknowledges, an
/// unauthorized failure surfaces as 401, every other failure as 500.
pub open spec fn spec_mutation_status(outcome: MutationOutcome) -> u16 {
    match outcome {
        MutationOutcome::Success { .. } => STATUS_OK,
        MutationOutcome::Failure { kind, .. } => if kind == MutationFailureKind::Unauthorized {
            STATUS_UNAUTHORIZED
        } else {
            STATUS_INTERNAL_ERROR
        },
    }
}

/// Map a mutation outcome to the response status.
pub fn mutation_status(outcome: &MutationOutcome) -> (r: u16)
    ensures
        r == spec_mutation_status(*outcome),
{
    match outcome {
        MutationOutcome::Success { .. } => STATUS_OK,
        MutationOutcome::Failure { kind, .. } => match kind {
            MutationFailureKind::Unauthorized => STATUS_UNAUTHORIZED,
            _ => STATUS_INTERNAL_ERROR,
        },
    }
}

/// A credential resolution failure surfaces as 401, whichever way it
/// failed: the event could not be attributed to a live installation
/// credential.
pub fn broker_failure_status(error: &BrokerError) -> (r: u16)
    ensures
        r == STATUS_UNAUTHORIZED,
{
    match error {
        BrokerError::InstallationNotFound => STATUS_UNAUTHORIZED,
        BrokerError::Network => STATUS_UNAUTHORIZED,
        BrokerError::Unauthorized => STATUS_UNAUTHORIZED,
    }
}

/// Routing never mutates for an action other than `"opened"`: such an
/// event is acknowledged with 200 and the mutation is never invoked.
pub proof fn lemma_non_opened_is_acknowledged(event: WebhookEvent, r: DispatchPlan)
    requires
        spec_routed(event, r),
        !spec_is_opened(event),
    ensures
        r == DispatchPlan::Acknowledge,
        !(r is Proceed),
{
}

/// An "opened" event that carries an issue proceeds with the issue's node
/// id — also when a pull request stands beside it — provided installation
/// and repository are present.
pub proof fn lemma_opened_issue_proceeds(event: WebhookEvent, r: DispatchPlan)
    requires
        spec_routed(event, r),
        spec_is_opened(event),
        event.issue_node_id is Some,
        event.installation_id is Some,
        event.repository_name is Some,
    ensures
        r matches DispatchPlan::Proceed { installation_id, content_node_id }
            && installation_id == event.installation_id.unwrap()
            && content_node_id@ == event.issue_node_id.unwrap()@,
{
}

} // verus!
