use glitch_guardian::broker::BrokerError;
use glitch_guardian::dispatcher::broker_failure_status;
use glitch_guardian::dispatcher::mutation_status;
use glitch_guardian::dispatcher::plan_dispatch;
use glitch_guardian::dispatcher::plan_status;
use glitch_guardian::dispatcher::route;
use glitch_guardian::dispatcher::DispatchPlan;
use glitch_guardian::dispatcher::WebhookEvent;
use glitch_guardian::mutation::MutationFailureKind;
use glitch_guardian::mutation::MutationOutcome;
use glitch_guardian::signature::compute_signature;
use glitch_guardian::CoreConfig;

fn test_config(secret: &str) -> CoreConfig {
    CoreConfig {
        app_id: 1,
        app_private_key: String::new(),
        project_id: "PVT_board".to_string(),
        webhook_secret: secret.as_bytes().to_vec(),
    }
}

fn opened_issue_event() -> WebhookEvent {
    WebhookEvent {
        action: "opened".to_string(),
        issue_node_id: Some("I_1".to_string()),
        pull_request_node_id: None,
        repository_name: Some("demo-repo".to_string()),
        installation_id: Some(77),
    }
}

#[test]
fn test_route_opened_issue_proceeds_with_issue_node() {
    match route(&opened_issue_event()) {
        DispatchPlan::Proceed { installation_id, content_node_id } => {
            assert_eq!(installation_id, 77);
            assert_eq!(content_node_id, "I_1");
        }
        _ => panic!("an attributable opened issue must reach the mutation"),
    }
}

#[test]
fn test_route_prefers_issue_over_pull_request() {
    let mut event = opened_issue_event();
    event.pull_request_node_id = Some("PR_2".to_string());
    match route(&event) {
        DispatchPlan::Proceed { content_node_id, .. } => assert_eq!(content_node_id, "I_1"),
        _ => panic!("the event must proceed"),
    }
}

#[test]
fn test_route_opened_pull_request_proceeds() {
    let mut event = opened_issue_event();
    event.issue_node_id = None;
    event.pull_request_node_id = Some("PR_2".to_string());
    match route(&event) {
        DispatchPlan::Proceed { content_node_id, .. } => assert_eq!(content_node_id, "PR_2"),
        _ => panic!("an attributable opened pull request must reach the mutation"),
    }
}

#[test]
fn test_route_closed_action_acknowledges_without_mutation() {
    let mut event = opened_issue_event();
    event.action = "closed".to_string();
    let plan = route(&event);
    assert!(matches!(plan, DispatchPlan::Acknowledge));
    assert_eq!(plan_status(&plan), Some(200));
}

#[test]
fn test_route_opened_without_content_acknowledges() {
    let mut event = opened_issue_event();
    event.issue_node_id = None;
    let plan = route(&event);
    assert!(matches!(plan, DispatchPlan::Acknowledge));
}

#[test]
fn test_route_missing_installation_is_bad_request() {
    let mut event = opened_issue_event();
    event.installation_id = None;
    assert!(matches!(route(&event), DispatchPlan::BadRequest));
}

#[test]
fn test_route_missing_repository_is_bad_request() {
    let mut event = opened_issue_event();
    event.repository_name = None;
    assert!(matches!(route(&event), DispatchPlan::BadRequest));
}

#[test]
fn test_dispatch_valid_signature_reaches_mutation() {
    let secret = "test_secret";
    let body = "{\"action\":\"opened\",\"issue\":{\"node_id\":\"test_node_id\"}}";
    let signature = compute_signature(secret.as_bytes(), body.as_bytes());
    let event = WebhookEvent {
        action: "opened".to_string(),
        issue_node_id: Some("test_node_id".to_string()),
        pull_request_node_id: None,
        repository_name: Some("demo-repo".to_string()),
        installation_id: Some(5),
    };
    let plan = plan_dispatch(
        &test_config(secret),
        body.as_bytes(),
        Some(signature.as_slice()),
        Some(&event),
    );
    match plan {
        DispatchPlan::Proceed { installation_id, content_node_id } => {
            assert_eq!(installation_id, 5);
            assert_eq!(content_node_id, "test_node_id");
        }
        _ => panic!("a verified, attributable opened issue must reach the mutation"),
    }
}

#[test]
fn test_dispatch_invalid_signature_is_unauthorized() {
    let secret = "test_secret";
    let body = "{\"action\":\"opened\",\"issue\":{\"node_id\":\"test_node_id\"}}";
    let event = opened_issue_event();
    let plan = plan_dispatch(
        &test_config(secret),
        body.as_bytes(),
        Some(b"invalid_signature"),
        Some(&event),
    );
    // Terminal 401: nothing proceeds, so no outbound call is ever made.
    assert!(matches!(plan, DispatchPlan::Unauthorized));
    assert_eq!(plan_status(&plan), Some(401));
}

#[test]
fn test_dispatch_missing_installation_is_bad_request() {
    let secret = "test_secret";
    let body = "{\"action\":\"opened\",\"issue\":{\"node_id\":\"test_node_id\"}}";
    let signature = compute_signature(secret.as_bytes(), body.as_bytes());
    let mut event = opened_issue_event();
    event.issue_node_id = Some("test_node_id".to_string());
    event.installation_id = None;
    let plan = plan_dispatch(
        &test_config(secret),
        body.as_bytes(),
        Some(signature.as_slice()),
        Some(&event),
    );
    assert!(matches!(plan, DispatchPlan::BadRequest));
    assert_eq!(plan_status(&plan), Some(400));
}

#[test]
fn test_dispatch_malformed_body_is_bad_request() {
    let secret = "test_secret";
    let body = "{\"action\": \"opened\"";
    let signature = compute_signature(secret.as_bytes(), body.as_bytes());
    let plan = plan_dispatch(&test_config(secret), body.as_bytes(), Some(signature.as_slice()), None);
    assert!(matches!(plan, DispatchPlan::BadRequest));
}

#[test]
fn test_mutation_status_mapping() {
    assert_eq!(
        mutation_status(&MutationOutcome::Success { item_id: "X".to_string() }),
        200
    );
    assert_eq!(
        mutation_status(&MutationOutcome::Failure {
            kind: MutationFailureKind::Unauthorized,
            message: String::new(),
        }),
        401
    );
    assert_eq!(
        mutation_status(&MutationOutcome::Failure {
            kind: MutationFailureKind::Transport,
            message: String::new(),
        }),
        500
    );
    assert_eq!(
        mutation_status(&MutationOutcome::Failure {
            kind: MutationFailureKind::Ambiguous,
            message: String::new(),
        }),
        500
    );
}

#[test]
fn test_broker_failure_status_is_unauthorized() {
    assert_eq!(broker_failure_status(&BrokerError::InstallationNotFound), 401);
    assert_eq!(broker_failure_status(&BrokerError::Network), 401);
    assert_eq!(broker_failure_status(&BrokerError::Unauthorized), 401);
}
