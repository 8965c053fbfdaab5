use tachy_daemon::router::{
    admission, api_key_accepts, is_public_path, needs_credential, rate_bucket, rate_limit_key, required_action, route,
    Admission, GateAction, Route,
};

#[test]
fn static_routes() {
    assert_eq!(route("GET", "/"), Route::Index);
    assert_eq!(route("GET", "/index.html"), Route::Index);
    assert_eq!(route("GET", "/health"), Route::Health);
    assert_eq!(route("POST", "/api/parallel/runs"), Route::ParallelRun);
    assert_eq!(route("POST", "/api/parallel/run"), Route::ParallelRun);
    assert_eq!(route("DELETE", "/api/workers/deregister"), Route::DeregisterWorker);
    assert_eq!(route("GET", "/api/auth/oauth/sessions"), Route::OauthSessions);
    assert_eq!(route("PUT", "/health"), Route::NotFound);
}

#[test]
fn parameterised_routes() {
    assert_eq!(route("GET", "/api/teams/t1"), Route::GetTeam("t1".to_string()));
    assert_eq!(route("GET", "/api/teams/t1/agents"), Route::TeamAgents("t1".to_string()));
    assert_eq!(route("GET", "/api/teams/t1/audit"), Route::TeamAudit("t1".to_string()));
    assert_eq!(route("GET", "/api/teams/t1/x"), Route::TeamNotFound);
    assert_eq!(route("GET", "/api/cloud/jobs/job-a"), Route::GetCloudJob("job-a".to_string()));
    assert_eq!(route("GET", "/api/swarm/runs/r9"), Route::GetSwarmRun("r9".to_string()));
    assert_eq!(route("GET", "/api/auth/oauth/github/login"), Route::OauthLogin("github".to_string()));
    assert_eq!(route("GET", "/api/auth/oauth/google/callback"), Route::OauthCallback("google".to_string()));
    assert_eq!(route("GET", "/api/parallel/runs/run-1/cost"), Route::RunCost("run-1".to_string()));
    assert_eq!(route("GET", "/api/parallel/runs/run-1/conflicts"), Route::RunConflicts("run-1".to_string()));
    assert_eq!(route("GET", "/api/parallel/runs/run-1"), Route::GetParallelRun("run-1".to_string()));
    assert_eq!(route("POST", "/api/parallel/runs/run-1/replay"), Route::ReplayRun("run-1".to_string()));
    assert_eq!(route("POST", "/api/parallel/runs/run-1/cancel"), Route::CancelParallelRun("run-1".to_string()));
    assert_eq!(route("GET", "/api/run-templates/ci"), Route::GetRunTemplate("ci".to_string()));
    assert_eq!(route("POST", "/api/run-templates/ci/run"), Route::RunTemplate("ci".to_string()));
    assert_eq!(route("DELETE", "/api/run-templates/ci"), Route::DeleteRunTemplate("ci".to_string()));
    assert_eq!(route("GET", "/api/run-templates/ci/run"), Route::NotFound);
    assert_eq!(route("GET", "/api/agents/agent-1"), Route::GetAgent("agent-1".to_string()));
    assert_eq!(route("DELETE", "/api/agents/agent-1"), Route::DeleteAgent("agent-1".to_string()));
    assert_eq!(route("DELETE", "/api/agents/agent-1/cancel"), Route::CancelAgent("agent-1".to_string()));
    assert_eq!(route("POST", "/api/agents/agent-1/cancel"), Route::CancelAgent("agent-1".to_string()));
    assert_eq!(route("GET", "/api/conversations/conv-1"), Route::GetConversation("conv-1".to_string()));
    assert_eq!(route("DELETE", "/api/conversations/conv-1"), Route::DeleteConversation("conv-1".to_string()));
    assert_eq!(route("GET", "/api/nothing"), Route::NotFound);
}

#[test]
fn front_door() {
    assert!(is_public_path("/health"));
    assert!(!is_public_path("/api/agents"));
    assert_eq!(rate_limit_key("/health", "1.2.3.4"), None);
    assert_eq!(rate_limit_key("/api/inference/stats", "1.2.3.4"), None);
    assert_eq!(rate_limit_key("/api/complete", "1.2.3.4").as_deref(), Some("complete:1.2.3.4"));
    assert_eq!(rate_limit_key("/api/agents", "1.2.3.4").as_deref(), Some("1.2.3.4"));
    assert!(api_key_accepts("/health", Some("k"), None));
    assert!(api_key_accepts("/api/agents", None, None));
    assert!(api_key_accepts("/api/agents", Some("k"), Some("k")));
    assert!(!api_key_accepts("/api/agents", Some("k"), Some("x")));
    assert!(!api_key_accepts("/api/agents", Some("k"), None));
}

#[test]
fn gated_routes() {
    assert_eq!(required_action(&Route::AuditLog), Some(GateAction::ViewAudit));
    assert_eq!(required_action(&Route::Metrics), Some(GateAction::ViewAudit));
    assert_eq!(required_action(&Route::RunAgent), Some(GateAction::RunAgent));
    assert_eq!(required_action(&Route::Approve), Some(GateAction::ManageGovernance));
    assert_eq!(required_action(&Route::SsoConfig), Some(GateAction::ManageEnterpriseSso));
    assert_eq!(required_action(&Route::GetPolicy), Some(GateAction::ManageGovernance));
    assert_eq!(required_action(&Route::SetPolicy), Some(GateAction::ManageGovernance));
    assert_eq!(required_action(&Route::PullModel), Some(GateAction::ManageModels));
    assert_eq!(required_action(&Route::ListWebhooks), Some(GateAction::ManageWebhooks));
    assert_eq!(required_action(&Route::RegisterWebhook), Some(GateAction::ManageWebhooks));
    assert_eq!(required_action(&route("GET", "/api/policy")), Some(GateAction::ManageGovernance));
    assert_eq!(required_action(&route("POST", "/api/models/pull")), Some(GateAction::ManageModels));
    assert_eq!(required_action(&route("GET", "/api/webhooks")), Some(GateAction::ManageWebhooks));
    assert_eq!(required_action(&Route::VerifyWebhook), None);
    assert_eq!(required_action(&Route::Health), None);
}

#[test]
fn high_risk_operations_are_gated() {
    let cases = [
        ("GET", "/api/policy", GateAction::ManageGovernance),
        ("POST", "/api/models/pull", GateAction::ManageModels),
        ("GET", "/api/webhooks", GateAction::ManageWebhooks),
        ("POST", "/api/policy", GateAction::ManageGovernance),
        ("POST", "/api/webhooks", GateAction::ManageWebhooks),
    ];
    for (method, path, gate) in cases {
        match admission(method, path, true, None, Some("viewer-key")) {
            Admission::Routed(_, g) => assert_eq!(g, Some(gate)),
            other => panic!("expected a routed request, got {other:?}"),
        }
    }
}

#[test]
fn front_door_order() {
    assert!(matches!(admission("OPTIONS", "/api/agents", false, Some("k"), None), Admission::Preflight));
    assert!(matches!(admission("GET", "/api/agents", false, Some("k"), Some("k")), Admission::Limited));
    assert!(matches!(admission("GET", "/api/agents", true, Some("k"), Some("x")), Admission::Unauthorized));
    assert!(matches!(admission("GET", "/api/agents", true, Some("k"), Some("k")), Admission::Routed(Route::ListAgents, None)));
    assert!(matches!(admission("GET", "/health", false, Some("k"), None), Admission::Routed(Route::Health, None)));
    assert!(matches!(admission("GET", "/api/inference/stats", false, None, None), Admission::Routed(_, None)));
    assert_eq!(rate_bucket("OPTIONS", "/api/complete", "1.2.3.4"), None);
    assert_eq!(rate_bucket("POST", "/api/complete", "1.2.3.4").as_deref(), Some("complete:1.2.3.4"));
    assert!(!needs_credential("GET", "/health", true, true));
    assert!(!needs_credential("GET", "/api/agents", false, true));
    assert!(!needs_credential("GET", "/api/agents", true, false));
    assert!(needs_credential("GET", "/api/agents", true, true));
}
