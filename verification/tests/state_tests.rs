use tachy_daemon::crypto::{hmac_sha256, sha256, to_hex_lower};
use tachy_daemon::state::{
    get_expert_model_for_role, verify_webhook_signature, webhook_signature, webhook_targets, ChatMessage,
    ConversationStore, IdCounters, RunTemplate, TemplateStatus, TemplateTask, WebhookConfig,
};
use tachy_daemon::strmap::StrMap;

fn msg(text: &str) -> ChatMessage {
    ChatMessage {
        role: "user".to_string(),
        content: text.to_string(),
        timestamp: "1s".to_string(),
        model: None,
        iterations: None,
        tool_invocations: None,
    }
}

#[test]
fn conversations_are_numbered_and_stamped() {
    let mut store = ConversationStore::new(0);
    let a = store.create_conversation("first", "/ws", 42);
    let b = store.create_conversation("second", "/ws", 43);
    assert_eq!(a, "conv-1");
    assert_eq!(b, "conv-2");
    let c = store.get_conversation(&a).unwrap();
    assert_eq!(c.title, "first");
    assert_eq!(c.created_at, "42s");
    assert_eq!(c.workspace, "/ws");
    assert!(c.messages.is_empty());
}

#[test]
fn counter_continues_after_restore() {
    let mut store = ConversationStore::new(7);
    assert_eq!(store.next_conv_id(), "conv-8");
    assert_eq!(store.create_conversation("t", "/", 0), "conv-9");
}

#[test]
fn messages_append_and_summary_schedule() {
    let mut store = ConversationStore::new(0);
    let id = store.create_conversation("t", "/", 1);
    assert!(!store.add_message("conv-99", msg("x"), 2));
    for i in 0..16 {
        assert!(store.add_message(&id, msg(&format!("m{i}")), 100 + i));
        let n = i + 1;
        assert_eq!(store.needs_summary(&id), n > 15 && n % 5 == 0, "after {n} messages");
    }
    let c = store.get_conversation(&id).unwrap();
    assert_eq!(c.messages.len(), 16);
    assert_eq!(c.messages[0].content, "m0");
    assert_eq!(c.updated_at, "115s");
    assert!(store.add_message(&id, msg("a"), 200));
    assert!(store.add_message(&id, msg("b"), 201));
    assert!(store.add_message(&id, msg("c"), 202));
    assert!(store.add_message(&id, msg("d"), 203));
    assert!(store.needs_summary(&id));
    assert!(store.set_summary(&id, "short".to_string()));
    assert_eq!(store.get_conversation(&id).unwrap().summary.as_deref(), Some("short"));
}

#[test]
fn delete_conversation_reports_existence() {
    let mut store = ConversationStore::new(0);
    let id = store.create_conversation("t", "/", 1);
    assert!(!store.delete_conversation("conv-404"));
    assert!(store.delete_conversation(&id));
    assert!(store.get_conversation(&id).is_none());
    assert!(!store.delete_conversation(&id));
}

fn hook(url: &str, secret: Option<&str>, events: &[&str], enabled: bool) -> WebhookConfig {
    WebhookConfig {
        url: url.to_string(),
        events: events.iter().map(|e| e.to_string()).collect(),
        enabled,
        secret: secret.map(str::to_string),
    }
}

#[test]
fn webhook_signature_round_trip() {
    let hooks = vec![hook("https://a", Some("s3cret"), &["*"], true), hook("https://b", None, &["run"], true)];
    let body = br#"{"event":"run"}"#;
    let sig = webhook_signature("s3cret", body);
    assert_eq!(sig, format!("sha256={}", hmac_sha256(b"s3cret", body)));
    assert!(verify_webhook_signature(&hooks, "https://a", body, &sig).is_ok());
    let err = verify_webhook_signature(&hooks, "https://a", b"tampered", &sig).unwrap_err();
    assert_eq!(err, "webhook signature mismatch");
    // no secret, or no such webhook: accepted
    assert!(verify_webhook_signature(&hooks, "https://b", body, "anything").is_ok());
    assert!(verify_webhook_signature(&hooks, "https://c", body, "anything").is_ok());
}

#[test]
fn webhook_signature_known_vector() {
    // HMAC-SHA256("key", "The quick brown fox jumps over the lazy dog")
    let sig = webhook_signature("key", b"The quick brown fox jumps over the lazy dog");
    assert_eq!(sig, "sha256=f7bc83f430538424b13298e6aa6fb143ef4d59a14946175997479dbc2d1a3cd8");
}

#[test]
fn webhook_targets_filter_by_event() {
    let hooks = vec![
        hook("a", None, &["run.completed"], true),
        hook("b", None, &["*"], true),
        hook("c", None, &["run.completed"], false),
        hook("d", None, &["other"], true),
    ];
    assert_eq!(webhook_targets(&hooks, "run.completed"), vec![0, 1]);
    assert_eq!(webhook_targets(&hooks, "other"), vec![1, 3]);
}

fn template() -> RunTemplate {
    RunTemplate {
        name: "ci".to_string(),
        description: "d".to_string(),
        tasks: vec![
            TemplateTask { template: "coder".to_string(), prompt: "write".to_string(), model: None, deps: vec![], priority: 5 },
            TemplateTask {
                template: "checker".to_string(),
                prompt: "check".to_string(),
                model: None,
                deps: vec!["t1".to_string(), "t0".to_string()],
                priority: 5,
            },
        ],
        max_concurrency: 2,
        created_at: 0,
        version: "1.0.0".to_string(),
        status: TemplateStatus::Draft,
        team_id: None,
        signature: None,
    }
}

#[test]
fn template_hash_input_and_signature() {
    let mut t = template();
    assert_eq!(t.hash_input(), "template:ci:v1.0.0|task:coder:write|task:checker:check|dep:t1|dep:t0");
    let hash = to_hex_lower(&sha256(t.hash_input().as_bytes()));
    assert!(!t.verify_signature(&hash));
    t.signature = Some(hash.clone());
    assert!(t.verify_signature(&hash));
    assert!(!t.verify_signature("other"));
}

#[test]
fn patches_wait_for_approval() {
    let mut q: tachy_daemon::state::PatchQueue<&str> = tachy_daemon::state::PatchQueue::new(0);
    let a = q.queue("diff-a", "touches CI".to_string(), 10);
    let b = q.queue("diff-b", "large change".to_string(), 11);
    assert_eq!((a.as_str(), b.as_str()), ("patch-1", "patch-2"));
    assert_eq!(q.list().len(), 2);
    assert_eq!(q.list()[1].created_at, "11s");
    let taken = q.take(&a).unwrap();
    assert_eq!(taken.patch, "diff-a");
    assert_eq!(taken.reason, "touches CI");
    assert_eq!(q.list().len(), 1);
    assert_eq!(q.take("patch-9").unwrap_err(), "patch 'patch-9' not found");
    assert_eq!(q.take(&a).unwrap_err(), "patch 'patch-1' not found");
}

#[test]
fn agent_and_task_ids_count_separately() {
    let mut c = IdCounters { agent_counter: 4, task_counter: 0 };
    assert_eq!(c.next_agent_id(), "agent-5");
    assert_eq!(c.next_agent_id(), "agent-6");
    assert_eq!(c.next_task_id(), "task-1");
    assert_eq!((c.agent_counter, c.task_counter), (6, 1));
}

#[test]
fn expert_model_falls_back_to_default() {
    let mut templates = StrMap::new();
    templates.insert("ci".to_string(), template());
    let mut tuned = template();
    tuned.name = "tuned".to_string();
    tuned.tasks[0].model = Some("llama-3.2-3b-ft".to_string());
    templates.insert("tuned".to_string(), tuned);
    let mut empty = template();
    empty.tasks.clear();
    templates.insert("empty".to_string(), empty);
    assert_eq!(get_expert_model_for_role(&templates, "tuned"), "llama-3.2-3b-ft");
    assert_eq!(get_expert_model_for_role(&templates, "ci"), "gemma4:26b");
    assert_eq!(get_expert_model_for_role(&templates, "empty"), "gemma4:26b");
    assert_eq!(get_expert_model_for_role(&templates, "missing"), "gemma4:26b");
}
