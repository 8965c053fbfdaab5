use tachy_daemon::engine::{
    calls_noting, detect_language_from_content, exceeds_tool_limit, pre_dispatch, required_write_file_path, Dispatch,
    EvolutionManager, SimulationExecutor,
};
use tachy_daemon::engine::{apply_optimization, rollback_optimization, OptimizationStatus};
use tachy_daemon::strmap::StrMap;

fn tools(names: &[&str]) -> Vec<String> {
    names.iter().map(|s| s.to_string()).collect()
}

#[test]
fn intelligent_executor_blocks_disallowed_tools() {
    let allowed = tools(&["read_file"]);
    match pre_dispatch(&allowed, false, "bash") {
        Dispatch::Refuse(msg) => assert!(msg.contains("not in agent's allowed tools")),
        other => panic!("expected refusal, got {other:?}"),
    }
    assert_eq!(pre_dispatch(&allowed, false, "read_file"), Dispatch::Proceed);
}

#[test]
fn simulation_suppresses_mutations_only() {
    let allowed = tools(&["write_file", "read_file", "git_push"]);
    assert_eq!(
        pre_dispatch(&allowed, true, "write_file"),
        Dispatch::Suppress("SUCCESS (Simulation): 'write_file' suppressed".to_string())
    );
    assert_eq!(pre_dispatch(&allowed, true, "git_push"), Dispatch::Suppress("SUCCESS (Simulation): 'git_push' suppressed".to_string()));
    assert_eq!(pre_dispatch(&allowed, true, "read_file"), Dispatch::Proceed);
    assert_eq!(pre_dispatch(&allowed, false, "write_file"), Dispatch::Proceed);
    assert_eq!(
        pre_dispatch(&allowed, true, "delete_file"),
        Dispatch::Refuse("tool 'delete_file' not in agent's allowed tools".to_string())
    );
}

#[test]
fn tool_limit() {
    assert!(!exceeds_tool_limit(None, 1000));
    assert!(!exceeds_tool_limit(Some(10), 10));
    assert!(exceeds_tool_limit(Some(10), 11));
}

#[test]
fn languages() {
    assert_eq!(detect_language_from_content("pub fn main() {}"), "rust");
    assert_eq!(detect_language_from_content("fn x() { let a = 1; }"), "rust");
    assert_eq!(detect_language_from_content("def f(x):\n  return x"), "python");
    assert_eq!(detect_language_from_content("const f = (x) => x"), "javascript");
    assert_eq!(detect_language_from_content("package main\nfunc main() {}"), "go");
    assert_eq!(detect_language_from_content("hello"), "unknown");
}

#[test]
fn required_output_path() {
    let w = tools(&["write_file"]);
    assert_eq!(
        required_write_file_path("Do it.\nREQUIRED_OUTPUT_PATH:  src/out.rs \nmore", &w).as_deref(),
        Some("src/out.rs")
    );
    assert_eq!(required_write_file_path("REQUIRED_OUTPUT_PATH:   \nREQUIRED_OUTPUT_PATH: b", &w), None);
    assert_eq!(required_write_file_path("no path here", &w), None);
    assert_eq!(required_write_file_path("REQUIRED_OUTPUT_PATH: a", &tools(&["write_file", "bash"])), None);
    assert_eq!(required_write_file_path("REQUIRED_OUTPUT_PATH: a", &tools(&["read_file"])), None);
}

#[test]
fn simulation_records_calls() {
    let mut sim = SimulationExecutor::new("/ws");
    assert_eq!(sim.execute("write_file", "{}"), "SUCCESS (Simulated)");
    assert_eq!(sim.execute("run_command", "ls"), "Command simulation complete (no side effects)");
    assert_eq!(sim.execute("delete_file", "x"), "SUCCESS (Simulated)");
    assert_eq!(sim.execute("read_file", "y"), "SUCCESS (Read-only passthrough simulated)");
    let h = sim.history();
    assert_eq!(h.len(), 4);
    assert_eq!(h[0].side_effects, vec!["MUTATION: write_file update suppressed".to_string()]);
    assert_eq!(h[1].side_effects, vec!["EXECUTION: shell command mocked".to_string()]);
    assert!(h[3].side_effects.is_empty());
    assert_eq!(h[1].input, "ls");
    assert_eq!(calls_noting(h, "MUTATION"), 1);
    assert_eq!(calls_noting(h, "DELETION"), 1);
    assert_eq!(calls_noting(h, "NOTHING"), 0);
}

#[test]
fn evolution_manager_root() {
    assert_eq!(EvolutionManager::new("/ws").workspace_root, "/ws");
}

fn template(name: &str, model: &str) -> tachy_daemon::marketplace::AgentTemplate {
    tachy_daemon::marketplace::AgentTemplate {
        name: name.to_string(),
        description: String::new(),
        system_prompt: "p".to_string(),
        allowed_tools: vec![],
        model: model.to_string(),
        max_iterations: 3,
        requires_approval: false,
        use_planning: false,
    }
}

#[test]
fn task_templates() {
    use_select();
}

fn use_select() {
    let ts = vec![template("coder", "m1"), template("coder", "m2"), template("chat", "m3")];
    let t = tachy_daemon::engine::select_template(&ts, "coder", None, template("fallback", "m0"));
    assert_eq!((t.name.as_str(), t.model.as_str()), ("coder", "m1"));
    let t = tachy_daemon::engine::select_template(&ts, "chat", Some("big"), template("fallback", "m0"));
    assert_eq!((t.name.as_str(), t.model.as_str()), ("chat", "big"));
    let t = tachy_daemon::engine::select_template(&ts, "other", None, template("fallback", "m0"));
    assert_eq!((t.name.as_str(), t.model.as_str()), ("other", "m0"));
    let r = tachy_daemon::engine::task_result_of(
        tachy_daemon::engine::AgentRunResult {
            agent_id: "a".to_string(),
            success: true,
            iterations: 2,
            tool_invocations: 4,
            summary: "s".to_string(),
        },
        "h".to_string(),
    );
    assert!(r.success && r.iterations == 2 && r.tool_invocations == 4 && r.summary == "s" && r.audit_hash == "h");
}

#[test]
fn run_summaries() {
    let s = tachy_daemon::engine::text_summary(&["first".to_string(), "second".to_string()]);
    assert_eq!(s, "first\nsecond");
    assert_eq!(tachy_daemon::engine::text_summary(&[]), "");
    let long = tachy_daemon::engine::text_summary(&["y".repeat(3000), "z".repeat(3000)]);
    assert_eq!(long.len(), 4000 + "…".len());
    assert!(long.starts_with(&"y".repeat(3000)));
    assert!(long.ends_with("zz…"));
}

#[test]
fn optimizations_apply_then_roll_back() {
    let mut statuses = StrMap::new();
    statuses.insert("opt-1".to_string(), OptimizationStatus::Pending);
    statuses.insert("opt-2".to_string(), OptimizationStatus::Rejected);
    assert_eq!(rollback_optimization(&mut statuses, "opt-1").unwrap_err(), "Only applied optimizations can be rolled back");
    assert_eq!(apply_optimization(&mut statuses, "opt-1"), Ok(()));
    assert_eq!(statuses.get("opt-1"), Some(&OptimizationStatus::Applied));
    assert_eq!(apply_optimization(&mut statuses, "opt-1").unwrap_err(), "Optimization already processed");
    assert_eq!(apply_optimization(&mut statuses, "opt-2").unwrap_err(), "Optimization already processed");
    assert_eq!(apply_optimization(&mut statuses, "opt-9").unwrap_err(), "Proposal not found");
    assert_eq!(rollback_optimization(&mut statuses, "opt-9").unwrap_err(), "Proposal not found");
    assert_eq!(rollback_optimization(&mut statuses, "opt-1"), Ok(()));
    assert_eq!(statuses.get("opt-1"), Some(&OptimizationStatus::RolledBack));
    assert_eq!(statuses.get("opt-2"), Some(&OptimizationStatus::Rejected));
}
