use tachy_daemon::parallel::{
    build_parallel_run, AgentTask, Orchestrator, ParallelRun, RunStatus, TaskQueue, TaskRequest, TaskResult, TaskStatus,
};

fn task(id: &str, run: &str, deps: Vec<String>, priority: u8, status: TaskStatus) -> AgentTask {
    AgentTask {
        id: id.into(), run_id: run.into(), template: "chat".into(),
        prompt: "a".into(), model: None, deps, priority,
        status, result: None, created_at: 0,
        started_at: None, completed_at: None, work_dir: None,
    }
}

fn result(success: bool) -> TaskResult {
    TaskResult { success, summary: "done".into(), iterations: 1, tool_invocations: 0, audit_hash: "abc".into() }
}

#[test]
fn task_queue_respects_priority() {
    let mut q = TaskQueue::new();
    q.enqueue(AgentTask {
        id: "low".into(), run_id: "r1".into(), template: "chat".into(),
        prompt: "a".into(), model: None, deps: vec![], priority: 1,
        status: TaskStatus::Queued, result: None, created_at: 0,
        started_at: None, completed_at: None, work_dir: None,
    });
    q.enqueue(AgentTask {
        id: "high".into(), run_id: "r1".into(), template: "chat".into(),
        prompt: "b".into(), model: None, deps: vec![], priority: 10,
        status: TaskStatus::Queued, result: None, created_at: 0,
        started_at: None, completed_at: None, work_dir: None,
    });
    let next = q.poll(&[]).unwrap();
    assert_eq!(next.id, "high");
}

#[test]
fn task_queue_respects_dependencies() {
    let mut q = TaskQueue::new();
    q.enqueue(AgentTask {
        id: "t2".into(), run_id: "r1".into(), template: "chat".into(),
        prompt: "b".into(), model: None, deps: vec!["t1".into()], priority: 5,
        status: TaskStatus::Queued, result: None, created_at: 0,
        started_at: None, completed_at: None, work_dir: None,
    });
    // t2 depends on t1, which isn't completed yet
    assert!(q.poll(&[]).is_none());
    // Now t1 is completed
    let next = q.poll(&["t1".into()]).unwrap();
    assert_eq!(next.id, "t2");
}

#[test]
fn orchestrator_tracks_completion() {
    let mut orch = Orchestrator::new(4);
    let run = ParallelRun {
        id: "run-1".into(),
        tasks: vec![
            AgentTask {
                id: "t1".into(), run_id: "run-1".into(), template: "chat".into(),
                prompt: "a".into(), model: None, deps: vec![], priority: 5,
                status: TaskStatus::Pending, result: None, created_at: 0,
                started_at: None, completed_at: None, work_dir: None,
            },
        ],
        status: RunStatus::Running,
        created_at: 0,
        max_concurrency: 4,
    };
    orch.submit(run);
    let task = orch.next_task().unwrap();
    assert_eq!(task.id, "t1");
    orch.complete_task("t1", TaskResult {
        success: true, summary: "done".into(), iterations: 1,
        tool_invocations: 0, audit_hash: "abc".into(),
    });
    let run = orch.get_run("run-1").unwrap();
    assert_eq!(run.status, RunStatus::Completed);
}

#[test]
fn queue_keeps_fifo_order_within_priority() {
    let mut q = TaskQueue::new();
    q.enqueue(task("a", "r", vec![], 5, TaskStatus::Queued));
    q.enqueue(task("b", "r", vec![], 7, TaskStatus::Queued));
    q.enqueue(task("c", "r", vec![], 5, TaskStatus::Queued));
    q.enqueue(task("d", "r", vec![], 1, TaskStatus::Queued));
    assert_eq!(q.len(), 4);
    let order: Vec<String> = (0..4).map(|_| q.poll(&[]).unwrap().id).collect();
    assert_eq!(order, vec!["b", "a", "c", "d"]);
    assert!(q.is_empty());
}

#[test]
fn queue_skips_tasks_not_queued() {
    let mut q = TaskQueue::new();
    q.enqueue(task("p", "r", vec![], 9, TaskStatus::Pending));
    q.enqueue(task("q", "r", vec![], 1, TaskStatus::Queued));
    assert_eq!(q.poll(&[]).unwrap().id, "q");
    assert!(q.poll(&[]).is_none());
    assert_eq!(q.len(), 1);
}

#[test]
fn orchestrator_respects_worker_limit() {
    let mut orch = Orchestrator::new(1);
    orch.submit(ParallelRun {
        id: "r".into(),
        tasks: vec![task("t1", "r", vec![], 5, TaskStatus::Pending), task("t2", "r", vec![], 5, TaskStatus::Pending)],
        status: RunStatus::Running, created_at: 0, max_concurrency: 1,
    });
    let first = orch.next_task().unwrap();
    assert_eq!(first.status, TaskStatus::Running);
    assert!(first.started_at.is_some());
    assert_eq!(orch.active_count(), 1);
    assert!(orch.next_task().is_none());
    assert_eq!(orch.pending_count(), 1);
    orch.complete_task("t1", result(true));
    assert_eq!(orch.active_count(), 0);
    assert_eq!(orch.next_task().unwrap().id, "t2");
}

#[test]
fn orchestrator_dependency_chain_and_partial_completion() {
    let mut orch = Orchestrator::new(4);
    orch.submit(ParallelRun {
        id: "r".into(),
        tasks: vec![task("t1", "r", vec![], 5, TaskStatus::Pending), task("t2", "r", vec!["t1".into()], 9, TaskStatus::Pending)],
        status: RunStatus::Running, created_at: 0, max_concurrency: 4,
    });
    assert_eq!(orch.next_task().unwrap().id, "t1");
    assert!(orch.next_task().is_none());
    orch.complete_task("t1", result(false));
    assert_eq!(orch.get_run("r").unwrap().status, RunStatus::Running);
    assert_eq!(orch.next_task().unwrap().id, "t2");
    orch.complete_task("t2", result(true));
    let run = orch.get_run("r").unwrap();
    assert_eq!(run.status, RunStatus::PartiallyCompleted);
    assert_eq!(run.tasks[0].status, TaskStatus::Failed);
    assert!(run.tasks[0].completed_at.is_some());
    assert_eq!(run.tasks[1].status, TaskStatus::Completed);
}

#[test]
fn orchestrator_cancel_and_listing_order() {
    let mut orch = Orchestrator::new(4);
    for id in ["zeta", "alpha", "mid"] {
        orch.submit(ParallelRun {
            id: id.into(),
            tasks: vec![task(&format!("{id}-t"), id, vec![], 5, TaskStatus::Pending)],
            status: RunStatus::Running, created_at: 0, max_concurrency: 4,
        });
    }
    let ids: Vec<String> = orch.list_runs().iter().map(|r| r.id.clone()).collect();
    assert_eq!(ids, vec!["alpha", "mid", "zeta"]);
    orch.complete_task("mid-t", result(true));
    orch.cancel_task("mid-t");
    orch.cancel_task("alpha-t");
    assert_eq!(orch.get_run("mid").unwrap().tasks[0].status, TaskStatus::Completed);
    assert_eq!(orch.get_run("alpha").unwrap().tasks[0].status, TaskStatus::Cancelled);
    assert_eq!(orch.get_run("alpha").unwrap().status, RunStatus::Running);
    orch.complete_task("zeta-t", result(false));
    assert_eq!(orch.get_run("zeta").unwrap().status, RunStatus::Failed);
    assert!(orch.get_run("nope").is_none());
}

#[test]
fn worker_limit_caps_at_eight_and_idle_orchestrator() {
    use_worker_limit();
    let mut o = Orchestrator::new(2);
    assert!(o.is_idle());
    let run = ParallelRun {
        id: "r1".into(),
        tasks: vec![task("t1", "r1", vec![], 5, TaskStatus::Pending)],
        status: RunStatus::Running,
        created_at: 0,
        max_concurrency: 2,
    };
    o.submit(run);
    assert!(!o.is_idle());
    let t = o.next_task().unwrap();
    assert!(!o.is_idle());
    o.complete_task(&t.id, result(true));
    assert!(o.is_idle());
}

fn use_worker_limit() {
    assert_eq!(tachy_daemon::parallel::worker_limit(3), 3);
    assert_eq!(tachy_daemon::parallel::worker_limit(8), 8);
    assert_eq!(tachy_daemon::parallel::worker_limit(20), 8);
}

#[test]
fn cancelled_task_is_never_started() {
    let mut orch = Orchestrator::new(4);
    orch.submit(ParallelRun {
        id: "r".into(),
        tasks: vec![
            task("a", "r", vec![], 9, TaskStatus::Pending),
            task("b", "r", vec![], 5, TaskStatus::Pending),
        ],
        status: RunStatus::Running,
        created_at: 0,
        max_concurrency: 4,
    });
    assert_eq!(orch.pending_count(), 2);
    orch.cancel_task("a");
    assert_eq!(orch.pending_count(), 1);
    assert_eq!(orch.get_run("r").unwrap().tasks[0].status, TaskStatus::Cancelled);
    let next = orch.next_task().unwrap();
    assert_eq!(next.id, "b");
    assert!(orch.next_task().is_none());
}

#[test]
fn parallel_run_built_from_requests() {
    let reqs = vec![
        TaskRequest { template: "coder".into(), prompt: "write".into(), model: None, deps: vec![], priority: 5 },
        TaskRequest {
            template: "checker".into(),
            prompt: "check".into(),
            model: Some("m".into()),
            deps: vec!["run-7-t0".into()],
            priority: 9,
        },
    ];
    let run = build_parallel_run("run-7", &reqs, 20, 7);
    assert_eq!(run.id, "run-7");
    assert_eq!(run.status, RunStatus::Running);
    assert_eq!(run.created_at, 7);
    assert_eq!(run.max_concurrency, 8);
    assert_eq!(run.tasks.len(), 2);
    assert_eq!(run.tasks[0].id, "run-7-t0");
    assert_eq!(run.tasks[1].id, "run-7-t1");
    assert_eq!(run.tasks[1].run_id, "run-7");
    assert_eq!(run.tasks[1].model.as_deref(), Some("m"));
    assert_eq!(run.tasks[1].deps, vec!["run-7-t0".to_string()]);
    assert_eq!(run.tasks[1].priority, 9);
    assert_eq!(run.tasks[0].status, TaskStatus::Pending);
    assert_eq!(build_parallel_run("r", &[], 0, 1).max_concurrency, 1);
    assert_eq!(build_parallel_run("r", &[], 3, 1).max_concurrency, 3);
}
