//! Parallel agent execution: a dependency-aware, priority-scheduled task queue
//! and the orchestrator that tracks runs (DAGs of tasks) to completion.
use vstd::prelude::*;
use crate::strmap::StrMap;
use crate::httputil::chrono_now_secs;
use crate::text::{key_lt, clone_opt_string, clone_strings, decimal, decimal_string, list_contains, owned, str_eq, views};

verus! {

/// Lifecycle of one task.
#[derive(Debug, Clone, Copy, PartialEq, Eq, Structural)]
pub enum TaskStatus {
    Pending,
    Queued,
    Running,
    Completed,
    Failed,
    Cancelled,
}

/// What an agent reported when it finished a task.
#[derive(Debug, Clone)]
pub struct TaskResult {
    pub success: bool,
    pub summary: String,
    pub iterations: usize,
    pub tool_invocations: u32,
    pub audit_hash: String,
}

/// A task in the execution DAG.
#[derive(Debug, Clone)]
pub struct AgentTask {
    pub id: String,
    pub run_id: String,
    pub template: String,
    pub prompt: String,
    pub model: Option<String>,
    pub deps: Vec<String>,
    pub priority: u8,
    pub status: TaskStatus,
    pub result: Option<TaskResult>,
    pub created_at: u64,
    pub started_at: Option<u64>,
    pub completed_at: Option<u64>,
    /// The directory the task works in.
    pub work_dir: Option<String>,
}

/// Overall state of a run.
#[derive(Debug, Clone, Copy, PartialEq, Eq, Structural)]
pub enum RunStatus {
    Running,
    Completed,
    PartiallyCompleted,
    Failed,
    Cancelled,
}

/// A parallel execution run: a DAG of tasks.
#[derive(Debug, Clone)]
pub struct ParallelRun {
    pub id: String,
    pub tasks: Vec<AgentTask>,
    pub status: RunStatus,
    pub created_at: u64,
    pub max_concurrency: usize,
}

/// The model of a task result: its strings as character sequences.
pub struct TaskResultView {
    pub success: bool,
    pub summary: Seq<char>,
    pub iterations: usize,
    pub tool_invocations: u32,
    pub audit_hash: Seq<char>,
}

/// The model of a task: its strings as character sequences.
pub struct AgentTaskView {
    pub id: Seq<char>,
    pub run_id: Seq<char>,
    pub template: Seq<char>,
    pub prompt: Seq<char>,
    pub model: Option<Seq<char>>,
    pub deps: Seq<Seq<char>>,
    pub priority: u8,
    pub status: TaskStatus,
    pub result: Option<TaskResultView>,
    pub created_at: u64,
    pub started_at: Option<u64>,
    pub completed_at: Option<u64>,
    pub work_dir: Option<Seq<char>>,
}

/// The model of a run.
pub struct ParallelRunView {
    pub id: Seq<char>,
    pub tasks: Seq<AgentTaskView>,
    pub status: RunStatus,
    pub created_at: u64,
    pub max_concurrency: usize,
}

pub open spec fn opt_str_view(o: Option<String>) -> Option<Seq<char>> {
    match o {
        Some(s) => Some(s@),
        None => None,
    }
}

impl View for TaskResult {
    type V = TaskResultView;

    open spec fn view(&self) -> TaskResultView {
        TaskResultView {
            success: self.success,
            summary: self.summary@,
            iterations: self.iterations,
            tool_invocations: self.tool_invocations,
            audit_hash: self.audit_hash@,
        }
    }
}

pub open spec fn opt_result_view(o: Option<TaskResult>) -> Option<TaskResultView> {
    match o {
        Some(r) => Some(r@),
        None => None,
    }
}

impl View for AgentTask {
    type V = AgentTaskView;

    open spec fn view(&self) -> AgentTaskView {
        AgentTaskView {
            id: self.id@,
            run_id: self.run_id@,
            template: self.template@,
            prompt: self.prompt@,
            model: opt_str_view(self.model),
            deps: views(self.deps@),
            priority: self.priority,
            status: self.status,
            result: opt_result_view(self.result),
            created_at: self.created_at,
            started_at: self.started_at,
            completed_at: self.completed_at,
            work_dir: opt_str_view(self.work_dir),
        }
    }
}

/// The models of a list of tasks.
pub open spec fn task_views(s: Seq<AgentTask>) -> Seq<AgentTaskView> {
    s.map_values(|t: AgentTask| t@)
}

impl View for ParallelRun {
    type V = ParallelRunView;

    open spec fn view(&self) -> ParallelRunView {
        ParallelRunView {
            id: self.id@,
            tasks: task_views(self.tasks@),
            status: self.status,
            created_at: self.created_at,
            max_concurrency: self.max_concurrency,
        }
    }
}

impl TaskResult {
    /// A field-by-field copy.
    pub fn duplicate(&self) -> (r: TaskResult)
        ensures
            r == *self,
    {
        TaskResult {
            success: self.success,
            summary: self.summary.clone(),
            iterations: self.iterations,
            tool_invocations: self.tool_invocations,
            audit_hash: self.audit_hash.clone(),
        }
    }
}

fn clone_opt_result(r: &Option<TaskResult>) -> (c: Option<TaskResult>)
    ensures
        c == *r,
{
    match r {
        Some(x) => Some(x.duplicate()),
        None => None,
    }
}

impl AgentTask {
    /// A field-by-field copy.
    pub fn duplicate(&self) -> (r: AgentTask)
        ensures
            r@ == self@,
    {
        let deps = clone_strings(&self.deps);
        AgentTask {
            id: self.id.clone(),
            run_id: self.run_id.clone(),
            template: self.template.clone(),
            prompt: self.prompt.clone(),
            model: clone_opt_string(&self.model),
            deps,
            priority: self.priority,
            status: self.status,
            result: clone_opt_result(&self.result),
            created_at: self.created_at,
            started_at: self.started_at,
            completed_at: self.completed_at,
            work_dir: clone_opt_string(&self.work_dir),
        }
    }
}

/// The position at which a task of priority `p` joins the queue: after every
/// task of priority at least `p`, before the first of lower priority.
pub open spec fn insertion_index(s: Seq<AgentTaskView>, p: u8) -> int
    decreases s.len(),
{
    if s.len() == 0 {
        0
    } else if s[0].priority < p {
        0
    } else {
        1 + insertion_index(s.drop_first(), p)
    }
}

/// The queue after enqueueing `t`.
pub open spec fn enqueued(s: Seq<AgentTaskView>, t: AgentTaskView) -> Seq<AgentTaskView> {
    s.insert(insertion_index(s, t.priority), t)
}

/// Every dependency of `t` is among the completed task ids.
pub open spec fn deps_met(t: AgentTaskView, done: Seq<Seq<char>>) -> bool {
    forall|d: int| 0 <= d < t.deps.len() ==> done.contains(#[trigger] t.deps[d])
}

/// `t` may be handed out: it is queued and its dependencies are done.
pub open spec fn ready(t: AgentTaskView, done: Seq<Seq<char>>) -> bool {
    t.status == TaskStatus::Queued && deps_met(t, done)
}

/// The position of the first ready task, or the length when none is ready.
pub open spec fn first_ready(s: Seq<AgentTaskView>, done: Seq<Seq<char>>) -> int
    decreases s.len(),
{
    if s.len() == 0 {
        0
    } else if ready(s[0], done) {
        0
    } else {
        1 + first_ready(s.drop_first(), done)
    }
}

/// Sorted by non-increasing priority.
pub open spec fn priority_sorted(s: Seq<AgentTaskView>) -> bool {
    forall|i: int, j: int| 0 <= i < j < s.len() ==> #[trigger] s[i].priority >= #[trigger] s[j].priority
}

/// A cancellation of `id` withdraws this queued task: it has that id and has
/// not completed.
pub open spec fn withdrawn(t: AgentTaskView, id: Seq<char>) -> bool {
    t.id == id && t.status != TaskStatus::Completed
}

/// The queue after a cancellation of `id`: the withdrawn tasks leave it, the
/// others keep their order.
pub open spec fn without_cancelled(s: Seq<AgentTaskView>, id: Seq<char>) -> Seq<AgentTaskView>
    decreases s.len(),
{
    if s.len() == 0 {
        s
    } else {
        let rest = without_cancelled(s.drop_last(), id);
        if withdrawn(s.last(), id) {
            rest
        } else {
            rest.push(s.last())
        }
    }
}

pub proof fn lemma_insertion_index(s: Seq<AgentTaskView>, p: u8)
    ensures
        0 <= insertion_index(s, p) <= s.len(),
        forall|j: int| 0 <= j < insertion_index(s, p) ==> #[trigger] s[j].priority >= p,
        insertion_index(s, p) < s.len() ==> s[insertion_index(s, p)].priority < p,
    decreases s.len(),
{
    if s.len() > 0 && s[0].priority >= p {
        lemma_insertion_index(s.drop_first(), p);
        assert forall|j: int| 0 <= j < insertion_index(s, p) implies #[trigger] s[j].priority >= p by {
            if j > 0 {
                assert(s[j] == s.drop_first()[j - 1]);
            }
        }
    }
}

pub proof fn lemma_first_ready(s: Seq<AgentTaskView>, done: Seq<Seq<char>>)
    ensures
        0 <= first_ready(s, done) <= s.len(),
        forall|j: int| 0 <= j < first_ready(s, done) ==> !ready(#[trigger] s[j], done),
        first_ready(s, done) < s.len() ==> ready(s[first_ready(s, done)], done),
    decreases s.len(),
{
    if s.len() > 0 && !ready(s[0], done) {
        lemma_first_ready(s.drop_first(), done);
        assert forall|j: int| 0 <= j < first_ready(s, done) implies !ready(#[trigger] s[j], done) by {
            if j > 0 {
                assert(s[j] == s.drop_first()[j - 1]);
            }
        }
    }
}

/// Law: a polled task is the highest-priority ready task, and the first
/// enqueued among ready tasks of that priority; no ready task waits ahead of it.
pub proof fn law_poll_takes_highest_priority_ready(s: Seq<AgentTaskView>, done: Seq<Seq<char>>)
    requires
        priority_sorted(s),
    ensures
        first_ready(s, done) < s.len() ==> ready(s[first_ready(s, done)], done),
        forall|j: int| 0 <= j < first_ready(s, done) ==> !ready(#[trigger] s[j], done),
        forall|j: int|
            first_ready(s, done) <= j < s.len() && ready(#[trigger] s[j], done) ==> s[j].priority
                <= s[first_ready(s, done)].priority,
{
    lemma_first_ready(s, done);
}

/// Law: a task joins the queue behind every task of equal or higher priority
/// and ahead of every task of lower priority, and the queue stays sorted.
pub proof fn law_enqueue_order(s: Seq<AgentTaskView>, t: AgentTaskView)
    requires
        priority_sorted(s),
    ensures
        priority_sorted(enqueued(s, t)),
        ({
            let k = insertion_index(s, t.priority);
            &&& 0 <= k <= s.len()
            &&& enqueued(s, t)[k] == t
            &&& forall|j: int| 0 <= j < k ==> #[trigger] s[j].priority >= t.priority
            &&& forall|j: int| k <= j < s.len() ==> #[trigger] s[j].priority < t.priority
        }),
{
    lemma_insertion_index(s, t.priority);
    lemma_enqueued_sorted(s, t);
}

/// Enqueueing keeps the queue sorted by priority.
pub proof fn lemma_enqueued_sorted(s: Seq<AgentTaskView>, t: AgentTaskView)
    requires
        priority_sorted(s),
    ensures
        priority_sorted(enqueued(s, t)),
{
    lemma_insertion_index(s, t.priority);
    let k = insertion_index(s, t.priority);
    let r = enqueued(s, t);
    assert forall|i: int, j: int| 0 <= i < j < r.len() implies #[trigger] r[i].priority >= #[trigger] r[j].priority by {
        if j < k {
        } else if j == k {
        } else if i < k {
            assert(r[j] == s[j - 1]);
            assert(s[i].priority >= t.priority);
            assert(s[k].priority < t.priority);
            if j - 1 > k {
                assert(s[k].priority >= s[j - 1].priority);
            }
        } else if i == k {
            assert(r[j] == s[j - 1]);
            assert(s[k].priority < t.priority);
            if j - 1 > k {
                assert(s[k].priority >= s[j - 1].priority);
            }
        } else {
            assert(r[i] == s[i - 1]);
            assert(r[j] == s[j - 1]);
        }
    }
}

/// The queue: dependency-aware and priority-scheduled.
pub struct TaskQueue {
    tasks: Vec<AgentTask>,
}

impl TaskQueue {
    /// The queued tasks, front first.
    pub closed spec fn view(&self) -> Seq<AgentTaskView> {
        task_views(self.tasks@)
    }

    /// A queue built by `new`, `enqueue` and `poll` is sorted by priority.
    pub open spec fn wf(&self) -> bool {
        priority_sorted(self@)
    }

    pub fn new() -> (q: TaskQueue)
        ensures
            q@ == Seq::<AgentTaskView>::empty(),
            q.wf(),
    {
        let q = TaskQueue { tasks: Vec::new() };
        assert(q@ =~= Seq::<AgentTaskView>::empty());
        q
    }

    /// Adds a task: higher priority earlier in the queue, after every task of
    /// the same or higher priority.
    pub fn enqueue(&mut self, task: AgentTask)
        ensures
            final(self)@ == enqueued(old(self)@, task@),
            old(self).wf() ==> final(self).wf(),
    {
        let ghost s = self@;
        let ghost p = task.priority;
        let mut i: usize = 0;
        assert(s.skip(0) =~= s);
        while i < self.tasks.len() && self.tasks[i].priority >= task.priority
            invariant
                self@ == s,
                p == task.priority,
                i <= s.len(),
                insertion_index(s, p) == i + insertion_index(s.skip(i as int), p),
            decreases s.len() - i,
        {
            assert(s.skip(i as int).drop_first() =~= s.skip(i + 1));
            i = i + 1;
        }
        proof {
            if i < s.len() {
                assert(s.skip(i as int)[0] == s[i as int]);
            }
        }
        let ghost tv = task@;
        let ghost raw = self.tasks@;
        self.tasks.insert(i, task);
        proof {
            assert(self@ =~= s.insert(i as int, tv));
            if old(self).wf() {
                lemma_enqueued_sorted(s, tv);
            }
        }
    }

    /// Removes and returns the first queued task whose dependencies have all
    /// completed; `None` when no task is ready.
    pub fn poll(&mut self, completed: &[String]) -> (r: Option<AgentTask>)
        ensures
            ({
                let k = first_ready(old(self)@, views(completed@));
                &&& k < old(self)@.len() ==> r is Some && r.unwrap()@ == old(self)@[k]
                    && final(self)@ == old(self)@.remove(k)
                &&& k == old(self)@.len() ==> r is None && final(self)@ == old(self)@
            }),
            old(self).wf() ==> final(self).wf(),
    {
        let ghost s = self@;
        let ghost done = views(completed@);
        proof {
            lemma_first_ready(s, done);
        }
        let mut i: usize = 0;
        assert(s.skip(0) =~= s);
        while i < self.tasks.len()
            invariant
                self@ == s,
                s == old(self)@,
                done == views(completed@),
                i <= s.len(),
                first_ready(s, done) == i + first_ready(s.skip(i as int), done),
            decreases s.len() - i,
        {
            let queued = self.tasks[i].status == TaskStatus::Queued;
            let met = all_deps_completed(&self.tasks[i].deps, completed);
            assert(queued == (s[i as int].status == TaskStatus::Queued));
            assert(s[i as int].deps == views(self.tasks@[i as int].deps@));
            assert(met == deps_met(s[i as int], done));
            let ok = queued && met;
            assert(s.skip(i as int)[0] == s[i as int]);
            assert(s[i as int] == self.tasks@[i as int]@);
            assert(ok == ready(s[i as int], done));
            if ok {
                proof {
                    assert(ready(s[i as int], done));
                    assert(first_ready(s.skip(i as int), done) == 0);
                }
                let ghost raw = self.tasks@;
                let t = self.tasks.remove(i);
                proof {
                    assert(self@ =~= s.remove(i as int));
                    assert(t@ == s[i as int]);
                    assert(priority_sorted(s) ==> priority_sorted(self@)) by {
                        if priority_sorted(s) {
                            assert forall|a: int, b: int|
                                0 <= a < b < self@.len() implies #[trigger] self@[a].priority
                                >= #[trigger] self@[b].priority by {
                                if a < i && b >= i {
                                    assert(self@[b] == s[b + 1]);
                                } else if a >= i {
                                    assert(self@[a] == s[a + 1]);
                                    assert(self@[b] == s[b + 1]);
                                }
                            }
                        }
                    }
                }
                return Some(t);
            }
            assert(s.skip(i as int).drop_first() =~= s.skip(i + 1));
            i = i + 1;
        }
        None
    }

    pub fn len(&self) -> (n: usize)
        ensures
            n == self@.len(),
    {
        self.tasks.len()
    }

    pub fn is_empty(&self) -> (b: bool)
        ensures
            b == (self@.len() == 0),
    {
        self.tasks.len() == 0
    }

    /// Takes out every task that a cancellation of `id` withdraws.
    fn withdraw(&mut self, id: &str)
        requires
            old(self).wf(),
        ensures
            final(self).wf(),
            final(self)@ == without_cancelled(old(self)@, id@),
            forall|k: int| 0 <= k < final(self)@.len() ==> !withdrawn(#[trigger] final(self)@[k], id@),
    {
        let ghost s = self@;
        let mut kept: Vec<AgentTask> = Vec::new();
        let mut i: usize = 0;
        while i < self.tasks.len()
            invariant
                self@ == s,
                priority_sorted(s),
                i <= s.len(),
                task_views(kept@) == without_cancelled(s.take(i as int), id@),
                priority_sorted(task_views(kept@)),
                forall|k: int| 0 <= k < kept@.len() ==> !withdrawn(#[trigger] task_views(kept@)[k], id@),
                forall|k: int, j: int|
                    0 <= k < kept@.len() && i <= j < s.len() ==> #[trigger] task_views(kept@)[k].priority
                        >= #[trigger] s[j].priority,
            decreases s.len() - i,
        {
            let t = &self.tasks[i];
            let drop = str_eq(t.id.as_str(), id) && t.status != TaskStatus::Completed;
            proof {
                assert(s[i as int] == self.tasks@[i as int]@);
                assert(s.take(i + 1).drop_last() =~= s.take(i as int));
                assert(s.take(i + 1).last() == s[i as int]);
            }
            if !drop {
                let c = t.duplicate();
                let ghost before = kept@;
                kept.push(c);
                proof {
                    assert(task_views(kept@) =~= task_views(before).push(s[i as int]));
                    assert forall|a: int, b: int|
                        0 <= a < b < task_views(kept@).len() implies #[trigger] task_views(kept@)[a].priority
                        >= #[trigger] task_views(kept@)[b].priority by {
                        if b == before.len() {
                            assert(task_views(kept@)[a] == task_views(before)[a]);
                        } else {
                            assert(task_views(kept@)[a] == task_views(before)[a]);
                            assert(task_views(kept@)[b] == task_views(before)[b]);
                        }
                    }
                    assert forall|k: int| 0 <= k < kept@.len() implies !withdrawn(
                        #[trigger] task_views(kept@)[k],
                        id@,
                    ) by {
                        if k < before.len() {
                            assert(task_views(kept@)[k] == task_views(before)[k]);
                        }
                    }
                    assert forall|k: int, j: int|
                        0 <= k < kept@.len() && i + 1 <= j < s.len() implies #[trigger] task_views(
                        kept@,
                    )[k].priority >= #[trigger] s[j].priority by {
                        if k < before.len() {
                            assert(task_views(kept@)[k] == task_views(before)[k]);
                        }
                    }
                }
            }
            i = i + 1;
        }
        proof {
            assert(s.take(s.len() as int) =~= s);
        }
        self.tasks = kept;
    }
}

/// True when every dependency is among the completed ids.
fn all_deps_completed(deps: &Vec<String>, completed: &[String]) -> (b: bool)
    ensures
        b == (forall|d: int| 0 <= d < views(deps@).len() ==> views(completed@).contains(#[trigger] views(deps@)[d])),
{
    let mut i: usize = 0;
    while i < deps.len()
        invariant
            i <= deps@.len(),
            forall|d: int| 0 <= d < i ==> views(completed@).contains(#[trigger] views(deps@)[d]),
        decreases deps@.len() - i,
    {
        if !list_contains(completed, &deps[i]) {
            assert(views(deps@)[i as int] == deps@[i as int]@);
            return false;
        }
        i = i + 1;
    }
    true
}

} // verus!

verus! {

/// A task copied into the queue by `submit`.
pub open spec fn mark_queued(t: AgentTaskView) -> AgentTaskView {
    AgentTaskView { status: TaskStatus::Queued, ..t }
}

/// The queue after enqueueing each of `ts`, in order.
pub open spec fn enqueue_all(q: Seq<AgentTaskView>, ts: Seq<AgentTaskView>) -> Seq<AgentTaskView>
    decreases ts.len(),
{
    if ts.len() == 0 {
        q
    } else {
        enqueue_all(enqueued(q, ts[0]), ts.drop_first())
    }
}

/// The task as handed to a worker.
pub open spec fn started(t: AgentTaskView, at: Option<u64>) -> AgentTaskView {
    AgentTaskView { status: TaskStatus::Running, started_at: at, ..t }
}

/// The task after its result came back.
pub open spec fn finished(t: AgentTaskView, res: TaskResultView, at: Option<u64>) -> AgentTaskView {
    AgentTaskView {
        status: if res.success {
            TaskStatus::Completed
        } else {
            TaskStatus::Failed
        },
        completed_at: at,
        result: Some(res),
        ..t
    }
}

/// A task that will not run again.
pub open spec fn is_done(s: TaskStatus) -> bool {
    s == TaskStatus::Completed || s == TaskStatus::Failed || s == TaskStatus::Cancelled
}

pub open spec fn all_done(ts: Seq<AgentTaskView>) -> bool {
    forall|k: int| 0 <= k < ts.len() ==> is_done(#[trigger] ts[k].status)
}

/// The status of a run whose tasks are all done.
pub open spec fn rollup(ts: Seq<AgentTaskView>) -> RunStatus {
    if forall|k: int| 0 <= k < ts.len() ==> #[trigger] ts[k].status == TaskStatus::Completed {
        RunStatus::Completed
    } else if exists|k: int| 0 <= k < ts.len() && #[trigger] ts[k].status == TaskStatus::Completed {
        RunStatus::PartiallyCompleted
    } else {
        RunStatus::Failed
    }
}

/// The status a run takes once its tasks are `ts`.
pub open spec fn settled_status(prev: RunStatus, ts: Seq<AgentTaskView>) -> RunStatus {
    if all_done(ts) {
        rollup(ts)
    } else {
        prev
    }
}

/// `new` is `old` after the task `id` reported `res`: every task with that id
/// finished (with some completion time), the run's status settled.
pub open spec fn completed_run(
    old: ParallelRunView,
    new: ParallelRunView,
    id: Seq<char>,
    res: TaskResultView,
) -> bool {
    &&& new.id == old.id
    &&& new.created_at == old.created_at
    &&& new.max_concurrency == old.max_concurrency
    &&& new.tasks.len() == old.tasks.len()
    &&& forall|k: int|
        0 <= k < old.tasks.len() ==> if (#[trigger] old.tasks[k]).id == id {
            new.tasks[k] == finished(old.tasks[k], res, new.tasks[k].completed_at)
                && new.tasks[k].completed_at is Some
        } else {
            new.tasks[k] == old.tasks[k]
        }
    &&& new.status == settled_status(old.status, new.tasks)
}

/// The task after a cancellation request for `id`: cancelled unless completed.
pub open spec fn cancelled(t: AgentTaskView, id: Seq<char>) -> AgentTaskView {
    if t.id == id && t.status != TaskStatus::Completed {
        AgentTaskView { status: TaskStatus::Cancelled, ..t }
    } else {
        t
    }
}

pub open spec fn cancelled_run(old: ParallelRunView, id: Seq<char>) -> ParallelRunView {
    ParallelRunView { tasks: old.tasks.map_values(|t: AgentTaskView| cancelled(t, id)), ..old }
}

pub open spec fn run_views(s: Seq<ParallelRun>) -> Seq<ParallelRunView> {
    s.map_values(|r: ParallelRun| r@)
}

fn all_tasks_done(ts: &Vec<AgentTask>) -> (b: bool)
    ensures
        b == all_done(task_views(ts@)),
{
    let mut i: usize = 0;
    while i < ts.len()
        invariant
            i <= ts@.len(),
            forall|k: int| 0 <= k < i ==> is_done(#[trigger] task_views(ts@)[k].status),
        decreases ts@.len() - i,
    {
        let st = ts[i].status;
        assert(task_views(ts@)[i as int].status == st);
        if !(st == TaskStatus::Completed || st == TaskStatus::Failed || st == TaskStatus::Cancelled) {
            return false;
        }
        i = i + 1;
    }
    true
}

fn rollup_status(ts: &Vec<AgentTask>) -> (s: RunStatus)
    ensures
        s == rollup(task_views(ts@)),
{
    let ghost v = task_views(ts@);
    let mut all_completed = true;
    let mut any_completed = false;
    let mut i: usize = 0;
    while i < ts.len()
        invariant
            v == task_views(ts@),
            i <= ts@.len(),
            all_completed == (forall|k: int| 0 <= k < i ==> #[trigger] v[k].status == TaskStatus::Completed),
            any_completed == (exists|k: int| 0 <= k < i && #[trigger] v[k].status == TaskStatus::Completed),
        decreases ts@.len() - i,
    {
        let c = ts[i].status == TaskStatus::Completed;
        assert(v[i as int].status == ts@[i as int].status);
        proof {
            if !c {
                assert(!(v[i as int].status == TaskStatus::Completed));
            }
        }
        all_completed = all_completed && c;
        any_completed = any_completed || c;
        i = i + 1;
    }
    if all_completed {
        RunStatus::Completed
    } else if any_completed {
        RunStatus::PartiallyCompleted
    } else {
        RunStatus::Failed
    }
}

/// One run after the task `task_id` reported `result`.
fn complete_in_run(run: &ParallelRun, task_id: &str, result: &TaskResult) -> (r: ParallelRun)
    ensures
        completed_run(run@, r@, task_id@, result@),
{
    let mut tasks: Vec<AgentTask> = Vec::new();
    let mut i: usize = 0;
    while i < run.tasks.len()
        invariant
            i <= run.tasks@.len(),
            tasks@.len() == i,
            forall|k: int|
                0 <= k < i ==> if (#[trigger] task_views(run.tasks@)[k]).id == task_id@ {
                    task_views(tasks@)[k] == finished(
                        task_views(run.tasks@)[k],
                        result@,
                        task_views(tasks@)[k].completed_at,
                    ) && task_views(tasks@)[k].completed_at is Some
                } else {
                    task_views(tasks@)[k] == task_views(run.tasks@)[k]
                },
        decreases run.tasks@.len() - i,
    {
        let t = &run.tasks[i];
        let mut c = t.duplicate();
        if str_eq(t.id.as_str(), task_id) {
            c.status = if result.success {
                TaskStatus::Completed
            } else {
                TaskStatus::Failed
            };
            c.completed_at = Some(chrono_now_secs());
            c.result = Some(result.duplicate());
        }
        tasks.push(c);
        proof {
            assert forall|k: int|
                0 <= k < i + 1 implies if (#[trigger] task_views(run.tasks@)[k]).id == task_id@ {
                task_views(tasks@)[k] == finished(
                    task_views(run.tasks@)[k],
                    result@,
                    task_views(tasks@)[k].completed_at,
                ) && task_views(tasks@)[k].completed_at is Some
            } else {
                task_views(tasks@)[k] == task_views(run.tasks@)[k]
            } by {
                if k < i {
                    assert(task_views(tasks@)[k] == task_views(old_tasks_prefix(tasks@, i))[k]);
                }
            }
        }
        i = i + 1;
    }
    let done = all_tasks_done(&tasks);
    let status = if done {
        rollup_status(&tasks)
    } else {
        run.status
    };
    ParallelRun {
        id: run.id.clone(),
        tasks,
        status,
        created_at: run.created_at,
        max_concurrency: run.max_concurrency,
    }
}

spec fn old_tasks_prefix(s: Seq<AgentTask>, n: usize) -> Seq<AgentTask> {
    s.subrange(0, n as int)
}

} // verus!

verus! {

/// One run after a cancellation request for `task_id`.
fn cancel_in_run(run: &ParallelRun, task_id: &str) -> (r: ParallelRun)
    ensures
        r@ == cancelled_run(run@, task_id@),
{
    let mut tasks: Vec<AgentTask> = Vec::new();
    let mut i: usize = 0;
    while i < run.tasks.len()
        invariant
            i <= run.tasks@.len(),
            task_views(tasks@) =~= task_views(run.tasks@).subrange(0, i as int).map_values(
                |t: AgentTaskView| cancelled(t, task_id@),
            ),
        decreases run.tasks@.len() - i,
    {
        let t = &run.tasks[i];
        let mut c = t.duplicate();
        if str_eq(t.id.as_str(), task_id) && t.status != TaskStatus::Completed {
            c.status = TaskStatus::Cancelled;
        }
        proof {
            assert(task_views(run.tasks@)[i as int] == t@);
            assert(c@ == cancelled(t@, task_id@));
        }
        let ghost prev = task_views(tasks@);
        tasks.push(c);
        proof {
            assert(task_views(tasks@) =~= prev.push(c@));
            assert(task_views(run.tasks@).subrange(0, i + 1) =~= task_views(run.tasks@).subrange(
                0,
                i as int,
            ).push(t@));
        }
        i = i + 1;
    }
    let r = ParallelRun {
        id: run.id.clone(),
        tasks,
        status: run.status,
        created_at: run.created_at,
        max_concurrency: run.max_concurrency,
    };
    assert(task_views(run.tasks@).subrange(0, run.tasks@.len() as int) =~= task_views(run.tasks@));
    r
}

/// One task of a request for a parallel run. Its prompt is the sanitised
/// one: the caller runs `audit::sanitize_prompt` on the raw prompt first.
#[derive(Debug, Clone)]
pub struct TaskRequest {
    pub template: String,
    pub prompt: String,
    pub model: Option<String>,
    pub deps: Vec<String>,
    pub priority: u8,
}

/// The id of the `i`-th task of run `run_id`: `<run_id>-t<i>`.
pub open spec fn task_id_of(run_id: Seq<char>, i: nat) -> Seq<char> {
    run_id + "-t"@ + decimal(i)
}

/// The task made from the `i`-th request of run `run_id` at time `now`:
/// pending, with nothing started, finished or assigned yet.
pub open spec fn requested_task(run_id: Seq<char>, i: nat, req: TaskRequest, now: u64) -> AgentTaskView {
    AgentTaskView {
        id: task_id_of(run_id, i),
        run_id: run_id,
        template: req.template@,
        prompt: req.prompt@,
        model: opt_str_view(req.model),
        deps: views(req.deps@),
        priority: req.priority,
        status: TaskStatus::Pending,
        result: None,
        created_at: now,
        started_at: None,
        completed_at: None,
        work_dir: None,
    }
}

/// A run's concurrency: what it asked for, kept within one to eight.
pub open spec fn clamped_concurrency(n: usize) -> usize {
    if n < 1 {
        1
    } else if n > 8 {
        8
    } else {
        n
    }
}

/// Builds the run `run_id` from its task requests at time `now`: one pending
/// task per request, in order, named `<run_id>-t<i>`; the run is running
/// with its concurrency kept within one to eight. Each prompt must already
/// have been sanitised (`audit::sanitize_prompt` with a 50,000 limit, done by
/// the caller); it is stored exactly as given.
pub fn build_parallel_run(run_id: &str, reqs: &[TaskRequest], max_concurrency: usize, now: u64) -> (r: ParallelRun)
    ensures
        r@.id == run_id@,
        r@.status == RunStatus::Running,
        r@.created_at == now,
        r@.max_concurrency == clamped_concurrency(max_concurrency),
        r@.tasks.len() == reqs@.len(),
        forall|i: int|
            0 <= i < reqs@.len() ==> #[trigger] r@.tasks[i] == requested_task(run_id@, i as nat, reqs@[i], now),
{
    let mut tasks: Vec<AgentTask> = Vec::new();
    let mut i: usize = 0;
    while i < reqs.len()
        invariant
            i <= reqs@.len(),
            tasks@.len() == i,
            forall|j: int|
                0 <= j < i ==> #[trigger] tasks@[j]@ == requested_task(run_id@, j as nat, reqs@[j], now),
        decreases reqs@.len() - i,
    {
        let req = &reqs[i];
        let mut id = owned(run_id);
        id.append("-t");
        let n = decimal_string(i as u64);
        id.append(n.as_str());
        proof {
            reveal_strlit("-t");
        }
        let t = AgentTask {
            id,
            run_id: owned(run_id),
            template: req.template.clone(),
            prompt: req.prompt.clone(),
            model: clone_opt_string(&req.model),
            deps: clone_strings(&req.deps),
            priority: req.priority,
            status: TaskStatus::Pending,
            result: None,
            created_at: now,
            started_at: None,
            completed_at: None,
            work_dir: None,
        };
        assert(t@ == requested_task(run_id@, i as nat, reqs@[i as int], now));
        tasks.push(t);
        i = i + 1;
    }
    let mc: usize = if max_concurrency < 1 {
        1
    } else if max_concurrency > 8 {
        8
    } else {
        max_concurrency
    };
    let r = ParallelRun { id: owned(run_id), tasks, status: RunStatus::Running, created_at: now, max_concurrency: mc };
    proof {
        assert forall|i: int| 0 <= i < reqs@.len() implies #[trigger] r@.tasks[i] == requested_task(
            run_id@,
            i as nat,
            reqs@[i],
            now,
        ) by {
            assert(r@.tasks[i] == r.tasks@[i]@);
        }
    }
    r
}

/// The parallel execution orchestrator.
pub struct Orchestrator {
    runs: StrMap<ParallelRun>,
    queue: TaskQueue,
    completed_tasks: Vec<String>,
    max_workers: usize,
    active_workers: usize,
}

impl Orchestrator {
    /// Ids of the submitted runs, in increasing order.
    pub closed spec fn run_ids(&self) -> Seq<Seq<char>> {
        self.runs.key_seq()
    }

    /// The submitted runs, in the order of their ids.
    pub closed spec fn runs(&self) -> Seq<ParallelRunView> {
        run_views(self.runs.val_seq())
    }

    /// The run submitted under `id`, if any.
    pub closed spec fn run_of(&self, id: Seq<char>) -> Option<ParallelRunView> {
        match self.runs.lookup(id) {
            Some(r) => Some(r@),
            None => None,
        }
    }

    /// Tasks waiting to be handed out, front first.
    pub closed spec fn queued(&self) -> Seq<AgentTaskView> {
        self.queue@
    }

    /// Ids of the tasks reported complete, oldest first.
    pub closed spec fn completed(&self) -> Seq<Seq<char>> {
        views(self.completed_tasks@)
    }

    pub closed spec fn max_workers(&self) -> usize {
        self.max_workers
    }

    /// Tasks handed out and not yet reported.
    pub closed spec fn active(&self) -> usize {
        self.active_workers
    }

    /// Runs kept by id, the queue sorted by priority, and never more tasks
    /// out than there are workers.
    pub closed spec fn wf(&self) -> bool {
        &&& self.runs.wf()
        &&& self.queue.wf()
        &&& self.active_workers <= self.max_workers
        &&& forall|i: int|
            0 <= i < self.runs.key_seq().len() ==> #[trigger] self.runs.val_seq()[i].id@
                == self.runs.key_seq()[i]
    }

    pub fn new(max_workers: usize) -> (o: Orchestrator)
        ensures
            o.wf(),
            o.run_ids().len() == 0,
            o.runs().len() == 0,
            o.queued().len() == 0,
            o.completed().len() == 0,
            o.max_workers() == max_workers,
            o.active() == 0,
    {
        let o = Orchestrator {
            runs: StrMap::new(),
            queue: TaskQueue::new(),
            completed_tasks: Vec::new(),
            max_workers,
            active_workers: 0,
        };
        proof {
            assert(o.runs().len() == 0);
        }
        o
    }

    /// Submits a run: every task is queued (with status `Queued`), and the run
    /// is stored under its id, replacing any run with the same id.
    pub fn submit(&mut self, run: ParallelRun) -> (id: String)
        requires
            old(self).wf(),
        ensures
            final(self).wf(),
            id@ == run.id@,
            final(self).queued() == enqueue_all(
                old(self).queued(),
                run@.tasks.map_values(|t: AgentTaskView| mark_queued(t)),
            ),
            forall|q: Seq<char>| #[trigger]
                final(self).run_of(q) == if q == run.id@ {
                    Some(run@)
                } else {
                    old(self).run_of(q)
                },
            final(self).completed() == old(self).completed(),
            final(self).max_workers() == old(self).max_workers(),
            final(self).active() == old(self).active(),
    {
        let run_id = run.id.clone();
        let ghost ts = run@.tasks.map_values(|t: AgentTaskView| mark_queued(t));
        let ghost q0 = self.queue@;
        let mut i: usize = 0;
        assert(ts.skip(0) =~= ts);
        while i < run.tasks.len()
            invariant
                i <= run.tasks@.len(),
                ts == run@.tasks.map_values(|t: AgentTaskView| mark_queued(t)),
                ts.len() == run.tasks@.len(),
                self.queue.wf(),
                enqueue_all(q0, ts) == enqueue_all(self.queue@, ts.skip(i as int)),
                self.runs == old(self).runs,
                self.completed_tasks == old(self).completed_tasks,
                self.max_workers == old(self).max_workers,
                self.active_workers == old(self).active_workers,
            decreases run.tasks@.len() - i,
        {
            let mut queued = run.tasks[i].duplicate();
            queued.status = TaskStatus::Queued;
            proof {
                assert(queued@ == ts[i as int]);
                assert(ts.skip(i as int)[0] == ts[i as int]);
                assert(ts.skip(i as int).drop_first() =~= ts.skip(i + 1));
            }
            self.queue.enqueue(queued);
            i = i + 1;
        }
        assert(ts.skip(ts.len() as int) =~= Seq::<AgentTaskView>::empty());
        let ghost rv = run@;
        let key = run.id.clone();
        let ghost old_runs = self.runs;
        self.runs.insert(key, run);
        proof {
            let ks = old_runs.key_seq();
            let vs = old_runs.val_seq();
            if old_runs.has(rv.id) {
                assert forall|i: int|
                    0 <= i < self.runs.key_seq().len() implies #[trigger] self.runs.val_seq()[i].id@
                    == self.runs.key_seq()[i] by {
                    let p = old_runs.pos(rv.id);
                    if i != p {
                        assert(self.runs.val_seq()[i] == vs[i]);
                    }
                }
            } else {
                let p = choose|p: int|
                    0 <= p <= ks.len() && self.runs.key_seq() == ks.insert(p, rv.id)
                        && self.runs.val_seq() == vs.insert(p, run);
                assert forall|i: int|
                    0 <= i < self.runs.key_seq().len() implies #[trigger] self.runs.val_seq()[i].id@
                    == self.runs.key_seq()[i] by {
                    if i < p {
                        assert(self.runs.val_seq()[i] == vs[i]);
                    } else if i > p {
                        assert(self.runs.val_seq()[i] == vs[i - 1]);
                    }
                }
            }
            assert forall|q: Seq<char>| #[trigger]
                self.run_of(q) == if q == rv.id {
                    Some(rv)
                } else {
                    old(self).run_of(q)
                } by {
                assert(self.runs.lookup(q) == if q == rv.id {
                    Some(run)
                } else {
                    old(self).runs.lookup(q)
                });
            }
        }
        run_id
    }

    /// Hands out the next ready task (dependencies completed, a worker
    /// free), marked `Running` with its start time.
    pub fn next_task(&mut self) -> (r: Option<AgentTask>)
        requires
            old(self).wf(),
        ensures
            final(self).wf(),
            final(self).runs() == old(self).runs(),
            final(self).run_ids() == old(self).run_ids(),
            forall|q: Seq<char>| #[trigger] final(self).run_of(q) == old(self).run_of(q),
            final(self).completed() == old(self).completed(),
            final(self).max_workers() == old(self).max_workers(),
            old(self).active() >= old(self).max_workers() ==> r is None && final(self).queued()
                == old(self).queued() && final(self).active() == old(self).active(),
            old(self).active() < old(self).max_workers() ==> ({
                let k = first_ready(old(self).queued(), old(self).completed());
                &&& k < old(self).queued().len() ==> r is Some && r.unwrap()@ == started(
                    old(self).queued()[k],
                    r.unwrap()@.started_at,
                ) && r.unwrap()@.started_at is Some && final(self).queued() == old(
                    self,
                ).queued().remove(k) && final(self).active() == old(self).active() + 1
                &&& k == old(self).queued().len() ==> r is None && final(self).queued() == old(
                    self,
                ).queued() && final(self).active() == old(self).active()
            }),
    {
        if self.active_workers >= self.max_workers {
            return None;
        }
        match self.queue.poll(self.completed_tasks.as_slice()) {
            Some(t) => {
                let mut task = t;
                task.status = TaskStatus::Running;
                task.started_at = Some(chrono_now_secs());
                self.active_workers = self.active_workers + 1;
                Some(task)
            },
            None => None,
        }
    }

    /// Records that `task_id` finished with `result`: the task is completed
    /// (or failed) in every run holding it, and each run whose tasks are all
    /// done takes its final status.
    pub fn complete_task(&mut self, task_id: &str, result: TaskResult)
        requires
            old(self).wf(),
        ensures
            final(self).wf(),
            final(self).completed() == old(self).completed().push(task_id@),
            final(self).active() == if old(self).active() == 0 {
                0
            } else {
                (old(self).active() - 1) as usize
            },
            final(self).run_ids() == old(self).run_ids(),
            final(self).runs().len() == old(self).runs().len(),
            forall|i: int|
                0 <= i < old(self).runs().len() ==> completed_run(
                    #[trigger] old(self).runs()[i],
                    final(self).runs()[i],
                    task_id@,
                    result@,
                ),
            final(self).queued() == old(self).queued(),
            final(self).max_workers() == old(self).max_workers(),
    {
        let tid = owned(task_id);
        self.completed_tasks.push(tid);
        assert(views(self.completed_tasks@) =~= views(old(self).completed_tasks@).push(task_id@));
        self.active_workers = if self.active_workers > 0 {
            self.active_workers - 1
        } else {
            0
        };
        let n = self.runs.len();
        let mut i: usize = 0;
        while i < n
            invariant
                old(self).wf(),
                n == old(self).runs.key_seq().len(),
                i <= n,
                self.runs.wf(),
                self.runs.key_seq() == old(self).runs.key_seq(),
                self.runs.val_seq().len() == n,
                forall|j: int|
                    0 <= j < n ==> #[trigger] self.runs.val_seq()[j].id@ == self.runs.key_seq()[j],
                self.queue == old(self).queue,
                self.active_workers <= self.max_workers,
                self.active_workers == if old(self).active_workers == 0 {
                    0
                } else {
                    (old(self).active_workers - 1) as usize
                },
                self.max_workers == old(self).max_workers,
                views(self.completed_tasks@) == views(old(self).completed_tasks@).push(task_id@),
                forall|j: int|
                    0 <= j < i ==> completed_run(
                        #[trigger] run_views(old(self).runs.val_seq())[j],
                        run_views(self.runs.val_seq())[j],
                        task_id@,
                        result@,
                    ),
                forall|j: int| i <= j < n ==> #[trigger] self.runs.val_seq()[j] == old(self).runs.val_seq()[j],
            decreases n - i,
        {
            let updated = complete_in_run(self.runs.value_at(i), task_id, &result);
            let ghost before = self.runs.val_seq();
            self.runs.set_at(i, updated);
            proof {
                assert forall|j: int|
                    0 <= j < i + 1 implies completed_run(
                    #[trigger] run_views(old(self).runs.val_seq())[j],
                    run_views(self.runs.val_seq())[j],
                    task_id@,
                    result@,
                ) by {
                    if j < i {
                        assert(self.runs.val_seq()[j] == before[j]);
                    } else {
                        assert(before[j] == old(self).runs.val_seq()[j]);
                    }
                }
                assert forall|j: int| i + 1 <= j < n implies #[trigger] self.runs.val_seq()[j]
                    == old(self).runs.val_seq()[j] by {
                    assert(self.runs.val_seq()[j] == before[j]);
                }
                assert forall|j: int|
                    0 <= j < n implies #[trigger] self.runs.val_seq()[j].id@ == self.runs.key_seq()[j] by {
                    if j != i {
                        assert(self.runs.val_seq()[j] == before[j]);
                    } else {
                        assert(updated@.id == before[j]@.id);
                    }
                }
            }
            i = i + 1;
        }
    }

    /// Cancels every task with this id that has not completed: it is marked
    /// `Cancelled` in every run and taken out of the queue, so it is never
    /// handed out.
    pub fn cancel_task(&mut self, task_id: &str)
        requires
            old(self).wf(),
        ensures
            final(self).wf(),
            final(self).run_ids() == old(self).run_ids(),
            final(self).runs() == old(self).runs().map_values(
                |r: ParallelRunView| cancelled_run(r, task_id@),
            ),
            final(self).queued() == without_cancelled(old(self).queued(), task_id@),
            forall|k: int|
                0 <= k < final(self).queued().len() ==> !withdrawn(#[trigger] final(self).queued()[k], task_id@),
            final(self).completed() == old(self).completed(),
            final(self).max_workers() == old(self).max_workers(),
            final(self).active() == old(self).active(),
    {
        self.queue.withdraw(task_id);
        let ghost q = self.queue;
        let n = self.runs.len();
        let mut i: usize = 0;
        while i < n
            invariant
                old(self).wf(),
                n == old(self).runs.key_seq().len(),
                i <= n,
                self.runs.wf(),
                self.runs.key_seq() == old(self).runs.key_seq(),
                self.runs.val_seq().len() == n,
                forall|j: int|
                    0 <= j < n ==> #[trigger] self.runs.val_seq()[j].id@ == self.runs.key_seq()[j],
                forall|j: int|
                    0 <= j < i ==> #[trigger] run_views(self.runs.val_seq())[j] == cancelled_run(
                        run_views(old(self).runs.val_seq())[j],
                        task_id@,
                    ),
                forall|j: int| i <= j < n ==> #[trigger] self.runs.val_seq()[j] == old(self).runs.val_seq()[j],
                self.queue == q,
                q.wf(),
                self.completed_tasks == old(self).completed_tasks,
                self.max_workers == old(self).max_workers,
                self.active_workers == old(self).active_workers,
            decreases n - i,
        {
            let updated = cancel_in_run(self.runs.value_at(i), task_id);
            let ghost before = self.runs.val_seq();
            assert(updated@ == cancelled_run(old(self).runs.val_seq()[i as int]@, task_id@));
            self.runs.set_at(i, updated);
            proof {
                assert forall|j: int|
                    0 <= j < i + 1 implies #[trigger] run_views(self.runs.val_seq())[j] == cancelled_run(
                    run_views(old(self).runs.val_seq())[j],
                    task_id@,
                ) by {
                    if j < i {
                        assert(self.runs.val_seq()[j] == before[j]);
                        assert(run_views(self.runs.val_seq())[j] == run_views(before)[j]);
                    } else {
                        assert(self.runs.val_seq()[j] == updated);
                        assert(run_views(self.runs.val_seq())[j] == updated@);
                        assert(run_views(old(self).runs.val_seq())[j] == old(self).runs.val_seq()[j]@);
                    }
                }
                assert forall|j: int| i + 1 <= j < n implies #[trigger] self.runs.val_seq()[j]
                    == old(self).runs.val_seq()[j] by {
                    assert(self.runs.val_seq()[j] == before[j]);
                }
                assert forall|j: int|
                    0 <= j < n implies #[trigger] self.runs.val_seq()[j].id@ == self.runs.key_seq()[j] by {
                    if j != i {
                        assert(self.runs.val_seq()[j] == before[j]);
                    } else {
                        assert(updated@.id == before[j]@.id);
                    }
                }
            }
            i = i + 1;
        }
        proof {
            assert(self.runs() =~= old(self).runs().map_values(
                |r: ParallelRunView| cancelled_run(r, task_id@),
            ));
        }
    }

    /// The run submitted under `run_id`.
    pub fn get_run(&self, run_id: &str) -> (r: Option<&ParallelRun>)
        requires
            self.wf(),
        ensures
            r matches Some(x) ==> self.run_of(run_id@) == Some(x@),
            r is None ==> self.run_of(run_id@) is None,
    {
        self.runs.get(run_id)
    }

    /// All runs, in the order of their ids.
    pub fn list_runs(&self) -> (r: Vec<&ParallelRun>)
        requires
            self.wf(),
        ensures
            r@.len() == self.runs().len(),
            forall|i: int| 0 <= i < r@.len() ==> (#[trigger] r@[i])@ == self.runs()[i],
    {
        let mut out: Vec<&ParallelRun> = Vec::new();
        let n = self.runs.len();
        let mut i: usize = 0;
        while i < n
            invariant
                self.wf(),
                n == self.runs.key_seq().len(),
                i <= n,
                out@.len() == i,
                forall|j: int| 0 <= j < i ==> (#[trigger] out@[j])@ == self.runs()[j],
            decreases n - i,
        {
            out.push(self.runs.value_at(i));
            i = i + 1;
        }
        out
    }

    /// Law: the runs are listed in strictly increasing id order, each under
    /// its own id, and the lookup by id finds exactly the listed runs.
    pub proof fn law_runs_listed_by_id(&self)
        requires
            self.wf(),
        ensures
            self.run_ids().len() == self.runs().len(),
            forall|i: int, j: int|
                0 <= i < j < self.run_ids().len() ==> key_lt(
                    #[trigger] self.run_ids()[i],
                    #[trigger] self.run_ids()[j],
                ),
            forall|i: int|
                0 <= i < self.runs().len() ==> (#[trigger] self.runs()[i]).id == self.run_ids()[i]
                    && self.run_of(self.run_ids()[i]) == Some(self.runs()[i]),
            forall|q: Seq<char>| #[trigger]
                self.run_of(q) is Some ==> self.run_ids().contains(q),
    {
        assert forall|i: int| 0 <= i < self.runs().len() implies (#[trigger] self.runs()[i]).id
            == self.run_ids()[i] && self.run_of(self.run_ids()[i]) == Some(self.runs()[i]) by {
            self.runs.lemma_pos(i);
        }
        assert forall|q: Seq<char>| #[trigger] self.run_of(q) is Some implies self.run_ids().contains(q) by {
            let i = self.runs.pos(q);
            assert(self.run_ids()[i] == q);
        }
    }

    /// Law: never more tasks handed out than there are workers.
    pub proof fn law_active_within_workers(&self)
        requires
            self.wf(),
        ensures
            self.active() <= self.max_workers(),
    {
    }

    pub fn active_count(&self) -> (n: usize)
        ensures
            n == self.active(),
    {
        self.active_workers
    }

    pub fn pending_count(&self) -> (n: usize)
        ensures
            n == self.queued().len(),
    {
        self.queue.len()
    }

    /// Nothing is queued and nothing is running: a worker loop can stop.
    pub fn is_idle(&self) -> (b: bool)
        ensures
            b == (self.queued().len() == 0 && self.active() == 0),
    {
        self.queue.len() == 0 && self.active_workers == 0
    }
}

/// How many agents a run executes at once: its own limit, at most eight.
pub fn worker_limit(max_concurrency: usize) -> (n: usize)
    ensures
        n == if max_concurrency < 8 { max_concurrency } else { 8 },
{
    if max_concurrency < 8 {
        max_concurrency
    } else {
        8
    }
}

} // verus!

verus! {

/// When a reported result leaves every task of a run Completed, Failed or
/// Cancelled, the run is settled and no longer Running: Completed when every
/// task completed, PartiallyCompleted when some did, Failed when none did.
/// While some task is in none of those three states, the run keeps its
/// status.
pub proof fn law_finished_run_settles(
    old: ParallelRunView,
    new: ParallelRunView,
    id: Seq<char>,
    res: TaskResultView,
)
    requires
        completed_run(old, new, id, res),
    ensures
        (forall|k: int|
            0 <= k < new.tasks.len() ==> #[trigger] new.tasks[k].status == TaskStatus::Completed
                || new.tasks[k].status == TaskStatus::Failed || new.tasks[k].status
                == TaskStatus::Cancelled) ==> {
            &&& new.status != RunStatus::Running
            &&& (forall|k: int| 0 <= k < new.tasks.len() ==> #[trigger] new.tasks[k].status
                == TaskStatus::Completed) ==> new.status == RunStatus::Completed
            &&& (exists|k: int| 0 <= k < new.tasks.len() && #[trigger] new.tasks[k].status
                == TaskStatus::Completed) && (exists|k: int| 0 <= k < new.tasks.len()
                && #[trigger] new.tasks[k].status != TaskStatus::Completed) ==> new.status
                == RunStatus::PartiallyCompleted
            &&& (forall|k: int| 0 <= k < new.tasks.len() ==> #[trigger] new.tasks[k].status
                != TaskStatus::Completed) && new.tasks.len() > 0 ==> new.status == RunStatus::Failed
        },
        (exists|k: int|
            0 <= k < new.tasks.len() && #[trigger] new.tasks[k].status != TaskStatus::Completed
                && new.tasks[k].status != TaskStatus::Failed && new.tasks[k].status
                != TaskStatus::Cancelled) ==> new.status == old.status,
{
    let ts = new.tasks;
    if forall|k: int|
        0 <= k < ts.len() ==> #[trigger] ts[k].status == TaskStatus::Completed || ts[k].status
            == TaskStatus::Failed || ts[k].status == TaskStatus::Cancelled {
        assert forall|k: int| 0 <= k < ts.len() implies is_done(#[trigger] ts[k].status) by {
            assert(ts[k].status == TaskStatus::Completed || ts[k].status == TaskStatus::Failed
                || ts[k].status == TaskStatus::Cancelled);
        }
        assert(all_done(ts));
        assert(new.status == rollup(ts));
        if ts.len() > 0 && forall|k: int| 0 <= k < ts.len() ==> #[trigger] ts[k].status != TaskStatus::Completed {
            assert(ts[0].status != TaskStatus::Completed);
        }
        if exists|k: int| 0 <= k < ts.len() && #[trigger] ts[k].status != TaskStatus::Completed {
            let k = choose|k: int| 0 <= k < ts.len() && #[trigger] ts[k].status != TaskStatus::Completed;
            assert(ts[k].status != TaskStatus::Completed);
        }
    }
    if exists|k: int|
        0 <= k < ts.len() && #[trigger] ts[k].status != TaskStatus::Completed && ts[k].status
            != TaskStatus::Failed && ts[k].status != TaskStatus::Cancelled {
        let k = choose|k: int|
            0 <= k < ts.len() && #[trigger] ts[k].status != TaskStatus::Completed && ts[k].status
                != TaskStatus::Failed && ts[k].status != TaskStatus::Cancelled;
        assert(!is_done(ts[k].status));
        assert(!all_done(ts));
    }
}

} // verus!
