//! The agent engine's own decisions: which tool calls an agent may make and
//! which a simulation suppresses, what a simulated tool call reports, which
//! file a write-only agent must produce, and how code is recognised.
use vstd::prelude::*;
use vstd::string::*;
use vstd::utf8::*;
use crate::httputil::{occurs_at, find_from, lemma_find_from, find_pattern};
use crate::channels::{clip_message, clipped, line_views, lines_of, slice, split_lines, starts, starts_with, strip_chars, trim};
use crate::marketplace::{AgentTemplate, AgentTemplateView};
use crate::parallel::TaskResult;
use crate::strmap::StrMap;
use crate::text::{chars_of, list_contains, owned, str_eq, string_from_chars, views};

verus! {

/// The result of running an agent to completion.
#[derive(Debug, Clone)]
pub struct AgentRunResult {
    pub agent_id: String,
    pub success: bool,
    pub iterations: usize,
    pub tool_invocations: u32,
    pub summary: String,
}

/// The engine that runs agents against the conversation runtime; the runs
/// themselves drive the model backends and tools outside this library.
#[derive(Debug, Clone, Copy)]
pub struct AgentEngine;

/// Where a self-optimisation proposal stands.
#[derive(Debug, Clone, Copy, PartialEq, Eq, Structural)]
pub enum OptimizationStatus {
    Pending,
    Approved,
    Rejected,
    Applied,
    RolledBack,
}

/// The self-evolution manager of one workspace.
#[derive(Debug, Clone)]
pub struct EvolutionManager {
    pub workspace_root: String,
}

impl EvolutionManager {
    pub fn new(workspace_root: &str) -> (m: Self)
        ensures
            m.workspace_root@ == workspace_root@,
    {
        EvolutionManager { workspace_root: owned(workspace_root) }
    }
}

/// The tools that change the workspace or the world, which a simulation
/// suppresses.
pub open spec fn is_mutation_tool(t: Seq<char>) -> bool {
    ||| t == "write_file"@
    ||| t == "replace_file_content"@
    ||| t == "multi_replace_file_content"@
    ||| t == "delete_file"@
    ||| t == "git_commit"@
    ||| t == "git_push"@
    ||| t == "run_command"@
}

/// What the tool executor does with a call before running anything.
#[derive(Debug, Clone, PartialEq, Eq)]
pub enum Dispatch {
    /// The agent may not use this tool; the message says so.
    Refuse(String),
    /// A simulation suppresses this tool; the message is its result.
    Suppress(String),
    /// The call goes ahead.
    Proceed,
}

pub enum DispatchView {
    Refuse(Seq<char>),
    Suppress(Seq<char>),
    Proceed,
}

impl View for Dispatch {
    type V = DispatchView;

    open spec fn view(&self) -> DispatchView {
        match self {
            Dispatch::Refuse(s) => DispatchView::Refuse(s@),
            Dispatch::Suppress(s) => DispatchView::Suppress(s@),
            Dispatch::Proceed => DispatchView::Proceed,
        }
    }
}

/// The first decision on a tool call: tools outside the agent's allowed
/// list are refused; in a simulation, mutation tools are suppressed with a
/// success message; anything else proceeds.
pub open spec fn dispatch_decision(allowed: Seq<Seq<char>>, is_simulation: bool, tool: Seq<char>) -> DispatchView {
    if !allowed.contains(tool) {
        DispatchView::Refuse("tool '"@ + tool + "' not in agent's allowed tools"@)
    } else if is_simulation && is_mutation_tool(tool) {
        DispatchView::Suppress("SUCCESS (Simulation): '"@ + tool + "' suppressed"@)
    } else {
        DispatchView::Proceed
    }
}

fn is_mutation(t: &str) -> (b: bool)
    ensures
        b == is_mutation_tool(t@),
{
    str_eq(t, "write_file") || str_eq(t, "replace_file_content") || str_eq(
        t,
        "multi_replace_file_content",
    ) || str_eq(t, "delete_file") || str_eq(t, "git_commit") || str_eq(t, "git_push") || str_eq(
        t,
        "run_command",
    )
}

/// Decides what happens to a tool call before it runs; see
/// `dispatch_decision`.
pub fn pre_dispatch(allowed_tools: &[String], is_simulation: bool, tool_name: &str) -> (d: Dispatch)
    ensures
        d@ == dispatch_decision(views(allowed_tools@), is_simulation, tool_name@),
{
    let name = owned(tool_name);
    if !list_contains(allowed_tools, &name) {
        let mut m = owned("tool '");
        m.append(tool_name);
        m.append("' not in agent's allowed tools");
        proof {
            reveal_strlit("tool '");
            reveal_strlit("' not in agent's allowed tools");
        }
        return Dispatch::Refuse(m);
    }
    if is_simulation && is_mutation(tool_name) {
        let mut m = owned("SUCCESS (Simulation): '");
        m.append(tool_name);
        m.append("' suppressed");
        proof {
            reveal_strlit("SUCCESS (Simulation): '");
            reveal_strlit("' suppressed");
        }
        return Dispatch::Suppress(m);
    }
    Dispatch::Proceed
}

/// Whether an agent has gone over the governance limit on tool calls.
pub fn exceeds_tool_limit(max_total_tool_invocations: Option<u32>, tool_count: u32) -> (b: bool)
    ensures
        b == (max_total_tool_invocations matches Some(m) && tool_count > m),
{
    match max_total_tool_invocations {
        Some(m) => tool_count > m,
        None => false,
    }
}

/// `pat` occurs somewhere in `s`.
pub open spec fn contains(s: Seq<char>, pat: Seq<char>) -> bool {
    exists|k: int| #[trigger] occurs_at(s, pat, k)
}

/// The language a piece of code looks like, by the keywords it holds.
pub open spec fn language_of(code: Seq<char>) -> Seq<char> {
    if contains(code, "fn "@) && (contains(code, "let "@) || contains(code, "pub "@)) {
        "rust"@
    } else if contains(code, "def "@) && contains(code, ":"@) {
        "python"@
    } else if contains(code, "function "@) || contains(code, "const "@) || contains(code, "=>"@) {
        "javascript"@
    } else if contains(code, "func "@) && contains(code, "package "@) {
        "go"@
    } else {
        "unknown"@
    }
}

/// Whether `pat` occurs in the characters `s`.
fn has(s: &Vec<char>, pat: &str) -> (b: bool)
    ensures
        b == contains(s@, pat@),
{
    let p = chars_of(pat);
    let r = find_pattern(s, &p, 0);
    proof {
        lemma_find_from(s@, p@, 0);
        if let Some(i) = r {
            assert(occurs_at(s@, pat@, i as int));
        }
    }
    r.is_some()
}

/// Recognises the language of a piece of code; see `language_of`.
pub fn detect_language_from_content(code: &str) -> (r: String)
    ensures
        r@ == language_of(code@),
{
    let c = chars_of(code);
    if has(&c, "fn ") && (has(&c, "let ") || has(&c, "pub ")) {
        owned("rust")
    } else if has(&c, "def ") && has(&c, ":") {
        owned("python")
    } else if has(&c, "function ") || has(&c, "const ") || has(&c, "=>") {
        owned("javascript")
    } else if has(&c, "func ") && has(&c, "package ") {
        owned("go")
    } else {
        owned("unknown")
    }
}

/// The output path that a prompt demands of an agent whose only tool is
/// `write_file`: the text after `REQUIRED_OUTPUT_PATH:` on the first line
/// that starts so, trimmed; nothing when that text is empty.
pub open spec fn required_path(prompt: Seq<char>, allowed: Seq<Seq<char>>) -> Option<Seq<char>> {
    if allowed.len() != 1 || allowed[0] != "write_file"@ {
        None
    } else {
        let ls = lines_of(prompt);
        if exists|i: int| 0 <= i < ls.len() && starts(ls[i], "REQUIRED_OUTPUT_PATH:"@) {
            let i = choose|i: int|
                0 <= i < ls.len() && starts(ls[i], "REQUIRED_OUTPUT_PATH:"@) && forall|j: int|
                    0 <= j < i ==> !starts(ls[j], "REQUIRED_OUTPUT_PATH:"@);
            let v = trim(ls[i].skip(21));
            if v.len() > 0 {
                Some(v)
            } else {
                None
            }
        } else {
            None
        }
    }
}

proof fn lemma_first_line_with(ls: Seq<Seq<char>>, i: int)
    requires
        0 <= i < ls.len(),
        starts(ls[i], "REQUIRED_OUTPUT_PATH:"@),
        forall|j: int| 0 <= j < i ==> !starts(ls[j], "REQUIRED_OUTPUT_PATH:"@),
    ensures
        forall|k: int|
            (0 <= k < ls.len() && starts(ls[k], "REQUIRED_OUTPUT_PATH:"@) && forall|j: int|
                0 <= j < k ==> !starts(ls[j], "REQUIRED_OUTPUT_PATH:"@)) ==> k == i,
{
    assert forall|k: int|
        (0 <= k < ls.len() && starts(ls[k], "REQUIRED_OUTPUT_PATH:"@) && forall|j: int|
            0 <= j < k ==> !starts(ls[j], "REQUIRED_OUTPUT_PATH:"@)) implies k == i by {
        if k < i {
        } else if k > i {
            assert(!starts(ls[i], "REQUIRED_OUTPUT_PATH:"@));
        }
    }
}

/// The file a write-only agent must produce; see `required_path`.
pub fn required_write_file_path(prompt: &str, allowed_tools: &[String]) -> (r: Option<String>)
    ensures
        r matches Some(p) ==> required_path(prompt@, views(allowed_tools@)) == Some(p@),
        r is None ==> required_path(prompt@, views(allowed_tools@)) is None,
{
    if allowed_tools.len() != 1 || !str_eq(allowed_tools[0].as_str(), "write_file") {
        proof {
            if allowed_tools@.len() == 1 {
                assert(views(allowed_tools@)[0] == allowed_tools@[0]@);
            }
        }
        return None;
    }
    proof {
        assert(views(allowed_tools@)[0] == allowed_tools@[0]@);
    }
    let cs = chars_of(prompt);
    let lines = split_lines(&cs);
    let mut i: usize = 0;
    while i < lines.len()
        invariant
            i <= lines@.len(),
            line_views(lines@) == lines_of(prompt@),
            views(allowed_tools@).len() == 1,
            views(allowed_tools@)[0] == "write_file"@,
            forall|j: int| 0 <= j < i ==> !starts(lines_of(prompt@)[j], "REQUIRED_OUTPUT_PATH:"@),
        decreases lines@.len() - i,
    {
        if starts_with(&lines[i], "REQUIRED_OUTPUT_PATH:") {
            proof {
                reveal_strlit("REQUIRED_OUTPUT_PATH:");
                let ls = lines_of(prompt@);
                assert(ls[i as int] == lines@[i as int]@);
                assert(0 <= i < ls.len() && starts(ls[i as int], "REQUIRED_OUTPUT_PATH:"@) && forall|j: int|
                    0 <= j < i ==> !starts(ls[j], "REQUIRED_OUTPUT_PATH:"@));
                lemma_first_line_with(ls, i as int);
            }
            let line = &lines[i];
            let rest = slice(line, 21, line.len());
            let v = strip_chars(&rest, true, ' ');
            proof {
                assert(rest@ =~= lines@[i as int]@.skip(21));
            }
            proof {
                let ls = lines_of(prompt@);
                let allowed = views(allowed_tools@);
                assert(allowed.len() == 1 && allowed[0] == "write_file"@);
                let k = choose|k: int|
                    0 <= k < ls.len() && starts(ls[k], "REQUIRED_OUTPUT_PATH:"@) && forall|j: int|
                        0 <= j < k ==> !starts(ls[j], "REQUIRED_OUTPUT_PATH:"@);
                assert(k == i);
                assert(v@ == trim(ls[i as int].skip(21)));
            }
            if v.len() > 0 {
                return Some(string_from_chars(v));
            } else {
                return None;
            }
        }
        proof {
            assert(lines_of(prompt@)[i as int] == lines@[i as int]@);
        }
        i = i + 1;
    }
    None
}

/// A tool call as a simulation recorded it.
#[derive(Debug, Clone)]
pub struct SimulatedToolCall {
    pub tool: String,
    pub input: String,
    pub output: String,
    pub side_effects: Vec<String>,
}

pub struct SimulatedCallView {
    pub tool: Seq<char>,
    pub input: Seq<char>,
    pub output: Seq<char>,
    pub side_effects: Seq<Seq<char>>,
}

impl View for SimulatedToolCall {
    type V = SimulatedCallView;

    open spec fn view(&self) -> SimulatedCallView {
        SimulatedCallView {
            tool: self.tool@,
            input: self.input@,
            output: self.output@,
            side_effects: views(self.side_effects@),
        }
    }
}

/// What a simulation reports for a tool call: mutations, commands and
/// deletions are suppressed and noted as side effects; other tools pass.
pub open spec fn simulated(tool: Seq<char>, input: Seq<char>) -> SimulatedCallView {
    if tool == "write_file"@ || tool == "replace_file_content"@ || tool
        == "multi_replace_file_content"@ {
        SimulatedCallView {
            tool,
            input,
            output: "SUCCESS (Simulated)"@,
            side_effects: seq!["MUTATION: "@ + tool + " update suppressed"@],
        }
    } else if tool == "run_command"@ {
        SimulatedCallView {
            tool,
            input,
            output: "Command simulation complete (no side effects)"@,
            side_effects: seq!["EXECUTION: shell command mocked"@],
        }
    } else if tool == "delete_file"@ {
        SimulatedCallView {
            tool,
            input,
            output: "SUCCESS (Simulated)"@,
            side_effects: seq!["DELETION: file removal suppressed"@],
        }
    } else {
        SimulatedCallView {
            tool,
            input,
            output: "SUCCESS (Read-only passthrough simulated)"@,
            side_effects: Seq::empty(),
        }
    }
}

pub open spec fn call_views(v: Seq<SimulatedToolCall>) -> Seq<SimulatedCallView> {
    v.map_values(|c: SimulatedToolCall| c@)
}

/// A tool executor that runs nothing: it records each call and what it
/// would have done.
#[derive(Debug)]
pub struct SimulationExecutor {
    workspace_root: String,
    history: Vec<SimulatedToolCall>,
}

impl SimulationExecutor {
    pub closed spec fn calls(&self) -> Seq<SimulatedCallView> {
        call_views(self.history@)
    }

    pub closed spec fn root(&self) -> Seq<char> {
        self.workspace_root@
    }

    pub fn new(workspace_root: &str) -> (e: Self)
        ensures
            e.root() == workspace_root@,
            e.calls().len() == 0,
    {
        SimulationExecutor { workspace_root: owned(workspace_root), history: Vec::new() }
    }

    /// The calls made so far, in order.
    pub fn history(&self) -> (h: &[SimulatedToolCall])
        ensures
            call_views(h@) == self.calls(),
    {
        self.history.as_slice()
    }

    /// Simulates a tool call: records it and returns its output; see
    /// `simulated`.
    pub fn execute(&mut self, tool_name: &str, input: &str) -> (out: String)
        ensures
            final(self).root() == old(self).root(),
            final(self).calls() == old(self).calls().push(simulated(tool_name@, input@)),
            out@ == simulated(tool_name@, input@).output,
    {
        let mut side_effects: Vec<String> = Vec::new();
        let output;
        if str_eq(tool_name, "write_file") || str_eq(tool_name, "replace_file_content") || str_eq(
            tool_name,
            "multi_replace_file_content",
        ) {
            let mut e = owned("MUTATION: ");
            e.append(tool_name);
            e.append(" update suppressed");
            proof {
                reveal_strlit("MUTATION: ");
                reveal_strlit(" update suppressed");
            }
            side_effects.push(e);
            output = owned("SUCCESS (Simulated)");
        } else if str_eq(tool_name, "run_command") {
            side_effects.push(owned("EXECUTION: shell command mocked"));
            output = owned("Command simulation complete (no side effects)");
        } else if str_eq(tool_name, "delete_file") {
            side_effects.push(owned("DELETION: file removal suppressed"));
            output = owned("SUCCESS (Simulated)");
        } else {
            output = owned("SUCCESS (Read-only passthrough simulated)");
        }
        let call = SimulatedToolCall {
            tool: owned(tool_name),
            input: owned(input),
            output: output.clone(),
            side_effects,
        };
        proof {
            assert(call@.side_effects =~= simulated(tool_name@, input@).side_effects);
        }
        self.history.push(call);
        proof {
            assert(call_views(self.history@) =~= call_views(old(self).history@).push(call@));
        }
        output
    }
}

/// The calls with a side effect that mentions `marker`.
pub open spec fn noted(c: SimulatedCallView, marker: Seq<char>) -> bool {
    exists|i: int| 0 <= i < c.side_effects.len() && contains(c.side_effects[i], marker)
}

pub open spec fn count_noted(calls: Seq<SimulatedCallView>, marker: Seq<char>) -> nat
    decreases calls.len(),
{
    if calls.len() == 0 {
        0
    } else {
        count_noted(calls.drop_last(), marker) + if noted(calls.last(), marker) {
            1nat
        } else {
            0nat
        }
    }
}

/// How many recorded calls have a side effect mentioning `marker` (such as
/// `MUTATION` or `DELETION`).
pub fn calls_noting(history: &[SimulatedToolCall], marker: &str) -> (n: usize)
    ensures
        n == count_noted(call_views(history@), marker@),
{
    let mut n: usize = 0;
    let mut i: usize = 0;
    while i < history.len()
        invariant
            i <= history@.len(),
            n == count_noted(call_views(history@).take(i as int), marker@),
            n <= i,
        decreases history@.len() - i,
    {
        let effects = &history[i].side_effects;
        let mut found = false;
        let mut k: usize = 0;
        while k < effects.len()
            invariant
                k <= effects@.len(),
                found == exists|j: int| 0 <= j < k && contains(effects@[j]@, marker@),
            decreases effects@.len() - k,
        {
            let e = chars_of(effects[k].as_str());
            if has(&e, marker) {
                found = true;
            }
            k = k + 1;
        }
        proof {
            let cv = call_views(history@);
            assert(cv.take(i + 1).drop_last() =~= cv.take(i as int));
            assert(cv[i as int] == history@[i as int]@);
            let c = history@[i as int]@;
            assert(c.side_effects == views(effects@));
            assert(found == noted(c, marker@)) by {
                if found {
                    let j = choose|j: int| 0 <= j < effects@.len() && contains(effects@[j]@, marker@);
                    assert(c.side_effects[j] == effects@[j]@);
                    assert(0 <= j < c.side_effects.len() && contains(c.side_effects[j], marker@));
                }
                if noted(c, marker@) {
                    let j = choose|j: int|
                        0 <= j < c.side_effects.len() && contains(c.side_effects[j], marker@);
                    assert(c.side_effects[j] == effects@[j]@);
                }
            }
        }
        if found {
            n = n + 1;
        }
        i = i + 1;
    }
    proof {
        assert(call_views(history@).take(history@.len() as int) =~= call_views(history@));
    }
    n
}

/// The template a task runs with: the first configured template of its
/// name, else the fallback renamed to it; the task's model, if it names
/// one, replaces the template's.
pub open spec fn template_for(
    templates: Seq<AgentTemplateView>,
    name: Seq<char>,
    model: Option<Seq<char>>,
    fallback: AgentTemplateView,
) -> AgentTemplateView {
    let base = if exists|i: int| 0 <= i < templates.len() && templates[i].name == name {
        templates[choose|i: int|
            0 <= i < templates.len() && templates[i].name == name && forall|j: int|
                0 <= j < i ==> templates[j].name != name]
    } else {
        AgentTemplateView { name, ..fallback }
    };
    match model {
        Some(m) => AgentTemplateView { model: m, ..base },
        None => base,
    }
}

pub open spec fn template_views(ts: Seq<AgentTemplate>) -> Seq<AgentTemplateView> {
    ts.map_values(|t: AgentTemplate| t@)
}

/// Chooses the template a task runs with; see `template_for`.
pub fn select_template(templates: &[AgentTemplate], name: &str, model: Option<&str>, fallback: AgentTemplate) -> (t: AgentTemplate)
    ensures
        t@ == template_for(
            template_views(templates@),
            name@,
            match model {
                Some(m) => Some(m@),
                None => None,
            },
            fallback@,
        ),
{
    let ghost tv = template_views(templates@);
    let mut i: usize = 0;
    let mut found: Option<usize> = None;
    while i < templates.len()
        invariant
            i <= templates@.len(),
            tv == template_views(templates@),
            found matches Some(k) ==> k < i && tv[k as int].name == name@ && forall|j: int|
                0 <= j < k ==> tv[j].name != name@,
            found is None ==> forall|j: int| 0 <= j < i ==> tv[j].name != name@,
        decreases templates@.len() - i,
    {
        if found.is_none() && str_eq(templates[i].name.as_str(), name) {
            found = Some(i);
        }
        i = i + 1;
    }
    let mut t = match found {
        Some(k) => {
            proof {
                let c = choose|c: int|
                    0 <= c < tv.len() && tv[c].name == name@ && forall|j: int|
                        0 <= j < c ==> tv[j].name != name@;
                if c < k {
                } else if c > k {
                    assert(tv[k as int].name == name@);
                }
            }
            templates[k].duplicate()
        },
        None => {
            let mut f = fallback;
            f.name = owned(name);
            f
        },
    };
    match model {
        Some(m) => {
            t.model = owned(m);
        },
        None => {},
    }
    t
}

/// The result a parallel task records for an agent run.
pub fn task_result_of(r: AgentRunResult, audit_hash: String) -> (t: TaskResult)
    ensures
        t.success == r.success,
        t.summary == r.summary,
        t.iterations == r.iterations,
        t.tool_invocations == r.tool_invocations,
        t.audit_hash == audit_hash,
{
    TaskResult {
        success: r.success,
        summary: r.summary,
        iterations: r.iterations,
        tool_invocations: r.tool_invocations,
        audit_hash,
    }
}

/// The texts joined with newlines between them.
pub open spec fn joined(texts: Seq<String>) -> Seq<char>
    decreases texts.len(),
{
    if texts.len() == 0 {
        Seq::empty()
    } else if texts.len() == 1 {
        texts[0]@
    } else {
        joined(texts.drop_last()) + "\n"@ + texts.last()@
    }
}

/// The summary of an agent's run: the text of its messages, one per line,
/// cut to 4000 bytes with an ellipsis; see `clipped`.
pub fn text_summary(texts: &[String]) -> (r: String)
    requires
        encode_utf8(joined(texts@)).len() > 4000 ==> is_char_boundary(
            encode_utf8(joined(texts@)),
            4000,
        ),
    ensures
        encode_utf8(r@) == clipped(joined(texts@), 4000),
{
    let mut s = String::new();
    let mut i: usize = 0;
    proof {
        reveal_strlit("\n");
        assert(texts@.take(0) =~= Seq::<String>::empty());
    }
    while i < texts.len()
        invariant
            i <= texts@.len(),
            s@ == joined(texts@.take(i as int)),
        decreases texts@.len() - i,
    {
        if i > 0 {
            s.append("\n");
        }
        s.append(texts[i].as_str());
        proof {
            assert(texts@.take(i + 1).drop_last() =~= texts@.take(i as int));
            if i == 0 {
                assert(texts@.take(1) =~= seq![texts@[0]]);
            }
        }
        i = i + 1;
    }
    proof {
        assert(texts@.take(texts@.len() as int) =~= texts@);
    }
    clip_message(s.as_str(), 4000)
}

/// A proposal's move from status `from` to `to`: refused with "Proposal not
/// found" when no proposal has this id, refused with `refusal` when it is not
/// at `from`, and otherwise only that proposal moves to `to`. A refusal
/// changes nothing.
pub open spec fn proposal_moved(
    pre: StrMap<OptimizationStatus>,
    post: StrMap<OptimizationStatus>,
    id: Seq<char>,
    from: OptimizationStatus,
    to: OptimizationStatus,
    refusal: Seq<char>,
    r: Result<(), String>,
) -> bool {
    match pre.lookup(id) {
        None => r matches Err(e) && e@ == "Proposal not found"@ && post.key_seq() == pre.key_seq()
            && post.val_seq() == pre.val_seq(),
        Some(s) => if s != from {
            r matches Err(e) && e@ == refusal && post.key_seq() == pre.key_seq() && post.val_seq()
                == pre.val_seq()
        } else {
            &&& r is Ok
            &&& post.key_seq() == pre.key_seq()
            &&& forall|q: Seq<char>| #[trigger]
                post.lookup(q) == if q == id {
                    Some(to)
                } else {
                    pre.lookup(q)
                }
        },
    }
}

fn move_proposal(
    statuses: &mut StrMap<OptimizationStatus>,
    proposal_id: &str,
    from: OptimizationStatus,
    to: OptimizationStatus,
    refusal: &str,
) -> (r: Result<(), String>)
    requires
        old(statuses).wf(),
    ensures
        final(statuses).wf(),
        proposal_moved(*old(statuses), *final(statuses), proposal_id@, from, to, refusal@, r),
{
    proof {
        reveal_strlit("Proposal not found");
    }
    match statuses.find(proposal_id) {
        None => Err(owned("Proposal not found")),
        Some(i) => {
            proof {
                statuses.lemma_pos(i as int);
            }
            let s = *statuses.value_at(i);
            if s != from {
                Err(owned(refusal))
            } else {
                statuses.set_at(i, to);
                Ok(())
            }
        },
    }
}

/// Applies a pending optimisation; see `proposal_moved` (from `Pending` to
/// `Applied`, else "Optimization already processed").
pub fn apply_optimization(statuses: &mut StrMap<OptimizationStatus>, proposal_id: &str) -> (r: Result<(), String>)
    requires
        old(statuses).wf(),
    ensures
        final(statuses).wf(),
        proposal_moved(
            *old(statuses),
            *final(statuses),
            proposal_id@,
            OptimizationStatus::Pending,
            OptimizationStatus::Applied,
            "Optimization already processed"@,
            r,
        ),
{
    move_proposal(
        statuses,
        proposal_id,
        OptimizationStatus::Pending,
        OptimizationStatus::Applied,
        "Optimization already processed",
    )
}

/// Rolls an applied optimisation back; see `proposal_moved` (from `Applied`
/// to `RolledBack`, else "Only applied optimizations can be rolled back").
pub fn rollback_optimization(statuses: &mut StrMap<OptimizationStatus>, proposal_id: &str) -> (r: Result<(), String>)
    requires
        old(statuses).wf(),
    ensures
        final(statuses).wf(),
        proposal_moved(
            *old(statuses),
            *final(statuses),
            proposal_id@,
            OptimizationStatus::Applied,
            OptimizationStatus::RolledBack,
            "Only applied optimizations can be rolled back"@,
            r,
        ),
{
    move_proposal(
        statuses,
        proposal_id,
        OptimizationStatus::Applied,
        OptimizationStatus::RolledBack,
        "Only applied optimizations can be rolled back",
    )
}

} // verus!

verus! {

/// In a simulation, an allowed call of any of the seven tools that change
/// the workspace or the world (writing, replacing, deleting files,
/// committing, pushing, running a command) is suppressed with a success
/// message and does not run; outside a simulation it proceeds.
pub proof fn law_simulation_suppresses_mutations(allowed: Seq<Seq<char>>, t: Seq<char>)
    requires
        allowed.contains(t),
        t == "write_file"@ || t == "replace_file_content"@ || t == "multi_replace_file_content"@ || t == "delete_file"@ || t == "git_commit"@ || t == "git_push"@ || t == "run_command"@,
    ensures
        dispatch_decision(allowed, true, t) == DispatchView::Suppress(
            "SUCCESS (Simulation): '"@ + t + "' suppressed"@,
        ),
        dispatch_decision(allowed, false, t) == DispatchView::Proceed,
{
}

/// A tool outside the agent's allowed list is refused, in a simulation or
/// not; an allowed tool that changes nothing always proceeds.
pub proof fn law_refuse_before_suppress(allowed: Seq<Seq<char>>, sim: bool, t: Seq<char>)
    ensures
        !allowed.contains(t) ==> dispatch_decision(allowed, sim, t) is Refuse,
        allowed.contains(t) && t == "read_file"@ ==> dispatch_decision(allowed, sim, t) == DispatchView::Proceed,
{
    reveal_strlit("read_file");
    reveal_strlit("write_file");
    reveal_strlit("replace_file_content");
    reveal_strlit("multi_replace_file_content");
    reveal_strlit("delete_file");
    reveal_strlit("git_commit");
    reveal_strlit("git_push");
    reveal_strlit("run_command");
    assert("read_file"@.len() != "write_file"@.len());
    assert("read_file"@.len() != "replace_file_content"@.len());
    assert("read_file"@.len() != "multi_replace_file_content"@.len());
    assert("read_file"@[0] != "delete_file"@[0]);
    assert("read_file"@.len() != "git_commit"@.len());
    assert("read_file"@.len() != "git_push"@.len());
    assert("read_file"@.len() != "run_command"@.len());
}

/// A simulation reports every file-changing tool (writing, replacing,
/// multi-replacing) as a simulated success with exactly one side effect,
/// the suppressed mutation; a command is mocked and a deletion suppressed,
/// each with its one side effect. None of them passes as read-only.
pub proof fn law_simulated_mutations_are_noted(t: Seq<char>, input: Seq<char>)
    ensures
        (t == "write_file"@ || t == "replace_file_content"@ || t == "multi_replace_file_content"@)
            ==> simulated(t, input) == (SimulatedCallView {
            tool: t,
            input,
            output: "SUCCESS (Simulated)"@,
            side_effects: seq!["MUTATION: "@ + t + " update suppressed"@],
        }),
        t == "run_command"@ ==> simulated(t, input) == (SimulatedCallView {
            tool: t,
            input,
            output: "Command simulation complete (no side effects)"@,
            side_effects: seq!["EXECUTION: shell command mocked"@],
        }),
        t == "delete_file"@ ==> simulated(t, input) == (SimulatedCallView {
            tool: t,
            input,
            output: "SUCCESS (Simulated)"@,
            side_effects: seq!["DELETION: file removal suppressed"@],
        }),
{
    reveal_strlit("write_file");
    reveal_strlit("replace_file_content");
    reveal_strlit("multi_replace_file_content");
    reveal_strlit("run_command");
    reveal_strlit("delete_file");
    assert("write_file"@.len() != "replace_file_content"@.len());
    assert("write_file"@.len() != "multi_replace_file_content"@.len());
    assert("write_file"@.len() != "run_command"@.len());
    assert("write_file"@.len() != "delete_file"@.len());
    assert("replace_file_content"@.len() != "multi_replace_file_content"@.len());
    assert("replace_file_content"@.len() != "run_command"@.len());
    assert("replace_file_content"@.len() != "delete_file"@.len());
    assert("multi_replace_file_content"@.len() != "run_command"@.len());
    assert("multi_replace_file_content"@.len() != "delete_file"@.len());
    assert("run_command"@[0] != "delete_file"@[0]);
}

} // verus!
