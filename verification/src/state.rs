//! The daemon's own records: conversations and their messages, webhooks and
//! their signatures, run templates and their signatures, and the swarm
//! service's job lists.
use vstd::prelude::*;
use vstd::string::*;
use crate::batch::BatchJob;
use crate::crypto::{constant_time_eq, hex_lower, hmac_sha256, hmac_spec};
use crate::httputil::{hex_byte, secs_str, secs_string};
use crate::parallel::Orchestrator;
use crate::strmap::StrMap;
use crate::text::{clone_opt_string, decimal, decimal_string, list_contains, owned, str_eq, views};

verus! {

/// A single chat message in a conversation.
#[derive(Debug, Clone)]
pub struct ChatMessage {
    pub role: String,
    pub content: String,
    pub timestamp: String,
    pub model: Option<String>,
    pub iterations: Option<usize>,
    pub tool_invocations: Option<u32>,
}

/// A server-side conversation.
#[derive(Debug, Clone)]
pub struct Conversation {
    pub id: String,
    pub title: String,
    pub messages: Vec<ChatMessage>,
    pub created_at: String,
    pub updated_at: String,
    pub workspace: String,
    /// The team workspace this conversation belongs to.
    pub team_id: Option<String>,
    /// The compressed history written by the summary agent.
    pub summary: Option<String>,
}

/// A conversation, its strings as character sequences and its messages kept
/// as they are.
pub struct ConversationView {
    pub id: Seq<char>,
    pub title: Seq<char>,
    pub messages: Seq<ChatMessage>,
    pub created_at: Seq<char>,
    pub updated_at: Seq<char>,
    pub workspace: Seq<char>,
    pub team_id: Option<Seq<char>>,
    pub summary: Option<Seq<char>>,
}

pub open spec fn opt_view(o: Option<String>) -> Option<Seq<char>> {
    match o {
        Some(s) => Some(s@),
        None => None,
    }
}

impl View for Conversation {
    type V = ConversationView;

    open spec fn view(&self) -> ConversationView {
        ConversationView {
            id: self.id@,
            title: self.title@,
            messages: self.messages@,
            created_at: self.created_at@,
            updated_at: self.updated_at@,
            workspace: self.workspace@,
            team_id: opt_view(self.team_id),
            summary: opt_view(self.summary),
        }
    }
}

/// A conversation is compressed by the summary agent once it holds more
/// than fifteen messages, and again every fifth message after that.
pub open spec fn summary_due(message_count: nat) -> bool {
    message_count > 15 && message_count % 5 == 0
}

pub open spec fn conv_id_text(n: nat) -> Seq<char> {
    "conv-"@ + decimal(n)
}

/// The daemon's conversations, by id, and the counter that names new ones.
#[derive(Debug)]
pub struct ConversationStore {
    conversations: StrMap<Conversation>,
    conv_counter: u64,
}

impl ConversationStore {
    pub closed spec fn conversation(&self, id: Seq<char>) -> Option<ConversationView> {
        match self.conversations.lookup(id) {
            Some(c) => Some(c@),
            None => None,
        }
    }

    pub closed spec fn counter(&self) -> u64 {
        self.conv_counter
    }

    pub closed spec fn wf(&self) -> bool {
        self.conversations.wf()
    }

    /// The conversation ids, in increasing order.
    pub closed spec fn ids(&self) -> Seq<Seq<char>> {
        self.conversations.key_seq()
    }

    /// A store holding no conversation, its counter at `counter` (as
    /// restored from disk).
    pub fn new(counter: u64) -> (s: Self)
        ensures
            s.wf(),
            s.ids().len() == 0,
            s.counter() == counter,
            forall|k: Seq<char>| #[trigger] s.conversation(k) is None,
    {
        let s = ConversationStore { conversations: StrMap::new(), conv_counter: counter };
        proof {
            assert forall|k: Seq<char>| #[trigger] s.conversation(k) is None by {
                assert(!s.conversations.has(k));
            }
        }
        s
    }

    /// Counts one more conversation and names it `conv-N`.
    pub fn next_conv_id(&mut self) -> (id: String)
        requires
            old(self).wf(),
            old(self).counter() < u64::MAX,
        ensures
            final(self).wf(),
            final(self).counter() == old(self).counter() + 1,
            id@ == conv_id_text(final(self).counter() as nat),
            final(self).ids() == old(self).ids(),
            forall|k: Seq<char>| #[trigger] final(self).conversation(k) == old(self).conversation(k),
    {
        self.bump()
    }

    fn bump(&mut self) -> (id: String)
        requires
            old(self).counter() < u64::MAX,
        ensures
            final(self).counter() == old(self).counter() + 1,
            id@ == conv_id_text(final(self).counter() as nat),
            final(self).conversations == old(self).conversations,
    {
        self.conv_counter = self.conv_counter + 1;
        let mut id = owned("conv-");
        let n = decimal_string(self.conv_counter);
        id.append(n.as_str());
        proof {
            reveal_strlit("conv-");
        }
        id
    }

    /// Creates an empty conversation with this title, in this workspace, at
    /// time `now`; returns its id.
    pub fn create_conversation(&mut self, title: &str, workspace: &str, now: u64) -> (id: String)
        requires
            old(self).wf(),
            old(self).counter() < u64::MAX,
        ensures
            final(self).wf(),
            final(self).counter() == old(self).counter() + 1,
            id@ == conv_id_text(final(self).counter() as nat),
            forall|k: Seq<char>| #[trigger]
                final(self).conversation(k) == if k == id@ {
                    Some(
                        ConversationView {
                            id: id@,
                            title: title@,
                            messages: Seq::empty(),
                            created_at: secs_str(now),
                            updated_at: secs_str(now),
                            workspace: workspace@,
                            team_id: None,
                            summary: None,
                        },
                    )
                } else {
                    old(self).conversation(k)
                },
    {
        let id = self.bump();
        let stamp = secs_string(now);
        let conv = Conversation {
            id: id.clone(),
            title: owned(title),
            messages: Vec::new(),
            created_at: stamp.clone(),
            updated_at: stamp,
            workspace: owned(workspace),
            team_id: None,
            summary: None,
        };
        proof {
            assert(conv@.messages =~= Seq::<ChatMessage>::empty());
        }
        self.conversations.insert(id.clone(), conv);
        id
    }

    /// Appends a message to a conversation and stamps it at time `now`;
    /// false when there is no such conversation.
    pub fn add_message(&mut self, conv_id: &str, msg: ChatMessage, now: u64) -> (found: bool)
        requires
            old(self).wf(),
        ensures
            final(self).wf(),
            final(self).counter() == old(self).counter(),
            found == (old(self).conversation(conv_id@) is Some),
            !found ==> *final(self) == *old(self),
            found ==> forall|k: Seq<char>| #[trigger]
                final(self).conversation(k) == if k == conv_id@ {
                    Some(
                        ConversationView {
                            messages: old(self).conversation(conv_id@)->0.messages.push(msg),
                            updated_at: secs_str(now),
                            ..old(self).conversation(conv_id@)->0
                        },
                    )
                } else {
                    old(self).conversation(k)
                },
    {
        match self.conversations.find(conv_id) {
            None => false,
            Some(p) => {
                proof {
                    self.conversations.lemma_pos(p as int);
                }
                let ghost pre = self.conversations;
                let c = self.conversations.value_mut_at(p);
                c.messages.push(msg);
                c.updated_at = secs_string(now);
                proof {
                    let post = self.conversations;
                    post.lemma_lookup_after_set(pre, p as int, post.val_seq()[p as int]);
                }
                true
            },
        }
    }

    /// Whether the conversation has reached a length at which the summary
    /// agent compresses it.
    pub fn needs_summary(&self, conv_id: &str) -> (b: bool)
        requires
            self.wf(),
        ensures
            b == (self.conversation(conv_id@) matches Some(c) && summary_due(c.messages.len())),
    {
        match self.conversations.get(conv_id) {
            None => false,
            Some(c) => {
                let n = c.messages.len();
                n > 15 && n % 5 == 0
            },
        }
    }

    /// Records the summary agent's compression of a conversation; false
    /// when there is no such conversation.
    pub fn set_summary(&mut self, conv_id: &str, summary: String) -> (found: bool)
        requires
            old(self).wf(),
        ensures
            final(self).wf(),
            final(self).counter() == old(self).counter(),
            found == (old(self).conversation(conv_id@) is Some),
            !found ==> *final(self) == *old(self),
            found ==> forall|k: Seq<char>| #[trigger]
                final(self).conversation(k) == if k == conv_id@ {
                    Some(
                        ConversationView {
                            summary: Some(summary@),
                            ..old(self).conversation(conv_id@)->0
                        },
                    )
                } else {
                    old(self).conversation(k)
                },
    {
        match self.conversations.find(conv_id) {
            None => false,
            Some(p) => {
                proof {
                    self.conversations.lemma_pos(p as int);
                }
                let ghost pre = self.conversations;
                let c = self.conversations.value_mut_at(p);
                c.summary = Some(summary);
                proof {
                    let post = self.conversations;
                    post.lemma_lookup_after_set(pre, p as int, post.val_seq()[p as int]);
                }
                true
            },
        }
    }

    pub fn get_conversation(&self, conv_id: &str) -> (r: Option<&Conversation>)
        requires
            self.wf(),
        ensures
            r matches Some(c) ==> self.conversation(conv_id@) == Some(c@),
            r is None ==> self.conversation(conv_id@) is None,
    {
        self.conversations.get(conv_id)
    }

    /// Deletes a conversation; true when it existed.
    pub fn delete_conversation(&mut self, conv_id: &str) -> (removed: bool)
        requires
            old(self).wf(),
        ensures
            final(self).wf(),
            final(self).counter() == old(self).counter(),
            removed == (old(self).conversation(conv_id@) is Some),
            final(self).conversation(conv_id@) is None,
            forall|k: Seq<char>|
                k != conv_id@ ==> #[trigger] final(self).conversation(k) == old(self).conversation(k),
    {
        let ghost pre = self.conversations;
        let r = self.conversations.remove(conv_id);
        proof {
            let post = self.conversations;
            if r is Some {
                let p = pre.pos(conv_id@);
                pre.lemma_pos(p);
                assert forall|k: Seq<char>| #[trigger] post.lookup(k) == if k == conv_id@ {
                    None
                } else {
                    pre.lookup(k)
                } by {
                    if post.has(k) {
                        let i = post.pos(k);
                        post.lemma_pos(i);
                        if i < p {
                            assert(post.key_seq()[i] == pre.key_seq()[i]);
                            pre.lemma_pos(i);
                        } else {
                            assert(post.key_seq()[i] == pre.key_seq()[i + 1]);
                            pre.lemma_pos(i + 1);
                        }
                        if k == conv_id@ {
                            if i < p {
                                pre.lemma_unique(i, p);
                            } else {
                                pre.lemma_unique(i + 1, p);
                            }
                        }
                    } else if pre.has(k) && k != conv_id@ {
                        let j = pre.pos(k);
                        pre.lemma_pos(j);
                        if j < p {
                            assert(post.key_seq()[j] == k);
                        } else if j > p {
                            assert(post.key_seq()[j - 1] == k);
                        }
                    }
                }
            }
        }
        r.is_some()
    }
}

/// A registered webhook.
#[derive(Debug, Clone)]
pub struct WebhookConfig {
    pub url: String,
    pub events: Vec<String>,
    pub enabled: bool,
    /// The HMAC-SHA256 key that signs requests to and from this webhook.
    pub secret: Option<String>,
}

/// The signature header value for a body: `sha256=` and the hex HMAC.
pub open spec fn signature_text(secret: Seq<u8>, body: Seq<u8>) -> Seq<char> {
    "sha256="@ + hex_lower(hmac_spec(secret, body))
}

/// The key and body lengths that the HMAC can take.
pub open spec fn signable(secret: Seq<u8>, body: Seq<u8>) -> bool {
    secret.len() * 8 <= u64::MAX && (64 + body.len()) * 8 <= u64::MAX
}

/// The signature header value for a body signed with a secret.
pub fn webhook_signature(secret: &str, body: &[u8]) -> (s: String)
    requires
        signable(secret.spec_bytes(), body@),
    ensures
        s@ == signature_text(secret.spec_bytes(), body@),
{
    let mac = hmac_sha256(secret.as_bytes(), body);
    let mut s = owned("sha256=");
    s.append(mac.as_str());
    proof {
        reveal_strlit("sha256=");
    }
    s
}

/// `p` is the first webhook registered for `url`.
pub open spec fn first_webhook(hooks: Seq<WebhookConfig>, url: Seq<char>, p: int) -> bool {
    0 <= p < hooks.len() && hooks[p].url@ == url && forall|q: int|
        0 <= q < p ==> hooks[q].url@ != url
}

/// The secret of the first webhook registered for `url`, if it has one.
pub open spec fn webhook_secret(hooks: Seq<WebhookConfig>, url: Seq<char>) -> Option<Seq<char>> {
    if exists|p: int| first_webhook(hooks, url, p) {
        opt_view(hooks[choose|p: int| first_webhook(hooks, url, p)].secret)
    } else {
        None
    }
}

pub open spec fn str_bytes(s: Seq<char>) -> Seq<u8> {
    vstd::utf8::encode_utf8(s)
}

/// Whether a request to `url` with this payload and signature header is
/// accepted.
pub open spec fn accepts(hooks: Seq<WebhookConfig>, url: Seq<char>, payload: Seq<u8>, header: Seq<char>) -> bool {
    match webhook_secret(hooks, url) {
        None => true,
        Some(s) => header == signature_text(str_bytes(s), payload),
    }
}

/// Signing and checking agree: a request signed with the secret of the
/// webhook registered for its URL is accepted.
pub proof fn law_signed_request_accepted(hooks: Seq<WebhookConfig>, url: Seq<char>, payload: Seq<u8>, secret: Seq<char>)
    requires
        webhook_secret(hooks, url) == Some(secret),
    ensures
        accepts(hooks, url, payload, signature_text(str_bytes(secret), payload)),
{
}

/// Where the first webhook registered for `url` stands, if any.
fn find_webhook(hooks: &[WebhookConfig], url: &str) -> (r: Option<usize>)
    ensures
        r matches Some(i) ==> first_webhook(hooks@, url@, i as int),
        r is None ==> !exists|p: int| first_webhook(hooks@, url@, p),
{
    let mut i: usize = 0;
    while i < hooks.len()
        invariant
            i <= hooks@.len(),
            forall|q: int| 0 <= q < i ==> hooks@[q].url@ != url@,
        decreases hooks@.len() - i,
    {
        if str_eq(hooks[i].url.as_str(), url) {
            return Some(i);
        }
        i = i + 1;
    }
    None
}

/// Checks an inbound webhook request: accepted when the first webhook
/// registered for `url` has no secret, or when there is no such webhook;
/// otherwise accepted exactly when the signature header is `sha256=` and the
/// hex HMAC-SHA256 of the payload under that secret.
pub fn verify_webhook_signature(hooks: &[WebhookConfig], url: &str, payload: &[u8], signature_header: &str) -> (r:
    Result<(), String>)
    requires
        forall|i: int|
            0 <= i < hooks@.len() ==> ((#[trigger] hooks@[i]).secret matches Some(s) ==> signable(
                str_bytes(s@),
                payload@,
            )),
    ensures
        r is Ok <==> accepts(hooks@, url@, payload@, signature_header@),
        r matches Err(e) ==> e@ == "webhook signature mismatch"@,
{
    let i = match find_webhook(hooks, url) {
        None => {
            return Ok(());
        },
        Some(i) => i,
    };
    proof {
        assert forall|p: int| first_webhook(hooks@, url@, p) implies p == i as int by {
            if p < i {
            } else if p > i {
                assert(hooks@[i as int].url@ == url@);
            }
        }
    }
    match &hooks[i].secret {
        None => Ok(()),
        Some(secret) => {
            let expected = webhook_signature(secret.as_str(), payload);
            if constant_time_eq(expected.as_str().as_bytes(), signature_header.as_bytes()) {
                proof {
                    vstd::utf8::encode_utf8_decode_utf8(expected@);
                    vstd::utf8::encode_utf8_decode_utf8(signature_header@);
                }
                Ok(())
            } else {
                proof {
                    if signature_header@ == expected@ {
                        assert(signature_header.spec_bytes() == str_bytes(expected@));
                    }
                }
                Err(owned("webhook signature mismatch"))
            }
        },
    }
}

/// The webhooks an event is delivered to: the enabled ones subscribed to it
/// or to `*`, by position, in order.
pub open spec fn subscribed(h: WebhookConfig, event: Seq<char>) -> bool {
    h.enabled && (views(h.events@).contains(event) || views(h.events@).contains("*"@))
}

pub fn webhook_targets(hooks: &[WebhookConfig], event: &str) -> (r: Vec<usize>)
    ensures
        r@.map_values(|i: usize| i as int) == Seq::new(hooks@.len(), |i: int| i).filter(
            |i: int| subscribed(hooks@[i], event@),
        ),
{
    let ev = owned(event);
    let star = owned("*");
    let mut r: Vec<usize> = Vec::new();
    let mut i: usize = 0;
    while i < hooks.len()
        invariant
            i <= hooks@.len(),
            ev@ == event@,
            star@ == "*"@,
            r@.map_values(|i: usize| i as int) == Seq::new(i as nat, |i: int| i).filter(
                |i: int| subscribed(hooks@[i], event@),
            ),
        decreases hooks@.len() - i,
    {
        let h = &hooks[i];
        let sub = h.enabled && (list_contains(h.events.as_slice(), &ev) || list_contains(
            h.events.as_slice(),
            &star,
        ));
        let ghost old_r = r@;
        if sub {
            r.push(i);
        }
        proof {
            let f = |i: int| subscribed(hooks@[i], event@);
            assert(Seq::new((i + 1) as nat, |i: int| i).drop_last() =~= Seq::new(i as nat, |i: int| i));
            reveal(Seq::filter);
            if sub {
                assert(r@.map_values(|i: usize| i as int) =~= old_r.map_values(|i: usize| i as int).push(
                    i as int,
                ));
            } else {
                assert(r@ == old_r);
            }
        }
        i = i + 1;
    }
    proof {
        assert(Seq::new(hooks@.len(), |i: int| i) =~= Seq::new(i as nat, |i: int| i));
    }
    r
}

/// Where a run template stands in its approval.
#[derive(Debug, Clone, Copy, PartialEq, Eq, Structural)]
pub enum TemplateStatus {
    Draft,
    Approved,
    Deprecated,
}

/// A task definition inside a `RunTemplate`.
#[derive(Debug, Clone)]
pub struct TemplateTask {
    pub template: String,
    pub prompt: String,
    pub model: Option<String>,
    pub deps: Vec<String>,
    pub priority: u8,
}

/// A reusable swarm configuration, saved and run by name.
#[derive(Debug, Clone)]
pub struct RunTemplate {
    pub name: String,
    pub description: String,
    pub tasks: Vec<TemplateTask>,
    pub max_concurrency: usize,
    pub created_at: u64,
    pub version: String,
    pub status: TemplateStatus,
    pub team_id: Option<String>,
    /// The signature recorded on approval: the hash of `hash_input`.
    pub signature: Option<String>,
}

/// The text of one dependency in the hashed form.
pub open spec fn dep_text(deps: Seq<String>) -> Seq<char>
    decreases deps.len(),
{
    if deps.len() == 0 {
        Seq::empty()
    } else {
        dep_text(deps.drop_last()) + "|dep:"@ + deps.last()@
    }
}

pub open spec fn task_text(t: TemplateTask) -> Seq<char> {
    "|task:"@ + t.template@ + ":"@ + t.prompt@ + dep_text(t.deps@)
}

pub open spec fn tasks_text(ts: Seq<TemplateTask>) -> Seq<char>
    decreases ts.len(),
{
    if ts.len() == 0 {
        Seq::empty()
    } else {
        tasks_text(ts.drop_last()) + task_text(ts.last())
    }
}

/// The text a template's hash is taken of:
/// `template:NAME:vVERSION`, then `|task:TEMPLATE:PROMPT` for each task
/// followed by `|dep:DEP` for each of its dependencies.
pub open spec fn template_hash_text(t: RunTemplate) -> Seq<char> {
    "template:"@ + t.name@ + ":v"@ + t.version@ + tasks_text(t.tasks@)
}

impl RunTemplate {
    /// The text whose hash signs this template; see `template_hash_text`.
    pub fn hash_input(&self) -> (s: String)
        ensures
            s@ == template_hash_text(*self),
    {
        let mut s = owned("template:");
        s.append(self.name.as_str());
        s.append(":v");
        s.append(self.version.as_str());
        proof {
            reveal_strlit("template:");
            reveal_strlit(":v");
            reveal_strlit("|task:");
            reveal_strlit(":");
            reveal_strlit("|dep:");
            assert(self.tasks@.take(0) =~= Seq::<TemplateTask>::empty());
        }
        let mut i: usize = 0;
        while i < self.tasks.len()
            invariant
                i <= self.tasks@.len(),
                s@ == "template:"@ + self.name@ + ":v"@ + self.version@ + tasks_text(
                    self.tasks@.take(i as int),
                ),
            decreases self.tasks@.len() - i,
        {
            let task = &self.tasks[i];
            let ghost before = s@;
            s.append("|task:");
            s.append(task.template.as_str());
            s.append(":");
            s.append(task.prompt.as_str());
            let ghost head = s@;
            let mut j: usize = 0;
            proof {
                assert(task.deps@.take(0) =~= Seq::<String>::empty());
            }
            while j < task.deps.len()
                invariant
                    j <= task.deps@.len(),
                    s@ == head + dep_text(task.deps@.take(j as int)),
                decreases task.deps@.len() - j,
            {
                s.append("|dep:");
                s.append(task.deps[j].as_str());
                proof {
                    assert(task.deps@.take(j + 1).drop_last() =~= task.deps@.take(j as int));
                }
                j = j + 1;
            }
            proof {
                assert(task.deps@.take(task.deps@.len() as int) =~= task.deps@);
                assert(self.tasks@.take(i + 1).drop_last() =~= self.tasks@.take(i as int));
                assert(s@ =~= before + task_text(*task));
            }
            i = i + 1;
        }
        proof {
            assert(self.tasks@.take(self.tasks@.len() as int) =~= self.tasks@);
        }
        s
    }

    /// Whether the recorded signature is the given hash of `hash_input`;
    /// false for an unsigned template.
    pub fn verify_signature(&self, hash: &str) -> (b: bool)
        ensures
            b == (self.signature matches Some(sig) && sig@ == hash@),
    {
        match &self.signature {
            None => false,
            Some(sig) => str_eq(sig.as_str(), hash),
        }
    }
}

/// The swarm service's own state: the orchestrator of parallel runs and the
/// jobs handed to the cloud.
pub struct SwarmService {
    pub orchestrator: Orchestrator,
    pub cloud_jobs: Vec<BatchJob>,
}

pub open spec fn agent_id_text(n: nat) -> Seq<char> {
    "agent-"@ + decimal(n)
}

pub open spec fn task_id_text(n: nat) -> Seq<char> {
    "task-"@ + decimal(n)
}

/// The counters that name the daemon's agents and scheduled tasks.
#[derive(Debug, Clone, Copy)]
pub struct IdCounters {
    pub agent_counter: u64,
    pub task_counter: u64,
}

impl IdCounters {
    /// Counts one more agent and names it `agent-N`.
    pub fn next_agent_id(&mut self) -> (id: String)
        requires
            old(self).agent_counter < u64::MAX,
        ensures
            final(self).agent_counter == old(self).agent_counter + 1,
            final(self).task_counter == old(self).task_counter,
            id@ == agent_id_text(final(self).agent_counter as nat),
    {
        self.agent_counter = self.agent_counter + 1;
        let mut id = owned("agent-");
        let n = decimal_string(self.agent_counter);
        id.append(n.as_str());
        proof {
            reveal_strlit("agent-");
        }
        id
    }

    /// Counts one more scheduled task and names it `task-N`.
    pub fn next_task_id(&mut self) -> (id: String)
        requires
            old(self).task_counter < u64::MAX,
        ensures
            final(self).task_counter == old(self).task_counter + 1,
            final(self).agent_counter == old(self).agent_counter,
            id@ == task_id_text(final(self).task_counter as nat),
    {
        self.task_counter = self.task_counter + 1;
        let mut id = owned("task-");
        let n = decimal_string(self.task_counter);
        id.append(n.as_str());
        proof {
            reveal_strlit("task-");
        }
        id
    }
}

/// The model a role falls back to when its template names none.
pub open spec fn default_expert_model() -> Seq<char> {
    "gemma4:26b"@
}

/// The model for a template's role: the model of its first task where that
/// task names one, else the default.
pub open spec fn expert_model(t: Option<RunTemplate>) -> Seq<char> {
    match t {
        Some(t) => if t.tasks@.len() > 0 && t.tasks@[0].model is Some {
            t.tasks@[0].model.unwrap()@
        } else {
            default_expert_model()
        },
        None => default_expert_model(),
    }
}

/// The best available model for the role of the template named
/// `template_name` among `templates`.
pub fn get_expert_model_for_role(templates: &StrMap<RunTemplate>, template_name: &str) -> (m: String)
    requires
        templates.wf(),
    ensures
        m@ == expert_model(templates.lookup(template_name@)),
{
    proof {
        reveal_strlit("gemma4:26b");
    }
    match templates.get(template_name) {
        Some(t) => {
            if t.tasks.len() > 0 {
                match &t.tasks[0].model {
                    Some(model) => model.clone(),
                    None => owned("gemma4:26b"),
                }
            } else {
                owned("gemma4:26b")
            }
        },
        None => owned("gemma4:26b"),
    }
}

/// The bytes a hexadecimal string spells, two digits (either case) a byte;
/// none when its length is odd or a character is not a hex digit.
pub open spec fn hex_bytes(b: Seq<u8>) -> Option<Seq<u8>>
    decreases b.len(),
{
    if b.len() == 0 {
        Some(Seq::empty())
    } else if b.len() < 2 {
        None
    } else {
        match (hex_byte(b[0], b[1]), hex_bytes(b.skip(2))) {
            (Some(x), Some(rest)) => Some(seq![x] + rest),
            _ => None,
        }
    }
}

/// `hex::decode` (hex 0.4.3): the bytes the string spells, as `hex_bytes`
/// states them, and `None` for its error (odd length or a non-hex digit).
#[verifier::external_body]
fn hex_decode(s: &[u8]) -> (r: Option<Vec<u8>>)
    ensures
        r matches Some(v) ==> hex_bytes(s@) == Some(v@),
        r is None ==> hex_bytes(s@) is None,
{
    match hex::decode(s) {
        Ok(v) => Some(v),
        Err(_) => None,
    }
}

/// The 32-byte sync key spelled by `key_hex`: none unless it is hex for
/// exactly 32 bytes.
pub fn decode_sync_key(key_hex: &str) -> (r: Option<[u8; 32]>)
    ensures
        r matches Some(k) ==> hex_bytes(key_hex.spec_bytes()) == Some(k@),
        r is None ==> !(hex_bytes(key_hex.spec_bytes()) matches Some(b) && b.len() == 32),
{
    match hex_decode(key_hex.as_bytes()) {
        None => None,
        Some(v) => {
            if v.len() != 32 {
                return None;
            }
            let mut k: [u8; 32] = [0u8; 32];
            let mut i: usize = 0;
            while i < 32
                invariant
                    v@.len() == 32,
                    i <= 32,
                    forall|j: int| 0 <= j < i ==> k@[j] == v@[j],
                decreases 32 - i,
            {
                k[i] = v[i];
                i = i + 1;
            }
            assert(k@ =~= v@);
            Some(k)
        },
    }
}

/// A change held back for a person's approval.
#[derive(Debug, Clone)]
pub struct PendingPatch<P> {
    pub id: String,
    pub patch: P,
    pub reason: String,
    pub created_at: String,
}

pub open spec fn patch_id_text(n: nat) -> Seq<char> {
    "patch-"@ + decimal(n)
}

/// `p` is the first pending patch with this id.
pub open spec fn first_patch<P>(s: Seq<PendingPatch<P>>, id: Seq<char>, p: int) -> bool {
    0 <= p < s.len() && s[p].id@ == id && forall|q: int| 0 <= q < p ==> s[q].id@ != id
}

/// The patches awaiting approval, oldest first, and the counter that names
/// them.
#[derive(Debug)]
pub struct PatchQueue<P> {
    pending: Vec<PendingPatch<P>>,
    counter: u64,
}

impl<P> PatchQueue<P> {
    pub closed spec fn items(&self) -> Seq<PendingPatch<P>> {
        self.pending@
    }

    pub closed spec fn count(&self) -> u64 {
        self.counter
    }

    /// An empty queue, its counter at `counter` (as restored from disk).
    pub fn new(counter: u64) -> (q: Self)
        ensures
            q.items().len() == 0,
            q.count() == counter,
    {
        PatchQueue { pending: Vec::new(), counter }
    }

    /// Holds a patch for approval under the next id `patch-N`, stamped at
    /// time `now`; returns the id.
    pub fn queue(&mut self, patch: P, reason: String, now: u64) -> (id: String)
        requires
            old(self).count() < u64::MAX,
        ensures
            final(self).count() == old(self).count() + 1,
            id@ == patch_id_text(final(self).count() as nat),
            final(self).items().len() == old(self).items().len() + 1,
            final(self).items().take(old(self).items().len() as int) == old(self).items(),
            final(self).items().last().id@ == id@,
            final(self).items().last().patch == patch,
            final(self).items().last().reason == reason,
            final(self).items().last().created_at@ == secs_str(now),
    {
        self.counter = self.counter + 1;
        let mut id = owned("patch-");
        let n = decimal_string(self.counter);
        id.append(n.as_str());
        proof {
            reveal_strlit("patch-");
        }
        let ghost before = self.pending@;
        self.pending.push(PendingPatch { id: id.clone(), patch, reason, created_at: secs_string(now) });
        proof {
            assert(self.pending@.take(before.len() as int) =~= before);
        }
        id
    }

    /// The patches awaiting approval, oldest first.
    pub fn list(&self) -> (l: &[PendingPatch<P>])
        ensures
            l@ == self.items(),
    {
        self.pending.as_slice()
    }

    /// Takes a patch out of the queue by id, to apply or to discard it.
    pub fn take(&mut self, patch_id: &str) -> (r: Result<PendingPatch<P>, String>)
        ensures
            final(self).count() == old(self).count(),
            (exists|p: int| first_patch(old(self).items(), patch_id@, p)) == (r is Ok),
            forall|p: int|
                first_patch(old(self).items(), patch_id@, p) ==> (r matches Ok(x) && x == old(
                    self,
                ).items()[p] && final(self).items() == old(self).items().remove(p)),
            r matches Err(e) ==> e@ == "patch '"@ + patch_id@ + "' not found"@ && final(self).items()
                == old(self).items(),
    {
        let mut i: usize = 0;
        while i < self.pending.len()
            invariant
                i <= self.pending@.len(),
                self.pending@ == old(self).pending@,
                self.counter == old(self).counter,
                forall|q: int| 0 <= q < i ==> self.pending@[q].id@ != patch_id@,
            decreases self.pending@.len() - i,
        {
            if str_eq(self.pending[i].id.as_str(), patch_id) {
                proof {
                    assert(first_patch(old(self).items(), patch_id@, i as int));
                    assert forall|p: int| first_patch(old(self).items(), patch_id@, p) implies p
                        == i as int by {
                        if p < i {
                        } else if p > i {
                            assert(old(self).items()[i as int].id@ == patch_id@);
                        }
                    }
                }
                let x = self.pending.remove(i);
                return Ok(x);
            }
            i = i + 1;
        }
        let mut m = owned("patch '");
        m.append(patch_id);
        m.append("' not found");
        proof {
            reveal_strlit("patch '");
            reveal_strlit("' not found");
        }
        Err(m)
    }
}

/// Queueing and taking back: a patch queued under a fresh id is the one
/// taken out by that id.
pub proof fn law_queued_patch_taken_back<P>(before: Seq<PendingPatch<P>>, after: Seq<PendingPatch<P>>, id: Seq<char>)
    requires
        after.len() == before.len() + 1,
        after.take(before.len() as int) == before,
        after.last().id@ == id,
        forall|q: int| 0 <= q < before.len() ==> before[q].id@ != id,
    ensures
        first_patch(after, id, before.len() as int),
        forall|p: int| first_patch(after, id, p) ==> p == before.len(),
{
    assert forall|q: int| 0 <= q < before.len() implies after[q].id@ != id by {
        assert(after[q] == after.take(before.len() as int)[q]);
    }
}

} // verus!
