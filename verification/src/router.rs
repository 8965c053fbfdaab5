//! The HTTP front door: how a request's path and query are read, which
//! requests are rate limited and which need the API key, and which handler
//! a method and path are routed to.
use vstd::prelude::*;
use crate::channels::{lead, slice, starts, starts_with, trail};
use crate::httputil::{find_char, find_from, lemma_find_from, find_pattern, occurs_at};
use crate::text::{chars_of, owned, str_eq, string_from_chars};

verus! {

/// The handler a request is routed to; parameters are the path segments
/// the route captures.
#[derive(Debug, Clone, PartialEq, Eq)]
pub enum Route {
    Index,
    Health,
    ListModels,
    InferenceStats,
    PullModel,
    CompleteStream,
    ChatStream,
    ListTemplates,
    ListAgents,
    ListTasks,
    AuditLog,
    AuditExport,
    Metrics,
    ListConversations,
    CreateConversation,
    AddMessage,
    SsoLogin,
    SsoCallback,
    SsoLogout,
    SsoSessions,
    LicenseStatus,
    BillingStatus,
    ListTeams,
    CreateTeam,
    JoinTeam,
    MarketplaceList,
    MarketplaceInstall,
    ListParallelRuns,
    RunHistory,
    ParallelRun,
    ListCloudJobs,
    SubmitCloudJob,
    ListSwarmRuns,
    StartSwarmRun,
    RunAgent,
    PendingApprovals,
    Approve,
    FileLocks,
    MissionFeed,
    SsoConfig,
    Search,
    YayaExperts,
    YayaGetPreferences,
    YayaSetPreferences,
    YayaChat,
    YayaTrainingExample,
    GetPolicy,
    SetPolicy,
    Complete,
    ListWebhooks,
    RegisterWebhook,
    VerifyWebhook,
    ScheduleTask,
    LicenseActivate,
    Prompt,
    Usage,
    OauthLogout,
    OauthSessions,
    TelemetryFlush,
    TelemetryStatus,
    ListWorkers,
    RegisterWorker,
    WorkerHeartbeat,
    DeregisterWorker,
    FinetuneExtract,
    FinetuneModelfile,
    Diagnostics,
    IndexBuild,
    IndexStatus,
    DependencyGraph,
    Monorepo,
    Dashboard,
    EventStream,
    ListRunTemplates,
    SaveRunTemplate,
    GetTeam(String),
    TeamAgents(String),
    TeamAudit(String),
    GetCloudJob(String),
    GetSwarmRun(String),
    OauthLogin(String),
    OauthCallback(String),
    RunCost(String),
    RunConflicts(String),
    GetParallelRun(String),
    ReplayRun(String),
    CancelParallelRun(String),
    GetRunTemplate(String),
    DeleteRunTemplate(String),
    RunTemplate(String),
    GetAgent(String),
    CancelAgent(String),
    DeleteAgent(String),
    GetConversation(String),
    DeleteConversation(String),
    TeamNotFound,
    NotFound,
}

pub enum RouteView {
    Index,
    Health,
    ListModels,
    InferenceStats,
    PullModel,
    CompleteStream,
    ChatStream,
    ListTemplates,
    ListAgents,
    ListTasks,
    AuditLog,
    AuditExport,
    Metrics,
    ListConversations,
    CreateConversation,
    AddMessage,
    SsoLogin,
    SsoCallback,
    SsoLogout,
    SsoSessions,
    LicenseStatus,
    BillingStatus,
    ListTeams,
    CreateTeam,
    JoinTeam,
    MarketplaceList,
    MarketplaceInstall,
    ListParallelRuns,
    RunHistory,
    ParallelRun,
    ListCloudJobs,
    SubmitCloudJob,
    ListSwarmRuns,
    StartSwarmRun,
    RunAgent,
    PendingApprovals,
    Approve,
    FileLocks,
    MissionFeed,
    SsoConfig,
    Search,
    YayaExperts,
    YayaGetPreferences,
    YayaSetPreferences,
    YayaChat,
    YayaTrainingExample,
    GetPolicy,
    SetPolicy,
    Complete,
    ListWebhooks,
    RegisterWebhook,
    VerifyWebhook,
    ScheduleTask,
    LicenseActivate,
    Prompt,
    Usage,
    OauthLogout,
    OauthSessions,
    TelemetryFlush,
    TelemetryStatus,
    ListWorkers,
    RegisterWorker,
    WorkerHeartbeat,
    DeregisterWorker,
    FinetuneExtract,
    FinetuneModelfile,
    Diagnostics,
    IndexBuild,
    IndexStatus,
    DependencyGraph,
    Monorepo,
    Dashboard,
    EventStream,
    ListRunTemplates,
    SaveRunTemplate,
    GetTeam(Seq<char>),
    TeamAgents(Seq<char>),
    TeamAudit(Seq<char>),
    GetCloudJob(Seq<char>),
    GetSwarmRun(Seq<char>),
    OauthLogin(Seq<char>),
    OauthCallback(Seq<char>),
    RunCost(Seq<char>),
    RunConflicts(Seq<char>),
    GetParallelRun(Seq<char>),
    ReplayRun(Seq<char>),
    CancelParallelRun(Seq<char>),
    GetRunTemplate(Seq<char>),
    DeleteRunTemplate(Seq<char>),
    RunTemplate(Seq<char>),
    GetAgent(Seq<char>),
    CancelAgent(Seq<char>),
    DeleteAgent(Seq<char>),
    GetConversation(Seq<char>),
    DeleteConversation(Seq<char>),
    TeamNotFound,
    NotFound,
}

impl View for Route {
    type V = RouteView;

    open spec fn view(&self) -> RouteView {
        match self {
            Route::Index => RouteView::Index,
            Route::Health => RouteView::Health,
            Route::ListModels => RouteView::ListModels,
            Route::InferenceStats => RouteView::InferenceStats,
            Route::PullModel => RouteView::PullModel,
            Route::CompleteStream => RouteView::CompleteStream,
            Route::ChatStream => RouteView::ChatStream,
            Route::ListTemplates => RouteView::ListTemplates,
            Route::ListAgents => RouteView::ListAgents,
            Route::ListTasks => RouteView::ListTasks,
            Route::AuditLog => RouteView::AuditLog,
            Route::AuditExport => RouteView::AuditExport,
            Route::Metrics => RouteView::Metrics,
            Route::ListConversations => RouteView::ListConversations,
            Route::CreateConversation => RouteView::CreateConversation,
            Route::AddMessage => RouteView::AddMessage,
            Route::SsoLogin => RouteView::SsoLogin,
            Route::SsoCallback => RouteView::SsoCallback,
            Route::SsoLogout => RouteView::SsoLogout,
            Route::SsoSessions => RouteView::SsoSessions,
            Route::LicenseStatus => RouteView::LicenseStatus,
            Route::BillingStatus => RouteView::BillingStatus,
            Route::ListTeams => RouteView::ListTeams,
            Route::CreateTeam => RouteView::CreateTeam,
            Route::JoinTeam => RouteView::JoinTeam,
            Route::MarketplaceList => RouteView::MarketplaceList,
            Route::MarketplaceInstall => RouteView::MarketplaceInstall,
            Route::ListParallelRuns => RouteView::ListParallelRuns,
            Route::RunHistory => RouteView::RunHistory,
            Route::ParallelRun => RouteView::ParallelRun,
            Route::ListCloudJobs => RouteView::ListCloudJobs,
            Route::SubmitCloudJob => RouteView::SubmitCloudJob,
            Route::ListSwarmRuns => RouteView::ListSwarmRuns,
            Route::StartSwarmRun => RouteView::StartSwarmRun,
            Route::RunAgent => RouteView::RunAgent,
            Route::PendingApprovals => RouteView::PendingApprovals,
            Route::Approve => RouteView::Approve,
            Route::FileLocks => RouteView::FileLocks,
            Route::MissionFeed => RouteView::MissionFeed,
            Route::SsoConfig => RouteView::SsoConfig,
            Route::Search => RouteView::Search,
            Route::YayaExperts => RouteView::YayaExperts,
            Route::YayaGetPreferences => RouteView::YayaGetPreferences,
            Route::YayaSetPreferences => RouteView::YayaSetPreferences,
            Route::YayaChat => RouteView::YayaChat,
            Route::YayaTrainingExample => RouteView::YayaTrainingExample,
            Route::GetPolicy => RouteView::GetPolicy,
            Route::SetPolicy => RouteView::SetPolicy,
            Route::Complete => RouteView::Complete,
            Route::ListWebhooks => RouteView::ListWebhooks,
            Route::RegisterWebhook => RouteView::RegisterWebhook,
            Route::VerifyWebhook => RouteView::VerifyWebhook,
            Route::ScheduleTask => RouteView::ScheduleTask,
            Route::LicenseActivate => RouteView::LicenseActivate,
            Route::Prompt => RouteView::Prompt,
            Route::Usage => RouteView::Usage,
            Route::OauthLogout => RouteView::OauthLogout,
            Route::OauthSessions => RouteView::OauthSessions,
            Route::TelemetryFlush => RouteView::TelemetryFlush,
            Route::TelemetryStatus => RouteView::TelemetryStatus,
            Route::ListWorkers => RouteView::ListWorkers,
            Route::RegisterWorker => RouteView::RegisterWorker,
            Route::WorkerHeartbeat => RouteView::WorkerHeartbeat,
            Route::DeregisterWorker => RouteView::DeregisterWorker,
            Route::FinetuneExtract => RouteView::FinetuneExtract,
            Route::FinetuneModelfile => RouteView::FinetuneModelfile,
            Route::Diagnostics => RouteView::Diagnostics,
            Route::IndexBuild => RouteView::IndexBuild,
            Route::IndexStatus => RouteView::IndexStatus,
            Route::DependencyGraph => RouteView::DependencyGraph,
            Route::Monorepo => RouteView::Monorepo,
            Route::Dashboard => RouteView::Dashboard,
            Route::EventStream => RouteView::EventStream,
            Route::ListRunTemplates => RouteView::ListRunTemplates,
            Route::SaveRunTemplate => RouteView::SaveRunTemplate,
            Route::GetTeam(s) => RouteView::GetTeam(s@),
            Route::TeamAgents(s) => RouteView::TeamAgents(s@),
            Route::TeamAudit(s) => RouteView::TeamAudit(s@),
            Route::GetCloudJob(s) => RouteView::GetCloudJob(s@),
            Route::GetSwarmRun(s) => RouteView::GetSwarmRun(s@),
            Route::OauthLogin(s) => RouteView::OauthLogin(s@),
            Route::OauthCallback(s) => RouteView::OauthCallback(s@),
            Route::RunCost(s) => RouteView::RunCost(s@),
            Route::RunConflicts(s) => RouteView::RunConflicts(s@),
            Route::GetParallelRun(s) => RouteView::GetParallelRun(s@),
            Route::ReplayRun(s) => RouteView::ReplayRun(s@),
            Route::CancelParallelRun(s) => RouteView::CancelParallelRun(s@),
            Route::GetRunTemplate(s) => RouteView::GetRunTemplate(s@),
            Route::DeleteRunTemplate(s) => RouteView::DeleteRunTemplate(s@),
            Route::RunTemplate(s) => RouteView::RunTemplate(s@),
            Route::GetAgent(s) => RouteView::GetAgent(s@),
            Route::CancelAgent(s) => RouteView::CancelAgent(s@),
            Route::DeleteAgent(s) => RouteView::DeleteAgent(s@),
            Route::GetConversation(s) => RouteView::GetConversation(s@),
            Route::DeleteConversation(s) => RouteView::DeleteConversation(s@),
            Route::TeamNotFound => RouteView::TeamNotFound,
            Route::NotFound => RouteView::NotFound,
        }
    }
}

pub open spec fn opt_route_view(r: Option<Route>) -> Option<RouteView> {
    match r {
        Some(x) => Some(x@),
        None => None,
    }
}

/// `s` ends with `suf`.
pub open spec fn ends(s: Seq<char>, suf: Seq<char>) -> bool {
    suf.len() <= s.len() && s.skip(s.len() - suf.len()) == suf
}

/// `s` without `suf` at its end.
pub open spec fn without_suffix(s: Seq<char>, suf: Seq<char>) -> Seq<char> {
    s.take(s.len() - suf.len())
}

/// `s` without any number of `/login` at its end.
pub open spec fn drop_logins(s: Seq<char>) -> Seq<char>
    decreases s.len(),
{
    if ends(s, "/login"@) {
        proof {
            reveal_strlit("/login");
        }
        drop_logins(without_suffix(s, "/login"@))
    } else {
        s
    }
}

/// `s` up to its first `/`.
pub open spec fn first_segment(s: Seq<char>) -> Seq<char> {
    match find_char(s, '/') {
        Some(i) => s.take(i),
        None => s,
    }
}

/// `s` contains `pat`.
pub open spec fn holds(s: Seq<char>, pat: Seq<char>) -> bool {
    exists|k: int| 0 <= k && k + pat.len() <= s.len() && #[trigger] s.subrange(k, k + pat.len()) == pat
}

pub open spec fn static_route_0(m: Seq<char>, p: Seq<char>) -> Option<RouteView> {
    if m == "GET"@ && p == "/"@ {
        Some(RouteView::Index)
    } else if m == "GET"@ && p == "/index.html"@ {
        Some(RouteView::Index)
    } else if m == "GET"@ && p == "/health"@ {
        Some(RouteView::Health)
    } else if m == "GET"@ && p == "/api/models"@ {
        Some(RouteView::ListModels)
    } else if m == "GET"@ && p == "/api/inference/stats"@ {
        Some(RouteView::InferenceStats)
    } else if m == "POST"@ && p == "/api/models/pull"@ {
        Some(RouteView::PullModel)
    } else if m == "POST"@ && p == "/api/complete/stream"@ {
        Some(RouteView::CompleteStream)
    } else if m == "POST"@ && p == "/api/chat/stream"@ {
        Some(RouteView::ChatStream)
    } else if m == "GET"@ && p == "/api/templates"@ {
        Some(RouteView::ListTemplates)
    } else if m == "GET"@ && p == "/api/agents"@ {
        Some(RouteView::ListAgents)
    } else if m == "GET"@ && p == "/api/tasks"@ {
        Some(RouteView::ListTasks)
    } else if m == "GET"@ && p == "/api/audit"@ {
        Some(RouteView::AuditLog)
    } else if m == "GET"@ && p == "/api/audit/export"@ {
        Some(RouteView::AuditExport)
    } else if m == "GET"@ && p == "/api/metrics"@ {
        Some(RouteView::Metrics)
    } else if m == "GET"@ && p == "/api/conversations"@ {
        Some(RouteView::ListConversations)
    } else if m == "POST"@ && p == "/api/conversations"@ {
        Some(RouteView::CreateConversation)
    } else if m == "POST"@ && p == "/api/conversations/message"@ {
        Some(RouteView::AddMessage)
    } else if m == "GET"@ && p == "/api/auth/sso/login"@ {
        Some(RouteView::SsoLogin)
    } else if m == "POST"@ && p == "/api/auth/sso/callback"@ {
        Some(RouteView::SsoCallback)
    } else if m == "POST"@ && p == "/api/auth/sso/logout"@ {
        Some(RouteView::SsoLogout)
    } else if m == "GET"@ && p == "/api/auth/sso/sessions"@ {
        Some(RouteView::SsoSessions)
    } else if m == "GET"@ && p == "/api/license/status"@ {
        Some(RouteView::LicenseStatus)
    } else if m == "GET"@ && p == "/api/billing/status"@ {
        Some(RouteView::BillingStatus)
    } else if m == "GET"@ && p == "/api/teams"@ {
        Some(RouteView::ListTeams)
    } else if m == "POST"@ && p == "/api/teams"@ {
        Some(RouteView::CreateTeam)
    } else if m == "POST"@ && p == "/api/teams/join"@ {
        Some(RouteView::JoinTeam)
    } else {
        None
    }
}

fn match_static_0(m: &str, p: &str) -> (r: Option<Route>)
    ensures
        opt_route_view(r) == static_route_0(m@, p@),
{
    if str_eq(m, "GET") && str_eq(p, "/") {
        Some(Route::Index)
    } else if str_eq(m, "GET") && str_eq(p, "/index.html") {
        Some(Route::Index)
    } else if str_eq(m, "GET") && str_eq(p, "/health") {
        Some(Route::Health)
    } else if str_eq(m, "GET") && str_eq(p, "/api/models") {
        Some(Route::ListModels)
    } else if str_eq(m, "GET") && str_eq(p, "/api/inference/stats") {
        Some(Route::InferenceStats)
    } else if str_eq(m, "POST") && str_eq(p, "/api/models/pull") {
        Some(Route::PullModel)
    } else if str_eq(m, "POST") && str_eq(p, "/api/complete/stream") {
        Some(Route::CompleteStream)
    } else if str_eq(m, "POST") && str_eq(p, "/api/chat/stream") {
        Some(Route::ChatStream)
    } else if str_eq(m, "GET") && str_eq(p, "/api/templates") {
        Some(Route::ListTemplates)
    } else if str_eq(m, "GET") && str_eq(p, "/api/agents") {
        Some(Route::ListAgents)
    } else if str_eq(m, "GET") && str_eq(p, "/api/tasks") {
        Some(Route::ListTasks)
    } else if str_eq(m, "GET") && str_eq(p, "/api/audit") {
        Some(Route::AuditLog)
    } else if str_eq(m, "GET") && str_eq(p, "/api/audit/export") {
        Some(Route::AuditExport)
    } else if str_eq(m, "GET") && str_eq(p, "/api/metrics") {
        Some(Route::Metrics)
    } else if str_eq(m, "GET") && str_eq(p, "/api/conversations") {
        Some(Route::ListConversations)
    } else if str_eq(m, "POST") && str_eq(p, "/api/conversations") {
        Some(Route::CreateConversation)
    } else if str_eq(m, "POST") && str_eq(p, "/api/conversations/message") {
        Some(Route::AddMessage)
    } else if str_eq(m, "GET") && str_eq(p, "/api/auth/sso/login") {
        Some(Route::SsoLogin)
    } else if str_eq(m, "POST") && str_eq(p, "/api/auth/sso/callback") {
        Some(Route::SsoCallback)
    } else if str_eq(m, "POST") && str_eq(p, "/api/auth/sso/logout") {
        Some(Route::SsoLogout)
    } else if str_eq(m, "GET") && str_eq(p, "/api/auth/sso/sessions") {
        Some(Route::SsoSessions)
    } else if str_eq(m, "GET") && str_eq(p, "/api/license/status") {
        Some(Route::LicenseStatus)
    } else if str_eq(m, "GET") && str_eq(p, "/api/billing/status") {
        Some(Route::BillingStatus)
    } else if str_eq(m, "GET") && str_eq(p, "/api/teams") {
        Some(Route::ListTeams)
    } else if str_eq(m, "POST") && str_eq(p, "/api/teams") {
        Some(Route::CreateTeam)
    } else if str_eq(m, "POST") && str_eq(p, "/api/teams/join") {
        Some(Route::JoinTeam)
    } else {
        None
    }
}

pub open spec fn static_route_1(m: Seq<char>, p: Seq<char>) -> Option<RouteView> {
    if m == "GET"@ && p == "/api/marketplace"@ {
        Some(RouteView::MarketplaceList)
    } else if m == "POST"@ && p == "/api/marketplace/install"@ {
        Some(RouteView::MarketplaceInstall)
    } else if m == "GET"@ && p == "/api/parallel/runs"@ {
        Some(RouteView::ListParallelRuns)
    } else if m == "GET"@ && p == "/api/runs/history"@ {
        Some(RouteView::RunHistory)
    } else if m == "POST"@ && p == "/api/parallel/runs"@ {
        Some(RouteView::ParallelRun)
    } else if m == "GET"@ && p == "/api/cloud/jobs"@ {
        Some(RouteView::ListCloudJobs)
    } else if m == "POST"@ && p == "/api/cloud/jobs"@ {
        Some(RouteView::SubmitCloudJob)
    } else {
        None
    }
}

fn match_static_1(m: &str, p: &str) -> (r: Option<Route>)
    ensures
        opt_route_view(r) == static_route_1(m@, p@),
{
    if str_eq(m, "GET") && str_eq(p, "/api/marketplace") {
        Some(Route::MarketplaceList)
    } else if str_eq(m, "POST") && str_eq(p, "/api/marketplace/install") {
        Some(Route::MarketplaceInstall)
    } else if str_eq(m, "GET") && str_eq(p, "/api/parallel/runs") {
        Some(Route::ListParallelRuns)
    } else if str_eq(m, "GET") && str_eq(p, "/api/runs/history") {
        Some(Route::RunHistory)
    } else if str_eq(m, "POST") && str_eq(p, "/api/parallel/runs") {
        Some(Route::ParallelRun)
    } else if str_eq(m, "GET") && str_eq(p, "/api/cloud/jobs") {
        Some(Route::ListCloudJobs)
    } else if str_eq(m, "POST") && str_eq(p, "/api/cloud/jobs") {
        Some(Route::SubmitCloudJob)
    } else {
        None
    }
}

pub open spec fn static_route_2(m: Seq<char>, p: Seq<char>) -> Option<RouteView> {
    if m == "GET"@ && p == "/api/swarm/runs"@ {
        Some(RouteView::ListSwarmRuns)
    } else if m == "POST"@ && p == "/api/swarm/runs"@ {
        Some(RouteView::StartSwarmRun)
    } else {
        None
    }
}

fn match_static_2(m: &str, p: &str) -> (r: Option<Route>)
    ensures
        opt_route_view(r) == static_route_2(m@, p@),
{
    if str_eq(m, "GET") && str_eq(p, "/api/swarm/runs") {
        Some(Route::ListSwarmRuns)
    } else if str_eq(m, "POST") && str_eq(p, "/api/swarm/runs") {
        Some(Route::StartSwarmRun)
    } else {
        None
    }
}

pub open spec fn static_route_3(m: Seq<char>, p: Seq<char>) -> Option<RouteView> {
    if m == "POST"@ && p == "/api/agents/run"@ {
        Some(RouteView::RunAgent)
    } else if m == "GET"@ && p == "/api/pending-approvals"@ {
        Some(RouteView::PendingApprovals)
    } else if m == "POST"@ && p == "/api/approve"@ {
        Some(RouteView::Approve)
    } else if m == "GET"@ && p == "/api/file-locks"@ {
        Some(RouteView::FileLocks)
    } else if m == "GET"@ && p == "/api/mission/feed"@ {
        Some(RouteView::MissionFeed)
    } else if m == "POST"@ && p == "/api/auth/sso/config"@ {
        Some(RouteView::SsoConfig)
    } else if m == "GET"@ && p == "/api/search"@ {
        Some(RouteView::Search)
    } else if m == "GET"@ && p == "/api/yaya/experts"@ {
        Some(RouteView::YayaExperts)
    } else if m == "GET"@ && p == "/api/yaya/retrieval-preferences"@ {
        Some(RouteView::YayaGetPreferences)
    } else if m == "POST"@ && p == "/api/yaya/retrieval-preferences"@ {
        Some(RouteView::YayaSetPreferences)
    } else if m == "POST"@ && p == "/api/yaya/chat"@ {
        Some(RouteView::YayaChat)
    } else if m == "POST"@ && p == "/api/yaya/training/examples"@ {
        Some(RouteView::YayaTrainingExample)
    } else if m == "GET"@ && p == "/api/policy"@ {
        Some(RouteView::GetPolicy)
    } else if m == "POST"@ && p == "/api/policy"@ {
        Some(RouteView::SetPolicy)
    } else if m == "POST"@ && p == "/api/complete"@ {
        Some(RouteView::Complete)
    } else if m == "POST"@ && p == "/api/parallel/run"@ {
        Some(RouteView::ParallelRun)
    } else if m == "GET"@ && p == "/api/webhooks"@ {
        Some(RouteView::ListWebhooks)
    } else if m == "POST"@ && p == "/api/webhooks"@ {
        Some(RouteView::RegisterWebhook)
    } else if m == "POST"@ && p == "/api/webhooks/verify"@ {
        Some(RouteView::VerifyWebhook)
    } else if m == "POST"@ && p == "/api/tasks/schedule"@ {
        Some(RouteView::ScheduleTask)
    } else if m == "POST"@ && p == "/api/license/activate"@ {
        Some(RouteView::LicenseActivate)
    } else if m == "POST"@ && p == "/api/prompt"@ {
        Some(RouteView::Prompt)
    } else if m == "GET"@ && p == "/api/usage"@ {
        Some(RouteView::Usage)
    } else {
        None
    }
}

fn match_static_3(m: &str, p: &str) -> (r: Option<Route>)
    ensures
        opt_route_view(r) == static_route_3(m@, p@),
{
    if str_eq(m, "POST") && str_eq(p, "/api/agents/run") {
        Some(Route::RunAgent)
    } else if str_eq(m, "GET") && str_eq(p, "/api/pending-approvals") {
        Some(Route::PendingApprovals)
    } else if str_eq(m, "POST") && str_eq(p, "/api/approve") {
        Some(Route::Approve)
    } else if str_eq(m, "GET") && str_eq(p, "/api/file-locks") {
        Some(Route::FileLocks)
    } else if str_eq(m, "GET") && str_eq(p, "/api/mission/feed") {
        Some(Route::MissionFeed)
    } else if str_eq(m, "POST") && str_eq(p, "/api/auth/sso/config") {
        Some(Route::SsoConfig)
    } else if str_eq(m, "GET") && str_eq(p, "/api/search") {
        Some(Route::Search)
    } else if str_eq(m, "GET") && str_eq(p, "/api/yaya/experts") {
        Some(Route::YayaExperts)
    } else if str_eq(m, "GET") && str_eq(p, "/api/yaya/retrieval-preferences") {
        Some(Route::YayaGetPreferences)
    } else if str_eq(m, "POST") && str_eq(p, "/api/yaya/retrieval-preferences") {
        Some(Route::YayaSetPreferences)
    } else if str_eq(m, "POST") && str_eq(p, "/api/yaya/chat") {
        Some(Route::YayaChat)
    } else if str_eq(m, "POST") && str_eq(p, "/api/yaya/training/examples") {
        Some(Route::YayaTrainingExample)
    } else if str_eq(m, "GET") && str_eq(p, "/api/policy") {
        Some(Route::GetPolicy)
    } else if str_eq(m, "POST") && str_eq(p, "/api/policy") {
        Some(Route::SetPolicy)
    } else if str_eq(m, "POST") && str_eq(p, "/api/complete") {
        Some(Route::Complete)
    } else if str_eq(m, "POST") && str_eq(p, "/api/parallel/run") {
        Some(Route::ParallelRun)
    } else if str_eq(m, "GET") && str_eq(p, "/api/webhooks") {
        Some(Route::ListWebhooks)
    } else if str_eq(m, "POST") && str_eq(p, "/api/webhooks") {
        Some(Route::RegisterWebhook)
    } else if str_eq(m, "POST") && str_eq(p, "/api/webhooks/verify") {
        Some(Route::VerifyWebhook)
    } else if str_eq(m, "POST") && str_eq(p, "/api/tasks/schedule") {
        Some(Route::ScheduleTask)
    } else if str_eq(m, "POST") && str_eq(p, "/api/license/activate") {
        Some(Route::LicenseActivate)
    } else if str_eq(m, "POST") && str_eq(p, "/api/prompt") {
        Some(Route::Prompt)
    } else if str_eq(m, "GET") && str_eq(p, "/api/usage") {
        Some(Route::Usage)
    } else {
        None
    }
}

pub open spec fn static_route_4(m: Seq<char>, p: Seq<char>) -> Option<RouteView> {
    if m == "POST"@ && p == "/api/auth/oauth/logout"@ {
        Some(RouteView::OauthLogout)
    } else if m == "GET"@ && p == "/api/auth/oauth/sessions"@ {
        Some(RouteView::OauthSessions)
    } else if m == "POST"@ && p == "/api/telemetry/flush"@ {
        Some(RouteView::TelemetryFlush)
    } else if m == "GET"@ && p == "/api/telemetry/status"@ {
        Some(RouteView::TelemetryStatus)
    } else if m == "GET"@ && p == "/api/workers"@ {
        Some(RouteView::ListWorkers)
    } else if m == "POST"@ && p == "/api/workers/register"@ {
        Some(RouteView::RegisterWorker)
    } else if m == "POST"@ && p == "/api/workers/heartbeat"@ {
        Some(RouteView::WorkerHeartbeat)
    } else if m == "DELETE"@ && p == "/api/workers/deregister"@ {
        Some(RouteView::DeregisterWorker)
    } else if m == "POST"@ && p == "/api/finetune/extract"@ {
        Some(RouteView::FinetuneExtract)
    } else if m == "POST"@ && p == "/api/finetune/modelfile"@ {
        Some(RouteView::FinetuneModelfile)
    } else if m == "GET"@ && p == "/api/diagnostics"@ {
        Some(RouteView::Diagnostics)
    } else if m == "POST"@ && p == "/api/index"@ {
        Some(RouteView::IndexBuild)
    } else if m == "GET"@ && p == "/api/index"@ {
        Some(RouteView::IndexStatus)
    } else if m == "GET"@ && p == "/api/graph"@ {
        Some(RouteView::DependencyGraph)
    } else if m == "GET"@ && p == "/api/monorepo"@ {
        Some(RouteView::Monorepo)
    } else if m == "GET"@ && p == "/api/dashboard"@ {
        Some(RouteView::Dashboard)
    } else if m == "GET"@ && p == "/api/events"@ {
        Some(RouteView::EventStream)
    } else if m == "GET"@ && p == "/api/run-templates"@ {
        Some(RouteView::ListRunTemplates)
    } else if m == "POST"@ && p == "/api/run-templates"@ {
        Some(RouteView::SaveRunTemplate)
    } else {
        None
    }
}

fn match_static_4(m: &str, p: &str) -> (r: Option<Route>)
    ensures
        opt_route_view(r) == static_route_4(m@, p@),
{
    if str_eq(m, "POST") && str_eq(p, "/api/auth/oauth/logout") {
        Some(Route::OauthLogout)
    } else if str_eq(m, "GET") && str_eq(p, "/api/auth/oauth/sessions") {
        Some(Route::OauthSessions)
    } else if str_eq(m, "POST") && str_eq(p, "/api/telemetry/flush") {
        Some(Route::TelemetryFlush)
    } else if str_eq(m, "GET") && str_eq(p, "/api/telemetry/status") {
        Some(Route::TelemetryStatus)
    } else if str_eq(m, "GET") && str_eq(p, "/api/workers") {
        Some(Route::ListWorkers)
    } else if str_eq(m, "POST") && str_eq(p, "/api/workers/register") {
        Some(Route::RegisterWorker)
    } else if str_eq(m, "POST") && str_eq(p, "/api/workers/heartbeat") {
        Some(Route::WorkerHeartbeat)
    } else if str_eq(m, "DELETE") && str_eq(p, "/api/workers/deregister") {
        Some(Route::DeregisterWorker)
    } else if str_eq(m, "POST") && str_eq(p, "/api/finetune/extract") {
        Some(Route::FinetuneExtract)
    } else if str_eq(m, "POST") && str_eq(p, "/api/finetune/modelfile") {
        Some(Route::FinetuneModelfile)
    } else if str_eq(m, "GET") && str_eq(p, "/api/diagnostics") {
        Some(Route::Diagnostics)
    } else if str_eq(m, "POST") && str_eq(p, "/api/index") {
        Some(Route::IndexBuild)
    } else if str_eq(m, "GET") && str_eq(p, "/api/index") {
        Some(Route::IndexStatus)
    } else if str_eq(m, "GET") && str_eq(p, "/api/graph") {
        Some(Route::DependencyGraph)
    } else if str_eq(m, "GET") && str_eq(p, "/api/monorepo") {
        Some(Route::Monorepo)
    } else if str_eq(m, "GET") && str_eq(p, "/api/dashboard") {
        Some(Route::Dashboard)
    } else if str_eq(m, "GET") && str_eq(p, "/api/events") {
        Some(Route::EventStream)
    } else if str_eq(m, "GET") && str_eq(p, "/api/run-templates") {
        Some(Route::ListRunTemplates)
    } else if str_eq(m, "POST") && str_eq(p, "/api/run-templates") {
        Some(Route::SaveRunTemplate)
    } else {
        None
    }
}

/// The team routes: `/api/teams/<id>`, `/api/teams/<id>/agents`,
/// `/api/teams/<id>/audit`.
pub open spec fn team_route(rest: Seq<char>) -> RouteView {
    let (id, suffix) = match find_char(rest, '/') {
        Some(i) => (rest.take(i), rest.skip(i + 1)),
        None => (rest, Seq::empty()),
    };
    if suffix.len() == 0 {
        RouteView::GetTeam(id)
    } else if suffix == "agents"@ {
        RouteView::TeamAgents(id)
    } else if suffix == "audit"@ {
        RouteView::TeamAudit(id)
    } else {
        RouteView::TeamNotFound
    }
}

/// The routes with parameters that the fixed table does not hold.
pub open spec fn dynamic_route(m: Seq<char>, p: Seq<char>) -> RouteView {
    if starts(p, "/api/parallel/runs/"@) {
        let rest = p.skip(19);
        if m == "GET"@ {
            if ends(rest, "/cost"@) {
                RouteView::RunCost(without_suffix(rest, "/cost"@))
            } else if ends(rest, "/conflicts"@) {
                RouteView::RunConflicts(without_suffix(rest, "/conflicts"@))
            } else {
                RouteView::GetParallelRun(rest)
            }
        } else if m == "POST"@ && ends(rest, "/replay"@) {
            RouteView::ReplayRun(without_suffix(rest, "/replay"@))
        } else if m == "POST"@ && ends(rest, "/cancel"@) {
            RouteView::CancelParallelRun(without_suffix(rest, "/cancel"@))
        } else {
            RouteView::NotFound
        }
    } else if starts(p, "/api/run-templates/"@) {
        let rest = p.skip(19);
        if m == "GET"@ && !ends(rest, "/run"@) {
            RouteView::GetRunTemplate(rest)
        } else if m == "DELETE"@ {
            RouteView::DeleteRunTemplate(rest)
        } else if m == "POST"@ && ends(rest, "/run"@) {
            RouteView::RunTemplate(without_suffix(rest, "/run"@))
        } else {
            RouteView::NotFound
        }
    } else if starts(p, "/api/agents/"@) {
        let rest = p.skip(12);
        if m == "GET"@ {
            RouteView::GetAgent(rest)
        } else if m == "DELETE"@ {
            if ends(rest, "/cancel"@) {
                RouteView::CancelAgent(without_suffix(rest, "/cancel"@))
            } else {
                RouteView::DeleteAgent(rest)
            }
        } else if m == "POST"@ && ends(rest, "/cancel"@) {
            RouteView::CancelAgent(without_suffix(rest, "/cancel"@))
        } else {
            RouteView::NotFound
        }
    } else if starts(p, "/api/conversations/"@) {
        let id = p.skip(19);
        if m == "GET"@ {
            RouteView::GetConversation(id)
        } else if m == "DELETE"@ {
            RouteView::DeleteConversation(id)
        } else {
            RouteView::NotFound
        }
    } else {
        RouteView::NotFound
    }
}

/// The route of a method and a (normalised) path: the fixed table and the
/// parameterised routes, in the order the daemon tries them.
pub open spec fn route_of(m: Seq<char>, p: Seq<char>) -> RouteView {
    match static_route_0(m, p) {
        Some(r) => r,
        None => if m == "GET"@ && starts(p, "/api/teams/"@) {
            team_route(p.skip(11))
        } else {
            match static_route_1(m, p) {
                Some(r) => r,
                None => if m == "GET"@ && starts(p, "/api/cloud/jobs/"@) {
                    RouteView::GetCloudJob(p.skip(16))
                } else {
                    match static_route_2(m, p) {
                        Some(r) => r,
                        None => if m == "GET"@ && starts(p, "/api/swarm/runs/"@) {
                            RouteView::GetSwarmRun(p.skip(16))
                        } else {
                            match static_route_3(m, p) {
                                Some(r) => r,
                                None => if m == "GET"@ && starts(p, "/api/auth/oauth/"@) && ends(
                                    p,
                                    "/login"@,
                                ) {
                                    RouteView::OauthLogin(drop_logins(p.skip(16)))
                                } else if m == "GET"@ && starts(p, "/api/auth/oauth/"@) && holds(
                                    p,
                                    "/callback"@,
                                ) {
                                    RouteView::OauthCallback(first_segment(p.skip(16)))
                                } else {
                                    match static_route_4(m, p) {
                                        Some(r) => r,
                                        None => dynamic_route(m, p),
                                    }
                                },
                            }
                        },
                    }
                },
            }
        },
    }
}

fn ends_with(v: &Vec<char>, suf: &str) -> (b: bool)
    ensures
        b == ends(v@, suf@),
{
    let sc = chars_of(suf);
    if sc.len() > v.len() {
        return false;
    }
    let n = v.len();
    let off = n - sc.len();
    let mut k: usize = 0;
    while k < sc.len()
        invariant
            n == v@.len(),
            sc@ == suf@,
            sc@.len() <= v@.len(),
            off == v@.len() - sc@.len(),
            k <= sc@.len(),
            forall|q: int| 0 <= q < k ==> v@[off + q] == sc@[q],
        decreases sc@.len() - k,
    {
        if v[off + k] != sc[k] {
            assert(v@.skip(off as int)[k as int] != sc@[k as int]);
            return false;
        }
        k = k + 1;
    }
    assert(v@.skip(off as int) =~= sc@);
    true
}

fn drop_login_suffixes(v: Vec<char>) -> (r: Vec<char>)
    ensures
        r@ == drop_logins(v@),
    decreases v@.len(),
{
    proof {
        reveal_strlit("/login");
    }
    if ends_with(&v, "/login") {
        let w = slice(&v, 0, v.len() - 6);
        drop_login_suffixes(w)
    } else {
        v
    }
}

fn segment(v: &Vec<char>) -> (r: Vec<char>)
    ensures
        r@ == first_segment(v@),
{
    let mut i: usize = 0;
    while i < v.len() && v[i] != '/'
        invariant
            i <= v@.len(),
            forall|k: int| 0 <= k < i ==> v@[k] != '/',
        decreases v@.len() - i,
    {
        i = i + 1;
    }
    proof {
        crate::channels::lemma_find_char(v@, '/');
        if i < v@.len() {
            assert(find_char(v@, '/') == Some(i as int)) by {
                match find_char(v@, '/') {
                    Some(j) => {
                        if j < i {
                        } else if j > i {
                        }
                    },
                    None => {},
                }
            }
        } else {
            assert(find_char(v@, '/') is None) by {
                match find_char(v@, '/') {
                    Some(j) => {},
                    None => {},
                }
            }
            assert(v@.take(i as int) =~= v@);
        }
    }
    slice(v, 0, i)
}

fn contains_text(v: &Vec<char>, pat: &str) -> (b: bool)
    ensures
        b == holds(v@, pat@),
{
    let pc = chars_of(pat);
    let r = find_pattern(v, &pc, 0);
    proof {
        lemma_find_from(v@, pc@, 0);
        if let Some(k) = r {
            assert(occurs_at(v@, pc@, k as int));
            assert(v@.subrange(k as int, k + pc@.len()) == pat@);
        } else {
            assert forall|k: int| !(0 <= k && k + pat@.len() <= v@.len() && #[trigger] v@.subrange(k, k + pat@.len()) == pat@) by {
                if 0 <= k {
                    assert(!occurs_at(v@, pc@, k));
                }
            }
        }
    }
    r.is_some()
}

fn tail_string(v: &Vec<char>, n: usize) -> (s: String)
    requires
        n <= v@.len(),
    ensures
        s@ == v@.skip(n as int),
{
    let w = slice(v, n, v.len());
    assert(w@ =~= v@.skip(n as int));
    string_from_chars(w)
}

fn cut_suffix(v: &Vec<char>, suf: &str) -> (s: String)
    requires
        ends(v@, suf@),
    ensures
        s@ == without_suffix(v@, suf@),
{
    let k = chars_of(suf).len();
    let w = slice(v, 0, v.len() - k);
    string_from_chars(w)
}

fn team_route_exec(rest: Vec<char>) -> (r: Route)
    ensures
        r@ == team_route(rest@),
{
    let mut i: usize = 0;
    while i < rest.len() && rest[i] != '/'
        invariant
            i <= rest@.len(),
            forall|k: int| 0 <= k < i ==> rest@[k] != '/',
        decreases rest@.len() - i,
    {
        i = i + 1;
    }
    proof {
        crate::channels::lemma_find_char(rest@, '/');
        match find_char(rest@, '/') {
            Some(j) => {
                if j < i {
                } else if j > i {
                }
            },
            None => {},
        }
    }
    let id = string_from_chars(slice(&rest, 0, i));
    if i == rest.len() {
        proof {
            assert(rest@.take(i as int) =~= rest@);
        }
        return Route::GetTeam(id);
    }
    let suffix = slice(&rest, i + 1, rest.len());
    proof {
        assert(suffix@ =~= rest@.skip(i + 1));
    }
    if suffix.len() == 0 {
        Route::GetTeam(id)
    } else if crate::channels::equals(&suffix, "agents") {
        Route::TeamAgents(id)
    } else if crate::channels::equals(&suffix, "audit") {
        Route::TeamAudit(id)
    } else {
        Route::TeamNotFound
    }
}

fn dynamic_route_exec(m: &str, p: &Vec<char>) -> (r: Route)
    ensures
        r@ == dynamic_route(m@, p@),
{
    proof {
        reveal_strlit("/api/parallel/runs/");
        reveal_strlit("/api/run-templates/");
        reveal_strlit("/api/agents/");
        reveal_strlit("/api/conversations/");
    }
    if starts_with(p, "/api/parallel/runs/") {
        let rest = slice(p, 19, p.len());
        assert(rest@ =~= p@.skip(19));
        if str_eq(m, "GET") {
            if ends_with(&rest, "/cost") {
                Route::RunCost(cut_suffix(&rest, "/cost"))
            } else if ends_with(&rest, "/conflicts") {
                Route::RunConflicts(cut_suffix(&rest, "/conflicts"))
            } else {
                Route::GetParallelRun(string_from_chars(rest))
            }
        } else if str_eq(m, "POST") && ends_with(&rest, "/replay") {
            Route::ReplayRun(cut_suffix(&rest, "/replay"))
        } else if str_eq(m, "POST") && ends_with(&rest, "/cancel") {
            Route::CancelParallelRun(cut_suffix(&rest, "/cancel"))
        } else {
            Route::NotFound
        }
    } else if starts_with(p, "/api/run-templates/") {
        let rest = slice(p, 19, p.len());
        assert(rest@ =~= p@.skip(19));
        if str_eq(m, "GET") && !ends_with(&rest, "/run") {
            Route::GetRunTemplate(string_from_chars(rest))
        } else if str_eq(m, "DELETE") {
            Route::DeleteRunTemplate(string_from_chars(rest))
        } else if str_eq(m, "POST") && ends_with(&rest, "/run") {
            Route::RunTemplate(cut_suffix(&rest, "/run"))
        } else {
            Route::NotFound
        }
    } else if starts_with(p, "/api/agents/") {
        let rest = slice(p, 12, p.len());
        assert(rest@ =~= p@.skip(12));
        if str_eq(m, "GET") {
            Route::GetAgent(string_from_chars(rest))
        } else if str_eq(m, "DELETE") {
            if ends_with(&rest, "/cancel") {
                Route::CancelAgent(cut_suffix(&rest, "/cancel"))
            } else {
                Route::DeleteAgent(string_from_chars(rest))
            }
        } else if str_eq(m, "POST") && ends_with(&rest, "/cancel") {
            Route::CancelAgent(cut_suffix(&rest, "/cancel"))
        } else {
            Route::NotFound
        }
    } else if starts_with(p, "/api/conversations/") {
        let id = slice(p, 19, p.len());
        assert(id@ =~= p@.skip(19));
        if str_eq(m, "GET") {
            Route::GetConversation(string_from_chars(id))
        } else if str_eq(m, "DELETE") {
            Route::DeleteConversation(string_from_chars(id))
        } else {
            Route::NotFound
        }
    } else {
        Route::NotFound
    }
}

/// Routes a request by method and normalised path; see `route_of`.
pub fn route(method: &str, path: &str) -> (r: Route)
    ensures
        r@ == route_of(method@, path@),
{
    proof {
        reveal_strlit("/api/teams/");
        reveal_strlit("/api/cloud/jobs/");
        reveal_strlit("/api/swarm/runs/");
        reveal_strlit("/api/auth/oauth/");
    }
    if let Some(r) = match_static_0(method, path) {
        return r;
    }
    let p = chars_of(path);
    let get = str_eq(method, "GET");
    if get && starts_with(&p, "/api/teams/") {
        let rest = slice(&p, 11, p.len());
        assert(rest@ =~= p@.skip(11));
        return team_route_exec(rest);
    }
    if let Some(r) = match_static_1(method, path) {
        return r;
    }
    if get && starts_with(&p, "/api/cloud/jobs/") {
        return Route::GetCloudJob(tail_string(&p, 16));
    }
    if let Some(r) = match_static_2(method, path) {
        return r;
    }
    if get && starts_with(&p, "/api/swarm/runs/") {
        return Route::GetSwarmRun(tail_string(&p, 16));
    }
    if let Some(r) = match_static_3(method, path) {
        return r;
    }
    if get && starts_with(&p, "/api/auth/oauth/") && ends_with(&p, "/login") {
        let rest = slice(&p, 16, p.len());
        assert(rest@ =~= p@.skip(16));
        return Route::OauthLogin(string_from_chars(drop_login_suffixes(rest)));
    }
    if get && starts_with(&p, "/api/auth/oauth/") && contains_text(&p, "/callback") {
        let rest = slice(&p, 16, p.len());
        assert(rest@ =~= p@.skip(16));
        return Route::OauthCallback(string_from_chars(segment(&rest)));
    }
    if let Some(r) = match_static_4(method, path) {
        return r;
    }
    dynamic_route_exec(method, &p)
}

// ---------------------------------------------------------------------------
// The front door.

/// The path of a request target: up to the first `?`, without trailing
/// slashes.
pub open spec fn path_full_of(target: Seq<char>) -> Seq<char> {
    let p = match find_char(target, '?') {
        Some(i) => target.take(i),
        None => target,
    };
    p.take(p.len() - trail(p, false, '/'))
}

/// The path routed on: the full path, or `/` when that is empty.
pub open spec fn path_of(target: Seq<char>) -> Seq<char> {
    if path_full_of(target).len() == 0 {
        "/"@
    } else {
        path_full_of(target)
    }
}

/// The query string: after the first `?`, empty without one.
pub open spec fn query_of(target: Seq<char>) -> Seq<char> {
    match find_char(target, '?') {
        Some(i) => target.skip(i + 1),
        None => Seq::empty(),
    }
}

/// A request target's routed path, full path and query string.
pub fn split_target(target: &str) -> (r: (String, String, String))
    ensures
        r.0@ == path_of(target@),
        r.1@ == path_full_of(target@),
        r.2@ == query_of(target@),
{
    let t = chars_of(target);
    let mut i: usize = 0;
    while i < t.len() && t[i] != '?'
        invariant
            i <= t@.len(),
            forall|k: int| 0 <= k < i ==> t@[k] != '?',
        decreases t@.len() - i,
    {
        i = i + 1;
    }
    proof {
        crate::channels::lemma_find_char(t@, '?');
        match find_char(t@, '?') {
            Some(j) => {
                if j < i {
                } else if j > i {
                }
            },
            None => {},
        }
    }
    let before = slice(&t, 0, i);
    let query = if i < t.len() {
        tail_string(&t, i + 1)
    } else {
        String::new()
    };
    proof {
        if i == t@.len() {
            assert(before@ =~= t@);
        }
    }
    let mut j: usize = before.len();
    proof {
        assert(before@.take(j as int) =~= before@);
    }
    while j > 0 && before[j - 1] == '/'
        invariant
            j <= before@.len(),
            trail(before@, false, '/') == (before@.len() - j) + trail(before@.take(j as int), false, '/'),
        decreases j,
    {
        assert(before@.take(j as int).drop_last() =~= before@.take(j - 1));
        j = j - 1;
    }
    let full = string_from_chars(slice(&before, 0, j));
    let path = if j == 0 {
        owned("/")
    } else {
        full.clone()
    };
    (path, full, query)
}

/// Requests to these paths are neither rate limited nor asked for the API
/// key.
pub open spec fn public_path(p: Seq<char>) -> bool {
    p.len() == 0 || p == "/"@ || p == "/index.html"@ || p == "/health"@
}

pub fn is_public_path(path: &str) -> (b: bool)
    ensures
        b == public_path(path@),
{
    path.as_bytes().len() == 0 || str_eq(path, "/") || str_eq(path, "/index.html") || str_eq(
        path,
        "/health",
    )
}

/// The rate-limit bucket of a request: none for public paths and the
/// inference statistics; completions get a bucket of their own per client.
pub open spec fn rate_key_of(path: Seq<char>, client: Seq<char>) -> Option<Seq<char>> {
    if starts(path, "/api/inference/stats"@) || public_path(path) {
        None
    } else if path == "/api/complete"@ {
        Some("complete:"@ + client)
    } else {
        Some(client)
    }
}

pub fn rate_limit_key(path: &str, client_ip: &str) -> (r: Option<String>)
    ensures
        r matches Some(k) ==> rate_key_of(path@, client_ip@) == Some(k@),
        r is None ==> rate_key_of(path@, client_ip@) is None,
{
    let p = chars_of(path);
    if starts_with(&p, "/api/inference/stats") || is_public_path(path) {
        return None;
    }
    if str_eq(path, "/api/complete") {
        let mut k = owned("complete:");
        k.append(client_ip);
        proof {
            reveal_strlit("complete:");
        }
        Some(k)
    } else {
        Some(owned(client_ip))
    }
}

/// Whether the API key lets a request through: public paths always pass;
/// otherwise, when a key is set, the credential must equal it.
pub open spec fn key_accepts(path: Seq<char>, required: Option<Seq<char>>, provided: Option<Seq<char>>) -> bool {
    public_path(path) || match required {
        None => true,
        Some(k) => provided == Some(k),
    }
}

pub fn api_key_accepts(path: &str, required: Option<&str>, provided: Option<&str>) -> (b: bool)
    ensures
        b == key_accepts(
            path@,
            match required {
                Some(k) => Some(k@),
                None => None,
            },
            match provided {
                Some(k) => Some(k@),
                None => None,
            },
        ),
{
    if is_public_path(path) {
        return true;
    }
    match required {
        None => true,
        Some(k) => match provided {
            Some(p) => str_eq(p, k),
            None => false,
        },
    }
}

/// The permission a route is gated on.
#[derive(Debug, Clone, Copy, PartialEq, Eq, Structural)]
pub enum GateAction {
    ViewAudit,
    RunAgent,
    ManageGovernance,
    ManageEnterpriseSso,
    ManageModels,
    ManageWebhooks,
}

/// The routes that need a permission beyond the API key, and which.
pub open spec fn gate_of(r: RouteView) -> Option<GateAction> {
    match r {
        RouteView::AuditLog | RouteView::AuditExport | RouteView::Metrics => Some(GateAction::ViewAudit),
        RouteView::RunAgent => Some(GateAction::RunAgent),
        RouteView::Approve | RouteView::GetPolicy | RouteView::SetPolicy => Some(GateAction::ManageGovernance),
        RouteView::SsoConfig => Some(GateAction::ManageEnterpriseSso),
        RouteView::PullModel => Some(GateAction::ManageModels),
        RouteView::ListWebhooks | RouteView::RegisterWebhook => Some(GateAction::ManageWebhooks),
        _ => None,
    }
}

pub fn required_action(r: &Route) -> (g: Option<GateAction>)
    ensures
        g == gate_of(r@),
{
    match r {
        Route::AuditLog | Route::AuditExport | Route::Metrics => Some(GateAction::ViewAudit),
        Route::RunAgent => Some(GateAction::RunAgent),
        Route::Approve | Route::GetPolicy | Route::SetPolicy => Some(GateAction::ManageGovernance),
        Route::SsoConfig => Some(GateAction::ManageEnterpriseSso),
        Route::PullModel => Some(GateAction::ManageModels),
        Route::ListWebhooks | Route::RegisterWebhook => Some(GateAction::ManageWebhooks),
        _ => None,
    }
}

/// A borrowed optional string, by its characters.
pub open spec fn str_opt(o: Option<&str>) -> Option<Seq<char>> {
    match o {
        Some(k) => Some(k@),
        None => None,
    }
}

/// The paths whose requests count against a rate-limit bucket.
pub open spec fn limited_path(path: Seq<char>) -> bool {
    !(starts(path, "/api/inference/stats"@) || public_path(path))
}

/// The bucket a request is counted against before it is let through: none for
/// a CORS preflight, which is answered first; otherwise `rate_key_of`.
pub open spec fn bucket_of(method: Seq<char>, path: Seq<char>, client: Seq<char>) -> Option<Seq<char>> {
    if method == "OPTIONS"@ {
        None
    } else {
        rate_key_of(path, client)
    }
}

/// What the front door does with a request before its handler.
#[derive(Debug)]
pub enum Admission {
    /// A CORS preflight, answered 204.
    Preflight,
    /// Over the rate limit: 429.
    Limited,
    /// Missing or wrong API key: 401.
    Unauthorized,
    /// Handed to the route's handler, behind the route's permission gate.
    Routed(Route, Option<GateAction>),
}

pub enum AdmissionView {
    Preflight,
    Limited,
    Unauthorized,
    Routed(RouteView, Option<GateAction>),
}

impl View for Admission {
    type V = AdmissionView;

    open spec fn view(&self) -> AdmissionView {
        match self {
            Admission::Preflight => AdmissionView::Preflight,
            Admission::Limited => AdmissionView::Limited,
            Admission::Unauthorized => AdmissionView::Unauthorized,
            Admission::Routed(r, g) => AdmissionView::Routed(r@, *g),
        }
    }
}

/// The order of the front door: a preflight is answered at once; then a
/// request on a limited path that its bucket refuses (`allowed` false) is
/// limited; then the API key is checked; then the request is routed.
pub open spec fn admission_of(
    method: Seq<char>,
    path: Seq<char>,
    allowed: bool,
    required: Option<Seq<char>>,
    provided: Option<Seq<char>>,
) -> AdmissionView {
    if method == "OPTIONS"@ {
        AdmissionView::Preflight
    } else if limited_path(path) && !allowed {
        AdmissionView::Limited
    } else if !key_accepts(path, required, provided) {
        AdmissionView::Unauthorized
    } else {
        AdmissionView::Routed(route_of(method, path), gate_of(route_of(method, path)))
    }
}

/// Whether the credential must be read for the key check: only when the
/// request got that far, its path is not public and a key is set.
pub open spec fn credential_needed(method: Seq<char>, path: Seq<char>, allowed: bool, has_key: bool) -> bool {
    method != "OPTIONS"@ && !(limited_path(path) && !allowed) && !public_path(path) && has_key
}

fn on_limited_path(path: &str) -> (b: bool)
    ensures
        b == limited_path(path@),
{
    let p = chars_of(path);
    !(starts_with(&p, "/api/inference/stats") || is_public_path(path))
}

/// The bucket to count this request against; see `bucket_of`.
pub fn rate_bucket(method: &str, path: &str, client_ip: &str) -> (r: Option<String>)
    ensures
        r matches Some(k) ==> bucket_of(method@, path@, client_ip@) == Some(k@),
        r is None ==> bucket_of(method@, path@, client_ip@) is None,
{
    proof {
        reveal_strlit("OPTIONS");
    }
    if str_eq(method, "OPTIONS") {
        None
    } else {
        rate_limit_key(path, client_ip)
    }
}

/// Whether the front door reads the credential; see `credential_needed`.
pub fn needs_credential(method: &str, path: &str, allowed: bool, has_key: bool) -> (b: bool)
    ensures
        b == credential_needed(method@, path@, allowed, has_key),
{
    proof {
        reveal_strlit("OPTIONS");
    }
    !str_eq(method, "OPTIONS") && !(on_limited_path(path) && !allowed) && !is_public_path(path) && has_key
}

/// Decides what happens to a request: `allowed` is its bucket's answer (true when it has
/// none), `required` the API key if one is set, `provided` the credential
/// the request carries; see `admission_of`.
pub fn admission(method: &str, path: &str, allowed: bool, required: Option<&str>, provided: Option<&str>) -> (a: Admission)
    ensures
        a@ == admission_of(method@, path@, allowed, str_opt(required), str_opt(provided)),
{
    proof {
        reveal_strlit("OPTIONS");
    }
    if str_eq(method, "OPTIONS") {
        Admission::Preflight
    } else if on_limited_path(path) && !allowed {
        Admission::Limited
    } else if !api_key_accepts(path, required, provided) {
        Admission::Unauthorized
    } else {
        let r = route(method, path);
        let g = required_action(&r);
        Admission::Routed(r, g)
    }
}

} // verus!


verus! {

/// The literals of the route table differ from one another, and no fixed
/// path is taken by one of the parameterised routes tried before it.
#[verifier::rlimit(60)]
proof fn lemma_route_literals_differ()
    ensures
        "/index.html"@ != "/api/models"@,
        "/index.html"@ != "/api/agents"@,
        "/index.html"@ != "/api/search"@,
        "/index.html"@ != "/api/policy"@,
        "/index.html"@ != "/api/prompt"@,
        "/index.html"@ != "/api/events"@,
        "/index.html"@ != "/api/teams/"@,
        "/api/models"@ != "/api/agents"@,
        "/api/models"@ != "/api/search"@,
        "/api/models"@ != "/api/policy"@,
        "/api/models"@ != "/api/prompt"@,
        "/api/models"@ != "/api/events"@,
        "/api/models"@ != "/api/teams/"@,
        "/api/agents"@ != "/api/search"@,
        "/api/agents"@ != "/api/policy"@,
        "/api/agents"@ != "/api/prompt"@,
        "/api/agents"@ != "/api/events"@,
        "/api/agents"@ != "/api/teams/"@,
        "/api/search"@ != "/api/policy"@,
        "/api/search"@ != "/api/prompt"@,
        "/api/search"@ != "/api/events"@,
        "/api/search"@ != "/api/teams/"@,
        "/api/policy"@ != "/api/prompt"@,
        "/api/policy"@ != "/api/events"@,
        "/api/policy"@ != "/api/teams/"@,
        "/api/prompt"@ != "/api/events"@,
        "/api/prompt"@ != "/api/teams/"@,
        "/api/events"@ != "/api/teams/"@,
        "/api/inference/stats"@ != "/api/complete/stream"@,
        "/api/inference/stats"@ != "/api/auth/sso/logout"@,
        "/api/inference/stats"@ != "/api/auth/sso/config"@,
        "/api/inference/stats"@ != "/api/webhooks/verify"@,
        "/api/inference/stats"@ != "/api/telemetry/flush"@,
        "/api/complete/stream"@ != "/api/auth/sso/logout"@,
        "/api/complete/stream"@ != "/api/auth/sso/config"@,
        "/api/complete/stream"@ != "/api/webhooks/verify"@,
        "/api/complete/stream"@ != "/api/telemetry/flush"@,
        "/api/auth/sso/logout"@ != "/api/auth/sso/config"@,
        "/api/auth/sso/logout"@ != "/api/webhooks/verify"@,
        "/api/auth/sso/logout"@ != "/api/telemetry/flush"@,
        "/api/auth/sso/config"@ != "/api/webhooks/verify"@,
        "/api/auth/sso/config"@ != "/api/telemetry/flush"@,
        "/api/webhooks/verify"@ != "/api/telemetry/flush"@,
        "/api/models/pull"@ != "/api/chat/stream"@,
        "/api/models/pull"@ != "/api/marketplace"@,
        "/api/models/pull"@ != "/api/diagnostics"@,
        "/api/models/pull"@ != "/api/cloud/jobs/"@,
        "/api/models/pull"@ != "/api/swarm/runs/"@,
        "/api/models/pull"@ != "/api/auth/oauth/"@,
        "/api/chat/stream"@ != "/api/marketplace"@,
        "/api/chat/stream"@ != "/api/diagnostics"@,
        "/api/chat/stream"@ != "/api/cloud/jobs/"@,
        "/api/chat/stream"@ != "/api/swarm/runs/"@,
        "/api/chat/stream"@ != "/api/auth/oauth/"@,
        "/api/marketplace"@ != "/api/diagnostics"@,
        "/api/marketplace"@ != "/api/cloud/jobs/"@,
        "/api/marketplace"@ != "/api/swarm/runs/"@,
        "/api/marketplace"@ != "/api/auth/oauth/"@,
        "/api/diagnostics"@ != "/api/cloud/jobs/"@,
        "/api/diagnostics"@ != "/api/swarm/runs/"@,
        "/api/diagnostics"@ != "/api/auth/oauth/"@,
        "/api/cloud/jobs/"@ != "/api/swarm/runs/"@,
        "/api/cloud/jobs/"@ != "/api/auth/oauth/"@,
        "/api/swarm/runs/"@ != "/api/auth/oauth/"@,
        "/api/templates"@ != "/api/yaya/chat"@,
        "/api/templates"@ != "/api/dashboard"@,
        "/api/yaya/chat"@ != "/api/dashboard"@,
        "/api/tasks"@ != "/api/audit"@,
        "/api/tasks"@ != "/api/teams"@,
        "/api/tasks"@ != "/api/usage"@,
        "/api/tasks"@ != "/api/index"@,
        "/api/tasks"@ != "/api/graph"@,
        "/api/audit"@ != "/api/teams"@,
        "/api/audit"@ != "/api/usage"@,
        "/api/audit"@ != "/api/index"@,
        "/api/audit"@ != "/api/graph"@,
        "/api/teams"@ != "/api/usage"@,
        "/api/teams"@ != "/api/index"@,
        "/api/teams"@ != "/api/graph"@,
        "/api/usage"@ != "/api/index"@,
        "/api/usage"@ != "/api/graph"@,
        "/api/index"@ != "/api/graph"@,
        "/api/audit/export"@ != "/api/runs/history"@,
        "/api/audit/export"@ != "/api/mission/feed"@,
        "/api/audit/export"@ != "/api/yaya/experts"@,
        "/api/audit/export"@ != "/api/parallel/run"@,
        "/api/runs/history"@ != "/api/mission/feed"@,
        "/api/runs/history"@ != "/api/yaya/experts"@,
        "/api/runs/history"@ != "/api/parallel/run"@,
        "/api/mission/feed"@ != "/api/yaya/experts"@,
        "/api/mission/feed"@ != "/api/parallel/run"@,
        "/api/yaya/experts"@ != "/api/parallel/run"@,
        "/api/metrics"@ != "/api/approve"@,
        "/api/metrics"@ != "/api/workers"@,
        "/api/approve"@ != "/api/workers"@,
        "/api/conversations"@ != "/api/parallel/runs"@,
        "/api/conversations"@ != "/api/run-templates"@,
        "/api/parallel/runs"@ != "/api/run-templates"@,
        "/api/auth/sso/login"@ != "/api/license/status"@,
        "/api/auth/sso/login"@ != "/api/billing/status"@,
        "/api/auth/sso/login"@ != "/api/tasks/schedule"@,
        "/api/license/status"@ != "/api/billing/status"@,
        "/api/license/status"@ != "/api/tasks/schedule"@,
        "/api/billing/status"@ != "/api/tasks/schedule"@,
        "/api/auth/sso/callback"@ != "/api/auth/sso/sessions"@,
        "/api/auth/sso/callback"@ != "/api/pending-approvals"@,
        "/api/auth/sso/callback"@ != "/api/auth/oauth/logout"@,
        "/api/auth/sso/callback"@ != "/api/workers/heartbeat"@,
        "/api/auth/sso/sessions"@ != "/api/pending-approvals"@,
        "/api/auth/sso/sessions"@ != "/api/auth/oauth/logout"@,
        "/api/auth/sso/sessions"@ != "/api/workers/heartbeat"@,
        "/api/pending-approvals"@ != "/api/auth/oauth/logout"@,
        "/api/pending-approvals"@ != "/api/workers/heartbeat"@,
        "/api/auth/oauth/logout"@ != "/api/workers/heartbeat"@,
        "/api/teams/join"@ != "/api/cloud/jobs"@,
        "/api/teams/join"@ != "/api/swarm/runs"@,
        "/api/teams/join"@ != "/api/agents/run"@,
        "/api/teams/join"@ != "/api/file-locks"@,
        "/api/cloud/jobs"@ != "/api/swarm/runs"@,
        "/api/cloud/jobs"@ != "/api/agents/run"@,
        "/api/cloud/jobs"@ != "/api/file-locks"@,
        "/api/swarm/runs"@ != "/api/agents/run"@,
        "/api/swarm/runs"@ != "/api/file-locks"@,
        "/api/agents/run"@ != "/api/file-locks"@,
        "/api/marketplace/install"@ != "/api/auth/oauth/sessions"@,
        "/api/complete"@ != "/api/webhooks"@,
        "/api/complete"@ != "/api/monorepo"@,
        "/api/webhooks"@ != "/api/monorepo"@,
        "/api/license/activate"@ != "/api/telemetry/status"@,
        "/api/license/activate"@ != "/api/workers/register"@,
        "/api/license/activate"@ != "/api/finetune/extract"@,
        "/api/telemetry/status"@ != "/api/workers/register"@,
        "/api/telemetry/status"@ != "/api/finetune/extract"@,
        "/api/workers/register"@ != "/api/finetune/extract"@,
        "DELETE"@ != "/login"@,
        "/api/workers/deregister"@ != "/api/finetune/modelfile"@,
        "GET"@ != "POST"@,
        "GET"@ != "DELETE"@,
        "POST"@ != "DELETE"@,
        !starts("/"@, "/api/teams/"@),
        !starts("/"@, "/api/cloud/jobs/"@),
        !starts("/"@, "/api/swarm/runs/"@),
        !starts("/"@, "/api/auth/oauth/"@),
        !starts("/index.html"@, "/api/teams/"@),
        !starts("/index.html"@, "/api/cloud/jobs/"@),
        !starts("/index.html"@, "/api/swarm/runs/"@),
        !starts("/index.html"@, "/api/auth/oauth/"@),
        !starts("/health"@, "/api/teams/"@),
        !starts("/health"@, "/api/cloud/jobs/"@),
        !starts("/health"@, "/api/swarm/runs/"@),
        !starts("/health"@, "/api/auth/oauth/"@),
        !starts("/api/models"@, "/api/teams/"@),
        !starts("/api/models"@, "/api/cloud/jobs/"@),
        !starts("/api/models"@, "/api/swarm/runs/"@),
        !starts("/api/models"@, "/api/auth/oauth/"@),
        !starts("/api/inference/stats"@, "/api/teams/"@),
        !starts("/api/inference/stats"@, "/api/cloud/jobs/"@),
        !starts("/api/inference/stats"@, "/api/swarm/runs/"@),
        !starts("/api/inference/stats"@, "/api/auth/oauth/"@),
        !starts("/api/templates"@, "/api/teams/"@),
        !starts("/api/templates"@, "/api/cloud/jobs/"@),
        !starts("/api/templates"@, "/api/swarm/runs/"@),
        !starts("/api/templates"@, "/api/auth/oauth/"@),
        !starts("/api/agents"@, "/api/teams/"@),
        !starts("/api/agents"@, "/api/cloud/jobs/"@),
        !starts("/api/agents"@, "/api/swarm/runs/"@),
        !starts("/api/agents"@, "/api/auth/oauth/"@),
        !starts("/api/tasks"@, "/api/teams/"@),
        !starts("/api/tasks"@, "/api/cloud/jobs/"@),
        !starts("/api/tasks"@, "/api/swarm/runs/"@),
        !starts("/api/tasks"@, "/api/auth/oauth/"@),
        !starts("/api/audit"@, "/api/teams/"@),
        !starts("/api/audit"@, "/api/cloud/jobs/"@),
        !starts("/api/audit"@, "/api/swarm/runs/"@),
        !starts("/api/audit"@, "/api/auth/oauth/"@),
        !starts("/api/audit/export"@, "/api/teams/"@),
        !starts("/api/audit/export"@, "/api/cloud/jobs/"@),
        !starts("/api/audit/export"@, "/api/swarm/runs/"@),
        !starts("/api/audit/export"@, "/api/auth/oauth/"@),
        !starts("/api/metrics"@, "/api/teams/"@),
        !starts("/api/metrics"@, "/api/cloud/jobs/"@),
        !starts("/api/metrics"@, "/api/swarm/runs/"@),
        !starts("/api/metrics"@, "/api/auth/oauth/"@),
        !starts("/api/conversations"@, "/api/teams/"@),
        !starts("/api/conversations"@, "/api/cloud/jobs/"@),
        !starts("/api/conversations"@, "/api/swarm/runs/"@),
        !starts("/api/conversations"@, "/api/auth/oauth/"@),
        !starts("/api/auth/sso/login"@, "/api/teams/"@),
        !starts("/api/auth/sso/login"@, "/api/cloud/jobs/"@),
        !starts("/api/auth/sso/login"@, "/api/swarm/runs/"@),
        !starts("/api/auth/sso/login"@, "/api/auth/oauth/"@),
        !starts("/api/auth/sso/sessions"@, "/api/teams/"@),
        !starts("/api/auth/sso/sessions"@, "/api/cloud/jobs/"@),
        !starts("/api/auth/sso/sessions"@, "/api/swarm/runs/"@),
        !starts("/api/auth/sso/sessions"@, "/api/auth/oauth/"@),
        !starts("/api/license/status"@, "/api/teams/"@),
        !starts("/api/license/status"@, "/api/cloud/jobs/"@),
        !starts("/api/license/status"@, "/api/swarm/runs/"@),
        !starts("/api/license/status"@, "/api/auth/oauth/"@),
        !starts("/api/billing/status"@, "/api/teams/"@),
        !starts("/api/billing/status"@, "/api/cloud/jobs/"@),
        !starts("/api/billing/status"@, "/api/swarm/runs/"@),
        !starts("/api/billing/status"@, "/api/auth/oauth/"@),
        !starts("/api/teams"@, "/api/teams/"@),
        !starts("/api/teams"@, "/api/cloud/jobs/"@),
        !starts("/api/teams"@, "/api/swarm/runs/"@),
        !starts("/api/teams"@, "/api/auth/oauth/"@),
        !starts("/api/marketplace"@, "/api/teams/"@),
        !starts("/api/marketplace"@, "/api/cloud/jobs/"@),
        !starts("/api/marketplace"@, "/api/swarm/runs/"@),
        !starts("/api/marketplace"@, "/api/auth/oauth/"@),
        !starts("/api/parallel/runs"@, "/api/teams/"@),
        !starts("/api/parallel/runs"@, "/api/cloud/jobs/"@),
        !starts("/api/parallel/runs"@, "/api/swarm/runs/"@),
        !starts("/api/parallel/runs"@, "/api/auth/oauth/"@),
        !starts("/api/runs/history"@, "/api/teams/"@),
        !starts("/api/runs/history"@, "/api/cloud/jobs/"@),
        !starts("/api/runs/history"@, "/api/swarm/runs/"@),
        !starts("/api/runs/history"@, "/api/auth/oauth/"@),
        !starts("/api/cloud/jobs"@, "/api/teams/"@),
        !starts("/api/cloud/jobs"@, "/api/cloud/jobs/"@),
        !starts("/api/cloud/jobs"@, "/api/swarm/runs/"@),
        !starts("/api/cloud/jobs"@, "/api/auth/oauth/"@),
        !starts("/api/swarm/runs"@, "/api/teams/"@),
        !starts("/api/swarm/runs"@, "/api/cloud/jobs/"@),
        !starts("/api/swarm/runs"@, "/api/swarm/runs/"@),
        !starts("/api/swarm/runs"@, "/api/auth/oauth/"@),
        !starts("/api/pending-approvals"@, "/api/teams/"@),
        !starts("/api/pending-approvals"@, "/api/cloud/jobs/"@),
        !starts("/api/pending-approvals"@, "/api/swarm/runs/"@),
        !starts("/api/pending-approvals"@, "/api/auth/oauth/"@),
        !starts("/api/file-locks"@, "/api/teams/"@),
        !starts("/api/file-locks"@, "/api/cloud/jobs/"@),
        !starts("/api/file-locks"@, "/api/swarm/runs/"@),
        !starts("/api/file-locks"@, "/api/auth/oauth/"@),
        !starts("/api/mission/feed"@, "/api/teams/"@),
        !starts("/api/mission/feed"@, "/api/cloud/jobs/"@),
        !starts("/api/mission/feed"@, "/api/swarm/runs/"@),
        !starts("/api/mission/feed"@, "/api/auth/oauth/"@),
        !starts("/api/search"@, "/api/teams/"@),
        !starts("/api/search"@, "/api/cloud/jobs/"@),
        !starts("/api/search"@, "/api/swarm/runs/"@),
        !starts("/api/search"@, "/api/auth/oauth/"@),
        !starts("/api/yaya/experts"@, "/api/teams/"@),
        !starts("/api/yaya/experts"@, "/api/cloud/jobs/"@),
        !starts("/api/yaya/experts"@, "/api/swarm/runs/"@),
        !starts("/api/yaya/experts"@, "/api/auth/oauth/"@),
        !starts("/api/yaya/retrieval-preferences"@, "/api/teams/"@),
        !starts("/api/yaya/retrieval-preferences"@, "/api/cloud/jobs/"@),
        !starts("/api/yaya/retrieval-preferences"@, "/api/swarm/runs/"@),
        !starts("/api/yaya/retrieval-preferences"@, "/api/auth/oauth/"@),
        !starts("/api/policy"@, "/api/teams/"@),
        !starts("/api/policy"@, "/api/cloud/jobs/"@),
        !starts("/api/policy"@, "/api/swarm/runs/"@),
        !starts("/api/policy"@, "/api/auth/oauth/"@),
        !starts("/api/webhooks"@, "/api/teams/"@),
        !starts("/api/webhooks"@, "/api/cloud/jobs/"@),
        !starts("/api/webhooks"@, "/api/swarm/runs/"@),
        !starts("/api/webhooks"@, "/api/auth/oauth/"@),
        !starts("/api/usage"@, "/api/teams/"@),
        !starts("/api/usage"@, "/api/cloud/jobs/"@),
        !starts("/api/usage"@, "/api/swarm/runs/"@),
        !starts("/api/usage"@, "/api/auth/oauth/"@),
        !starts("/api/auth/oauth/sessions"@, "/api/teams/"@),
        !starts("/api/auth/oauth/sessions"@, "/api/cloud/jobs/"@),
        !starts("/api/auth/oauth/sessions"@, "/api/swarm/runs/"@),
        !starts("/api/telemetry/status"@, "/api/teams/"@),
        !starts("/api/telemetry/status"@, "/api/cloud/jobs/"@),
        !starts("/api/telemetry/status"@, "/api/swarm/runs/"@),
        !starts("/api/telemetry/status"@, "/api/auth/oauth/"@),
        !starts("/api/workers"@, "/api/teams/"@),
        !starts("/api/workers"@, "/api/cloud/jobs/"@),
        !starts("/api/workers"@, "/api/swarm/runs/"@),
        !starts("/api/workers"@, "/api/auth/oauth/"@),
        !starts("/api/diagnostics"@, "/api/teams/"@),
        !starts("/api/diagnostics"@, "/api/cloud/jobs/"@),
        !starts("/api/diagnostics"@, "/api/swarm/runs/"@),
        !starts("/api/diagnostics"@, "/api/auth/oauth/"@),
        !starts("/api/index"@, "/api/teams/"@),
        !starts("/api/index"@, "/api/cloud/jobs/"@),
        !starts("/api/index"@, "/api/swarm/runs/"@),
        !starts("/api/index"@, "/api/auth/oauth/"@),
        !starts("/api/graph"@, "/api/teams/"@),
        !starts("/api/graph"@, "/api/cloud/jobs/"@),
        !starts("/api/graph"@, "/api/swarm/runs/"@),
        !starts("/api/graph"@, "/api/auth/oauth/"@),
        !starts("/api/monorepo"@, "/api/teams/"@),
        !starts("/api/monorepo"@, "/api/cloud/jobs/"@),
        !starts("/api/monorepo"@, "/api/swarm/runs/"@),
        !starts("/api/monorepo"@, "/api/auth/oauth/"@),
        !starts("/api/dashboard"@, "/api/teams/"@),
        !starts("/api/dashboard"@, "/api/cloud/jobs/"@),
        !starts("/api/dashboard"@, "/api/swarm/runs/"@),
        !starts("/api/dashboard"@, "/api/auth/oauth/"@),
        !starts("/api/events"@, "/api/teams/"@),
        !starts("/api/events"@, "/api/cloud/jobs/"@),
        !starts("/api/events"@, "/api/swarm/runs/"@),
        !starts("/api/events"@, "/api/auth/oauth/"@),
        !starts("/api/run-templates"@, "/api/teams/"@),
        !starts("/api/run-templates"@, "/api/cloud/jobs/"@),
        !starts("/api/run-templates"@, "/api/swarm/runs/"@),
        !starts("/api/run-templates"@, "/api/auth/oauth/"@),
        !ends("/api/auth/oauth/sessions"@, "/login"@),
        !holds("/api/auth/oauth/sessions"@, "/callback"@),
{
    reveal_strlit("/");
    reveal_strlit("/api/agents");
    reveal_strlit("/api/agents/run");
    reveal_strlit("/api/approve");
    reveal_strlit("/api/audit");
    reveal_strlit("/api/audit/export");
    reveal_strlit("/api/auth/oauth/");
    reveal_strlit("/api/auth/oauth/logout");
    reveal_strlit("/api/auth/oauth/sessions");
    reveal_strlit("/api/auth/sso/callback");
    reveal_strlit("/api/auth/sso/config");
    reveal_strlit("/api/auth/sso/login");
    reveal_strlit("/api/auth/sso/logout");
    reveal_strlit("/api/auth/sso/sessions");
    reveal_strlit("/api/billing/status");
    reveal_strlit("/api/chat/stream");
    reveal_strlit("/api/cloud/jobs");
    reveal_strlit("/api/cloud/jobs/");
    reveal_strlit("/api/complete");
    reveal_strlit("/api/complete/stream");
    reveal_strlit("/api/conversations");
    reveal_strlit("/api/conversations/message");
    reveal_strlit("/api/dashboard");
    reveal_strlit("/api/diagnostics");
    reveal_strlit("/api/events");
    reveal_strlit("/api/file-locks");
    reveal_strlit("/api/finetune/extract");
    reveal_strlit("/api/finetune/modelfile");
    reveal_strlit("/api/graph");
    reveal_strlit("/api/index");
    reveal_strlit("/api/inference/stats");
    reveal_strlit("/api/license/activate");
    reveal_strlit("/api/license/status");
    reveal_strlit("/api/marketplace");
    reveal_strlit("/api/marketplace/install");
    reveal_strlit("/api/metrics");
    reveal_strlit("/api/mission/feed");
    reveal_strlit("/api/models");
    reveal_strlit("/api/models/pull");
    reveal_strlit("/api/monorepo");
    reveal_strlit("/api/parallel/run");
    reveal_strlit("/api/parallel/runs");
    reveal_strlit("/api/pending-approvals");
    reveal_strlit("/api/policy");
    reveal_strlit("/api/prompt");
    reveal_strlit("/api/run-templates");
    reveal_strlit("/api/runs/history");
    reveal_strlit("/api/search");
    reveal_strlit("/api/swarm/runs");
    reveal_strlit("/api/swarm/runs/");
    reveal_strlit("/api/tasks");
    reveal_strlit("/api/tasks/schedule");
    reveal_strlit("/api/teams");
    reveal_strlit("/api/teams/");
    reveal_strlit("/api/teams/join");
    reveal_strlit("/api/telemetry/flush");
    reveal_strlit("/api/telemetry/status");
    reveal_strlit("/api/templates");
    reveal_strlit("/api/usage");
    reveal_strlit("/api/webhooks");
    reveal_strlit("/api/webhooks/verify");
    reveal_strlit("/api/workers");
    reveal_strlit("/api/workers/deregister");
    reveal_strlit("/api/workers/heartbeat");
    reveal_strlit("/api/workers/register");
    reveal_strlit("/api/yaya/chat");
    reveal_strlit("/api/yaya/experts");
    reveal_strlit("/api/yaya/retrieval-preferences");
    reveal_strlit("/api/yaya/training/examples");
    reveal_strlit("/callback");
    reveal_strlit("/health");
    reveal_strlit("/index.html");
    reveal_strlit("/login");
    reveal_strlit("DELETE");
    reveal_strlit("GET");
    reveal_strlit("POST");
    assert("/index.html"@[1] != "/api/models"@[1]);
    assert("/index.html"@[1] != "/api/agents"@[1]);
    assert("/index.html"@[1] != "/api/search"@[1]);
    assert("/index.html"@[1] != "/api/policy"@[1]);
    assert("/index.html"@[1] != "/api/prompt"@[1]);
    assert("/index.html"@[1] != "/api/events"@[1]);
    assert("/index.html"@[1] != "/api/teams/"@[1]);
    assert("/api/models"@[5] != "/api/agents"@[5]);
    assert("/api/models"@[5] != "/api/search"@[5]);
    assert("/api/models"@[5] != "/api/policy"@[5]);
    assert("/api/models"@[5] != "/api/prompt"@[5]);
    assert("/api/models"@[5] != "/api/events"@[5]);
    assert("/api/models"@[5] != "/api/teams/"@[5]);
    assert("/api/agents"@[5] != "/api/search"@[5]);
    assert("/api/agents"@[5] != "/api/policy"@[5]);
    assert("/api/agents"@[5] != "/api/prompt"@[5]);
    assert("/api/agents"@[5] != "/api/events"@[5]);
    assert("/api/agents"@[5] != "/api/teams/"@[5]);
    assert("/api/search"@[5] != "/api/policy"@[5]);
    assert("/api/search"@[5] != "/api/prompt"@[5]);
    assert("/api/search"@[5] != "/api/events"@[5]);
    assert("/api/search"@[5] != "/api/teams/"@[5]);
    assert("/api/policy"@[6] != "/api/prompt"@[6]);
    assert("/api/policy"@[5] != "/api/events"@[5]);
    assert("/api/policy"@[5] != "/api/teams/"@[5]);
    assert("/api/prompt"@[5] != "/api/events"@[5]);
    assert("/api/prompt"@[5] != "/api/teams/"@[5]);
    assert("/api/events"@[5] != "/api/teams/"@[5]);
    assert("/api/inference/stats"@[5] != "/api/complete/stream"@[5]);
    assert("/api/inference/stats"@[5] != "/api/auth/sso/logout"@[5]);
    assert("/api/inference/stats"@[5] != "/api/auth/sso/config"@[5]);
    assert("/api/inference/stats"@[5] != "/api/webhooks/verify"@[5]);
    assert("/api/inference/stats"@[5] != "/api/telemetry/flush"@[5]);
    assert("/api/complete/stream"@[5] != "/api/auth/sso/logout"@[5]);
    assert("/api/complete/stream"@[5] != "/api/auth/sso/config"@[5]);
    assert("/api/complete/stream"@[5] != "/api/webhooks/verify"@[5]);
    assert("/api/complete/stream"@[5] != "/api/telemetry/flush"@[5]);
    assert("/api/auth/sso/logout"@[14] != "/api/auth/sso/config"@[14]);
    assert("/api/auth/sso/logout"@[5] != "/api/webhooks/verify"@[5]);
    assert("/api/auth/sso/logout"@[5] != "/api/telemetry/flush"@[5]);
    assert("/api/auth/sso/config"@[5] != "/api/webhooks/verify"@[5]);
    assert("/api/auth/sso/config"@[5] != "/api/telemetry/flush"@[5]);
    assert("/api/webhooks/verify"@[5] != "/api/telemetry/flush"@[5]);
    assert("/api/models/pull"@[5] != "/api/chat/stream"@[5]);
    assert("/api/models/pull"@[6] != "/api/marketplace"@[6]);
    assert("/api/models/pull"@[5] != "/api/diagnostics"@[5]);
    assert("/api/models/pull"@[5] != "/api/cloud/jobs/"@[5]);
    assert("/api/models/pull"@[5] != "/api/swarm/runs/"@[5]);
    assert("/api/models/pull"@[5] != "/api/auth/oauth/"@[5]);
    assert("/api/chat/stream"@[5] != "/api/marketplace"@[5]);
    assert("/api/chat/stream"@[5] != "/api/diagnostics"@[5]);
    assert("/api/chat/stream"@[6] != "/api/cloud/jobs/"@[6]);
    assert("/api/chat/stream"@[5] != "/api/swarm/runs/"@[5]);
    assert("/api/chat/stream"@[5] != "/api/auth/oauth/"@[5]);
    assert("/api/marketplace"@[5] != "/api/diagnostics"@[5]);
    assert("/api/marketplace"@[5] != "/api/cloud/jobs/"@[5]);
    assert("/api/marketplace"@[5] != "/api/swarm/runs/"@[5]);
    assert("/api/marketplace"@[5] != "/api/auth/oauth/"@[5]);
    assert("/api/diagnostics"@[5] != "/api/cloud/jobs/"@[5]);
    assert("/api/diagnostics"@[5] != "/api/swarm/runs/"@[5]);
    assert("/api/diagnostics"@[5] != "/api/auth/oauth/"@[5]);
    assert("/api/cloud/jobs/"@[5] != "/api/swarm/runs/"@[5]);
    assert("/api/cloud/jobs/"@[5] != "/api/auth/oauth/"@[5]);
    assert("/api/swarm/runs/"@[5] != "/api/auth/oauth/"@[5]);
    assert("/api/templates"@[5] != "/api/yaya/chat"@[5]);
    assert("/api/templates"@[5] != "/api/dashboard"@[5]);
    assert("/api/yaya/chat"@[5] != "/api/dashboard"@[5]);
    assert("/api/tasks"@[5] != "/api/audit"@[5]);
    assert("/api/tasks"@[6] != "/api/teams"@[6]);
    assert("/api/tasks"@[5] != "/api/usage"@[5]);
    assert("/api/tasks"@[5] != "/api/index"@[5]);
    assert("/api/tasks"@[5] != "/api/graph"@[5]);
    assert("/api/audit"@[5] != "/api/teams"@[5]);
    assert("/api/audit"@[5] != "/api/usage"@[5]);
    assert("/api/audit"@[5] != "/api/index"@[5]);
    assert("/api/audit"@[5] != "/api/graph"@[5]);
    assert("/api/teams"@[5] != "/api/usage"@[5]);
    assert("/api/teams"@[5] != "/api/index"@[5]);
    assert("/api/teams"@[5] != "/api/graph"@[5]);
    assert("/api/usage"@[5] != "/api/index"@[5]);
    assert("/api/usage"@[5] != "/api/graph"@[5]);
    assert("/api/index"@[5] != "/api/graph"@[5]);
    assert("/api/audit/export"@[5] != "/api/runs/history"@[5]);
    assert("/api/audit/export"@[5] != "/api/mission/feed"@[5]);
    assert("/api/audit/export"@[5] != "/api/yaya/experts"@[5]);
    assert("/api/audit/export"@[5] != "/api/parallel/run"@[5]);
    assert("/api/runs/history"@[5] != "/api/mission/feed"@[5]);
    assert("/api/runs/history"@[5] != "/api/yaya/experts"@[5]);
    assert("/api/runs/history"@[5] != "/api/parallel/run"@[5]);
    assert("/api/mission/feed"@[5] != "/api/yaya/experts"@[5]);
    assert("/api/mission/feed"@[5] != "/api/parallel/run"@[5]);
    assert("/api/yaya/experts"@[5] != "/api/parallel/run"@[5]);
    assert("/api/metrics"@[5] != "/api/approve"@[5]);
    assert("/api/metrics"@[5] != "/api/workers"@[5]);
    assert("/api/approve"@[5] != "/api/workers"@[5]);
    assert("/api/conversations"@[5] != "/api/parallel/runs"@[5]);
    assert("/api/conversations"@[5] != "/api/run-templates"@[5]);
    assert("/api/parallel/runs"@[5] != "/api/run-templates"@[5]);
    assert("/api/auth/sso/login"@[5] != "/api/license/status"@[5]);
    assert("/api/auth/sso/login"@[5] != "/api/billing/status"@[5]);
    assert("/api/auth/sso/login"@[5] != "/api/tasks/schedule"@[5]);
    assert("/api/license/status"@[5] != "/api/billing/status"@[5]);
    assert("/api/license/status"@[5] != "/api/tasks/schedule"@[5]);
    assert("/api/billing/status"@[5] != "/api/tasks/schedule"@[5]);
    assert("/api/auth/sso/callback"@[14] != "/api/auth/sso/sessions"@[14]);
    assert("/api/auth/sso/callback"@[5] != "/api/pending-approvals"@[5]);
    assert("/api/auth/sso/callback"@[10] != "/api/auth/oauth/logout"@[10]);
    assert("/api/auth/sso/callback"@[5] != "/api/workers/heartbeat"@[5]);
    assert("/api/auth/sso/sessions"@[5] != "/api/pending-approvals"@[5]);
    assert("/api/auth/sso/sessions"@[10] != "/api/auth/oauth/logout"@[10]);
    assert("/api/auth/sso/sessions"@[5] != "/api/workers/heartbeat"@[5]);
    assert("/api/pending-approvals"@[5] != "/api/auth/oauth/logout"@[5]);
    assert("/api/pending-approvals"@[5] != "/api/workers/heartbeat"@[5]);
    assert("/api/auth/oauth/logout"@[5] != "/api/workers/heartbeat"@[5]);
    assert("/api/teams/join"@[5] != "/api/cloud/jobs"@[5]);
    assert("/api/teams/join"@[5] != "/api/swarm/runs"@[5]);
    assert("/api/teams/join"@[5] != "/api/agents/run"@[5]);
    assert("/api/teams/join"@[5] != "/api/file-locks"@[5]);
    assert("/api/cloud/jobs"@[5] != "/api/swarm/runs"@[5]);
    assert("/api/cloud/jobs"@[5] != "/api/agents/run"@[5]);
    assert("/api/cloud/jobs"@[5] != "/api/file-locks"@[5]);
    assert("/api/swarm/runs"@[5] != "/api/agents/run"@[5]);
    assert("/api/swarm/runs"@[5] != "/api/file-locks"@[5]);
    assert("/api/agents/run"@[5] != "/api/file-locks"@[5]);
    assert("/api/marketplace/install"@[5] != "/api/auth/oauth/sessions"@[5]);
    assert("/api/complete"@[5] != "/api/webhooks"@[5]);
    assert("/api/complete"@[5] != "/api/monorepo"@[5]);
    assert("/api/webhooks"@[5] != "/api/monorepo"@[5]);
    assert("/api/license/activate"@[5] != "/api/telemetry/status"@[5]);
    assert("/api/license/activate"@[5] != "/api/workers/register"@[5]);
    assert("/api/license/activate"@[5] != "/api/finetune/extract"@[5]);
    assert("/api/telemetry/status"@[5] != "/api/workers/register"@[5]);
    assert("/api/telemetry/status"@[5] != "/api/finetune/extract"@[5]);
    assert("/api/workers/register"@[5] != "/api/finetune/extract"@[5]);
    assert("DELETE"@[0] != "/login"@[0]);
    assert("/api/workers/deregister"@[5] != "/api/finetune/modelfile"@[5]);
    assert("/index.html"@.take(11)[1] != "/api/teams/"@[1]);
    assert("/api/models"@.take(11)[5] != "/api/teams/"@[5]);
    assert("/api/inference/stats"@.take(11)[5] != "/api/teams/"@[5]);
    assert("/api/inference/stats"@.take(16)[5] != "/api/cloud/jobs/"@[5]);
    assert("/api/inference/stats"@.take(16)[5] != "/api/swarm/runs/"@[5]);
    assert("/api/inference/stats"@.take(16)[5] != "/api/auth/oauth/"@[5]);
    assert("/api/templates"@.take(11)[7] != "/api/teams/"@[7]);
    assert("/api/agents"@.take(11)[5] != "/api/teams/"@[5]);
    assert("/api/audit/export"@.take(11)[5] != "/api/teams/"@[5]);
    assert("/api/audit/export"@.take(16)[5] != "/api/cloud/jobs/"@[5]);
    assert("/api/audit/export"@.take(16)[5] != "/api/swarm/runs/"@[5]);
    assert("/api/audit/export"@.take(16)[7] != "/api/auth/oauth/"@[7]);
    assert("/api/metrics"@.take(11)[5] != "/api/teams/"@[5]);
    assert("/api/conversations"@.take(11)[5] != "/api/teams/"@[5]);
    assert("/api/conversations"@.take(16)[6] != "/api/cloud/jobs/"@[6]);
    assert("/api/conversations"@.take(16)[5] != "/api/swarm/runs/"@[5]);
    assert("/api/conversations"@.take(16)[5] != "/api/auth/oauth/"@[5]);
    assert("/api/auth/sso/login"@.take(11)[5] != "/api/teams/"@[5]);
    assert("/api/auth/sso/login"@.take(16)[5] != "/api/cloud/jobs/"@[5]);
    assert("/api/auth/sso/login"@.take(16)[5] != "/api/swarm/runs/"@[5]);
    assert("/api/auth/sso/login"@.take(16)[10] != "/api/auth/oauth/"@[10]);
    assert("/api/auth/sso/sessions"@.take(11)[5] != "/api/teams/"@[5]);
    assert("/api/auth/sso/sessions"@.take(16)[5] != "/api/cloud/jobs/"@[5]);
    assert("/api/auth/sso/sessions"@.take(16)[5] != "/api/swarm/runs/"@[5]);
    assert("/api/auth/sso/sessions"@.take(16)[10] != "/api/auth/oauth/"@[10]);
    assert("/api/license/status"@.take(11)[5] != "/api/teams/"@[5]);
    assert("/api/license/status"@.take(16)[5] != "/api/cloud/jobs/"@[5]);
    assert("/api/license/status"@.take(16)[5] != "/api/swarm/runs/"@[5]);
    assert("/api/license/status"@.take(16)[5] != "/api/auth/oauth/"@[5]);
    assert("/api/billing/status"@.take(11)[5] != "/api/teams/"@[5]);
    assert("/api/billing/status"@.take(16)[5] != "/api/cloud/jobs/"@[5]);
    assert("/api/billing/status"@.take(16)[5] != "/api/swarm/runs/"@[5]);
    assert("/api/billing/status"@.take(16)[5] != "/api/auth/oauth/"@[5]);
    assert("/api/marketplace"@.take(11)[5] != "/api/teams/"@[5]);
    assert("/api/marketplace"@.take(16)[5] != "/api/cloud/jobs/"@[5]);
    assert("/api/marketplace"@.take(16)[5] != "/api/swarm/runs/"@[5]);
    assert("/api/marketplace"@.take(16)[5] != "/api/auth/oauth/"@[5]);
    assert("/api/parallel/runs"@.take(11)[5] != "/api/teams/"@[5]);
    assert("/api/parallel/runs"@.take(16)[5] != "/api/cloud/jobs/"@[5]);
    assert("/api/parallel/runs"@.take(16)[5] != "/api/swarm/runs/"@[5]);
    assert("/api/parallel/runs"@.take(16)[5] != "/api/auth/oauth/"@[5]);
    assert("/api/runs/history"@.take(11)[5] != "/api/teams/"@[5]);
    assert("/api/runs/history"@.take(16)[5] != "/api/cloud/jobs/"@[5]);
    assert("/api/runs/history"@.take(16)[5] != "/api/swarm/runs/"@[5]);
    assert("/api/runs/history"@.take(16)[5] != "/api/auth/oauth/"@[5]);
    assert("/api/cloud/jobs"@.take(11)[5] != "/api/teams/"@[5]);
    assert("/api/swarm/runs"@.take(11)[5] != "/api/teams/"@[5]);
    assert("/api/pending-approvals"@.take(11)[5] != "/api/teams/"@[5]);
    assert("/api/pending-approvals"@.take(16)[5] != "/api/cloud/jobs/"@[5]);
    assert("/api/pending-approvals"@.take(16)[5] != "/api/swarm/runs/"@[5]);
    assert("/api/pending-approvals"@.take(16)[5] != "/api/auth/oauth/"@[5]);
    assert("/api/file-locks"@.take(11)[5] != "/api/teams/"@[5]);
    assert("/api/mission/feed"@.take(11)[5] != "/api/teams/"@[5]);
    assert("/api/mission/feed"@.take(16)[5] != "/api/cloud/jobs/"@[5]);
    assert("/api/mission/feed"@.take(16)[5] != "/api/swarm/runs/"@[5]);
    assert("/api/mission/feed"@.take(16)[5] != "/api/auth/oauth/"@[5]);
    assert("/api/search"@.take(11)[5] != "/api/teams/"@[5]);
    assert("/api/yaya/experts"@.take(11)[5] != "/api/teams/"@[5]);
    assert("/api/yaya/experts"@.take(16)[5] != "/api/cloud/jobs/"@[5]);
    assert("/api/yaya/experts"@.take(16)[5] != "/api/swarm/runs/"@[5]);
    assert("/api/yaya/experts"@.take(16)[5] != "/api/auth/oauth/"@[5]);
    assert("/api/yaya/retrieval-preferences"@.take(11)[5] != "/api/teams/"@[5]);
    assert("/api/yaya/retrieval-preferences"@.take(16)[5] != "/api/cloud/jobs/"@[5]);
    assert("/api/yaya/retrieval-preferences"@.take(16)[5] != "/api/swarm/runs/"@[5]);
    assert("/api/yaya/retrieval-preferences"@.take(16)[5] != "/api/auth/oauth/"@[5]);
    assert("/api/policy"@.take(11)[5] != "/api/teams/"@[5]);
    assert("/api/webhooks"@.take(11)[5] != "/api/teams/"@[5]);
    assert("/api/auth/oauth/sessions"@.take(11)[5] != "/api/teams/"@[5]);
    assert("/api/auth/oauth/sessions"@.take(16)[5] != "/api/cloud/jobs/"@[5]);
    assert("/api/auth/oauth/sessions"@.take(16)[5] != "/api/swarm/runs/"@[5]);
    assert("/api/telemetry/status"@.take(11)[7] != "/api/teams/"@[7]);
    assert("/api/telemetry/status"@.take(16)[5] != "/api/cloud/jobs/"@[5]);
    assert("/api/telemetry/status"@.take(16)[5] != "/api/swarm/runs/"@[5]);
    assert("/api/telemetry/status"@.take(16)[5] != "/api/auth/oauth/"@[5]);
    assert("/api/workers"@.take(11)[5] != "/api/teams/"@[5]);
    assert("/api/diagnostics"@.take(11)[5] != "/api/teams/"@[5]);
    assert("/api/diagnostics"@.take(16)[5] != "/api/cloud/jobs/"@[5]);
    assert("/api/diagnostics"@.take(16)[5] != "/api/swarm/runs/"@[5]);
    assert("/api/diagnostics"@.take(16)[5] != "/api/auth/oauth/"@[5]);
    assert("/api/monorepo"@.take(11)[5] != "/api/teams/"@[5]);
    assert("/api/dashboard"@.take(11)[5] != "/api/teams/"@[5]);
    assert("/api/events"@.take(11)[5] != "/api/teams/"@[5]);
    assert("/api/run-templates"@.take(11)[5] != "/api/teams/"@[5]);
    assert("/api/run-templates"@.take(16)[5] != "/api/cloud/jobs/"@[5]);
    assert("/api/run-templates"@.take(16)[5] != "/api/swarm/runs/"@[5]);
    assert("/api/run-templates"@.take(16)[5] != "/api/auth/oauth/"@[5]);
    assert("/api/auth/oauth/sessions"@.skip(18)[0] != "/login"@[0]);
    assert("GET"@[0] != "POST"@[0]);
    assert("GET"@[0] != "DELETE"@[0]);
    assert("POST"@[0] != "DELETE"@[0]);
    assert forall|k: int| !(0 <= k && k + "/callback"@.len() <= "/api/auth/oauth/sessions"@.len() && #[trigger] "/api/auth/oauth/sessions"@.subrange(k, k + "/callback"@.len()) == "/callback"@) by {
        if 0 <= k && k + "/callback"@.len() <= "/api/auth/oauth/sessions"@.len() {
            if k == 0 { assert("/api/auth/oauth/sessions"@.subrange(0, 9)[1] != "/callback"@[1]); }
            if k == 1 { assert("/api/auth/oauth/sessions"@.subrange(1, 10)[0] != "/callback"@[0]); }
            if k == 2 { assert("/api/auth/oauth/sessions"@.subrange(2, 11)[0] != "/callback"@[0]); }
            if k == 3 { assert("/api/auth/oauth/sessions"@.subrange(3, 12)[0] != "/callback"@[0]); }
            if k == 4 { assert("/api/auth/oauth/sessions"@.subrange(4, 13)[1] != "/callback"@[1]); }
            if k == 5 { assert("/api/auth/oauth/sessions"@.subrange(5, 14)[0] != "/callback"@[0]); }
            if k == 6 { assert("/api/auth/oauth/sessions"@.subrange(6, 15)[0] != "/callback"@[0]); }
            if k == 7 { assert("/api/auth/oauth/sessions"@.subrange(7, 16)[0] != "/callback"@[0]); }
            if k == 8 { assert("/api/auth/oauth/sessions"@.subrange(8, 17)[0] != "/callback"@[0]); }
            if k == 9 { assert("/api/auth/oauth/sessions"@.subrange(9, 18)[1] != "/callback"@[1]); }
            if k == 10 { assert("/api/auth/oauth/sessions"@.subrange(10, 19)[0] != "/callback"@[0]); }
            if k == 11 { assert("/api/auth/oauth/sessions"@.subrange(11, 20)[0] != "/callback"@[0]); }
            if k == 12 { assert("/api/auth/oauth/sessions"@.subrange(12, 21)[0] != "/callback"@[0]); }
            if k == 13 { assert("/api/auth/oauth/sessions"@.subrange(13, 22)[0] != "/callback"@[0]); }
            if k == 14 { assert("/api/auth/oauth/sessions"@.subrange(14, 23)[0] != "/callback"@[0]); }
            if k == 15 { assert("/api/auth/oauth/sessions"@.subrange(15, 24)[1] != "/callback"@[1]); }
        }
    }
}

} // verus!

verus! {

/// The daemon's routing table, part 1 of 10: each of these
/// methods and paths goes to the handler named beside it.
#[verifier::spinoff_prover]
#[verifier::rlimit(60)]
pub proof fn law_route_table_1()
    ensures
        route_of("GET"@, "/"@) == RouteView::Index,
        route_of("GET"@, "/index.html"@) == RouteView::Index,
        route_of("GET"@, "/health"@) == RouteView::Health,
        route_of("GET"@, "/api/models"@) == RouteView::ListModels,
        route_of("GET"@, "/api/inference/stats"@) == RouteView::InferenceStats,
        route_of("POST"@, "/api/models/pull"@) == RouteView::PullModel,
        route_of("POST"@, "/api/complete/stream"@) == RouteView::CompleteStream,
        route_of("POST"@, "/api/chat/stream"@) == RouteView::ChatStream,
{
    lemma_route_literals_differ();
    reveal_strlit("GET");
    reveal_strlit("/");
    reveal_strlit("/index.html");
    reveal_strlit("/health");
    reveal_strlit("/api/models");
    reveal_strlit("/api/inference/stats");
    reveal_strlit("POST");
    reveal_strlit("/api/models/pull");
    reveal_strlit("/api/complete/stream");
    reveal_strlit("/api/chat/stream");
    reveal_strlit("/api/templates");
    reveal_strlit("/api/agents");
    reveal_strlit("/api/tasks");
    reveal_strlit("/api/audit");
    reveal_strlit("/api/audit/export");
    reveal_strlit("/api/metrics");
    reveal_strlit("/api/conversations");
    reveal_strlit("/api/conversations/message");
    reveal_strlit("/api/auth/sso/login");
    reveal_strlit("/api/auth/sso/callback");
    reveal_strlit("/api/auth/sso/logout");
    reveal_strlit("/api/auth/sso/sessions");
    reveal_strlit("/api/license/status");
    reveal_strlit("/api/billing/status");
    reveal_strlit("/api/teams");
    reveal_strlit("/api/teams/join");
    reveal_strlit("/api/marketplace");
    reveal_strlit("/api/marketplace/install");
    reveal_strlit("/api/parallel/runs");
    reveal_strlit("/api/runs/history");
    reveal_strlit("/api/cloud/jobs");
    reveal_strlit("/api/swarm/runs");
    reveal_strlit("/api/agents/run");
    reveal_strlit("/api/pending-approvals");
    reveal_strlit("/api/approve");
    reveal_strlit("/api/file-locks");
    reveal_strlit("/api/mission/feed");
    reveal_strlit("/api/auth/sso/config");
    reveal_strlit("/api/search");
    reveal_strlit("/api/yaya/experts");
    reveal_strlit("/api/yaya/retrieval-preferences");
    reveal_strlit("/api/yaya/chat");
    reveal_strlit("/api/yaya/training/examples");
    reveal_strlit("/api/policy");
    reveal_strlit("/api/complete");
    reveal_strlit("/api/parallel/run");
    reveal_strlit("/api/webhooks");
    reveal_strlit("/api/webhooks/verify");
    reveal_strlit("/api/tasks/schedule");
    reveal_strlit("/api/license/activate");
    reveal_strlit("/api/prompt");
    reveal_strlit("/api/usage");
    reveal_strlit("/api/auth/oauth/logout");
    reveal_strlit("/api/auth/oauth/sessions");
    reveal_strlit("/api/telemetry/flush");
    reveal_strlit("/api/telemetry/status");
    reveal_strlit("/api/workers");
    reveal_strlit("/api/workers/register");
    reveal_strlit("/api/workers/heartbeat");
    reveal_strlit("DELETE");
    reveal_strlit("/api/workers/deregister");
    reveal_strlit("/api/finetune/extract");
    reveal_strlit("/api/finetune/modelfile");
    reveal_strlit("/api/diagnostics");
    reveal_strlit("/api/index");
    reveal_strlit("/api/graph");
    reveal_strlit("/api/monorepo");
    reveal_strlit("/api/dashboard");
    reveal_strlit("/api/events");
    reveal_strlit("/api/run-templates");
    reveal_strlit("/api/teams/");
    reveal_strlit("/api/cloud/jobs/");
    reveal_strlit("/api/swarm/runs/");
    reveal_strlit("/api/auth/oauth/");
    reveal_strlit("/login");
    reveal_strlit("/callback");
}

/// The daemon's routing table, part 2 of 10: each of these
/// methods and paths goes to the handler named beside it.
#[verifier::spinoff_prover]
#[verifier::rlimit(60)]
pub proof fn law_route_table_2()
    ensures
        route_of("GET"@, "/api/templates"@) == RouteView::ListTemplates,
        route_of("GET"@, "/api/agents"@) == RouteView::ListAgents,
        route_of("GET"@, "/api/tasks"@) == RouteView::ListTasks,
        route_of("GET"@, "/api/audit"@) == RouteView::AuditLog,
        route_of("GET"@, "/api/audit/export"@) == RouteView::AuditExport,
        route_of("GET"@, "/api/metrics"@) == RouteView::Metrics,
        route_of("GET"@, "/api/conversations"@) == RouteView::ListConversations,
        route_of("POST"@, "/api/conversations"@) == RouteView::CreateConversation,
{
    lemma_route_literals_differ();
    reveal_strlit("GET");
    reveal_strlit("/");
    reveal_strlit("/index.html");
    reveal_strlit("/health");
    reveal_strlit("/api/models");
    reveal_strlit("/api/inference/stats");
    reveal_strlit("POST");
    reveal_strlit("/api/models/pull");
    reveal_strlit("/api/complete/stream");
    reveal_strlit("/api/chat/stream");
    reveal_strlit("/api/templates");
    reveal_strlit("/api/agents");
    reveal_strlit("/api/tasks");
    reveal_strlit("/api/audit");
    reveal_strlit("/api/audit/export");
    reveal_strlit("/api/metrics");
    reveal_strlit("/api/conversations");
    reveal_strlit("/api/conversations/message");
    reveal_strlit("/api/auth/sso/login");
    reveal_strlit("/api/auth/sso/callback");
    reveal_strlit("/api/auth/sso/logout");
    reveal_strlit("/api/auth/sso/sessions");
    reveal_strlit("/api/license/status");
    reveal_strlit("/api/billing/status");
    reveal_strlit("/api/teams");
    reveal_strlit("/api/teams/join");
    reveal_strlit("/api/marketplace");
    reveal_strlit("/api/marketplace/install");
    reveal_strlit("/api/parallel/runs");
    reveal_strlit("/api/runs/history");
    reveal_strlit("/api/cloud/jobs");
    reveal_strlit("/api/swarm/runs");
    reveal_strlit("/api/agents/run");
    reveal_strlit("/api/pending-approvals");
    reveal_strlit("/api/approve");
    reveal_strlit("/api/file-locks");
    reveal_strlit("/api/mission/feed");
    reveal_strlit("/api/auth/sso/config");
    reveal_strlit("/api/search");
    reveal_strlit("/api/yaya/experts");
    reveal_strlit("/api/yaya/retrieval-preferences");
    reveal_strlit("/api/yaya/chat");
    reveal_strlit("/api/yaya/training/examples");
    reveal_strlit("/api/policy");
    reveal_strlit("/api/complete");
    reveal_strlit("/api/parallel/run");
    reveal_strlit("/api/webhooks");
    reveal_strlit("/api/webhooks/verify");
    reveal_strlit("/api/tasks/schedule");
    reveal_strlit("/api/license/activate");
    reveal_strlit("/api/prompt");
    reveal_strlit("/api/usage");
    reveal_strlit("/api/auth/oauth/logout");
    reveal_strlit("/api/auth/oauth/sessions");
    reveal_strlit("/api/telemetry/flush");
    reveal_strlit("/api/telemetry/status");
    reveal_strlit("/api/workers");
    reveal_strlit("/api/workers/register");
    reveal_strlit("/api/workers/heartbeat");
    reveal_strlit("DELETE");
    reveal_strlit("/api/workers/deregister");
    reveal_strlit("/api/finetune/extract");
    reveal_strlit("/api/finetune/modelfile");
    reveal_strlit("/api/diagnostics");
    reveal_strlit("/api/index");
    reveal_strlit("/api/graph");
    reveal_strlit("/api/monorepo");
    reveal_strlit("/api/dashboard");
    reveal_strlit("/api/events");
    reveal_strlit("/api/run-templates");
    reveal_strlit("/api/teams/");
    reveal_strlit("/api/cloud/jobs/");
    reveal_strlit("/api/swarm/runs/");
    reveal_strlit("/api/auth/oauth/");
    reveal_strlit("/login");
    reveal_strlit("/callback");
}

/// The daemon's routing table, part 3 of 10: each of these
/// methods and paths goes to the handler named beside it.
#[verifier::spinoff_prover]
#[verifier::rlimit(60)]
pub proof fn law_route_table_3()
    ensures
        route_of("POST"@, "/api/conversations/message"@) == RouteView::AddMessage,
        route_of("GET"@, "/api/auth/sso/login"@) == RouteView::SsoLogin,
        route_of("POST"@, "/api/auth/sso/callback"@) == RouteView::SsoCallback,
        route_of("POST"@, "/api/auth/sso/logout"@) == RouteView::SsoLogout,
        route_of("GET"@, "/api/auth/sso/sessions"@) == RouteView::SsoSessions,
        route_of("GET"@, "/api/license/status"@) == RouteView::LicenseStatus,
        route_of("GET"@, "/api/billing/status"@) == RouteView::BillingStatus,
        route_of("GET"@, "/api/teams"@) == RouteView::ListTeams,
{
    lemma_route_literals_differ();
    reveal_strlit("GET");
    reveal_strlit("/");
    reveal_strlit("/index.html");
    reveal_strlit("/health");
    reveal_strlit("/api/models");
    reveal_strlit("/api/inference/stats");
    reveal_strlit("POST");
    reveal_strlit("/api/models/pull");
    reveal_strlit("/api/complete/stream");
    reveal_strlit("/api/chat/stream");
    reveal_strlit("/api/templates");
    reveal_strlit("/api/agents");
    reveal_strlit("/api/tasks");
    reveal_strlit("/api/audit");
    reveal_strlit("/api/audit/export");
    reveal_strlit("/api/metrics");
    reveal_strlit("/api/conversations");
    reveal_strlit("/api/conversations/message");
    reveal_strlit("/api/auth/sso/login");
    reveal_strlit("/api/auth/sso/callback");
    reveal_strlit("/api/auth/sso/logout");
    reveal_strlit("/api/auth/sso/sessions");
    reveal_strlit("/api/license/status");
    reveal_strlit("/api/billing/status");
    reveal_strlit("/api/teams");
    reveal_strlit("/api/teams/join");
    reveal_strlit("/api/marketplace");
    reveal_strlit("/api/marketplace/install");
    reveal_strlit("/api/parallel/runs");
    reveal_strlit("/api/runs/history");
    reveal_strlit("/api/cloud/jobs");
    reveal_strlit("/api/swarm/runs");
    reveal_strlit("/api/agents/run");
    reveal_strlit("/api/pending-approvals");
    reveal_strlit("/api/approve");
    reveal_strlit("/api/file-locks");
    reveal_strlit("/api/mission/feed");
    reveal_strlit("/api/auth/sso/config");
    reveal_strlit("/api/search");
    reveal_strlit("/api/yaya/experts");
    reveal_strlit("/api/yaya/retrieval-preferences");
    reveal_strlit("/api/yaya/chat");
    reveal_strlit("/api/yaya/training/examples");
    reveal_strlit("/api/policy");
    reveal_strlit("/api/complete");
    reveal_strlit("/api/parallel/run");
    reveal_strlit("/api/webhooks");
    reveal_strlit("/api/webhooks/verify");
    reveal_strlit("/api/tasks/schedule");
    reveal_strlit("/api/license/activate");
    reveal_strlit("/api/prompt");
    reveal_strlit("/api/usage");
    reveal_strlit("/api/auth/oauth/logout");
    reveal_strlit("/api/auth/oauth/sessions");
    reveal_strlit("/api/telemetry/flush");
    reveal_strlit("/api/telemetry/status");
    reveal_strlit("/api/workers");
    reveal_strlit("/api/workers/register");
    reveal_strlit("/api/workers/heartbeat");
    reveal_strlit("DELETE");
    reveal_strlit("/api/workers/deregister");
    reveal_strlit("/api/finetune/extract");
    reveal_strlit("/api/finetune/modelfile");
    reveal_strlit("/api/diagnostics");
    reveal_strlit("/api/index");
    reveal_strlit("/api/graph");
    reveal_strlit("/api/monorepo");
    reveal_strlit("/api/dashboard");
    reveal_strlit("/api/events");
    reveal_strlit("/api/run-templates");
    reveal_strlit("/api/teams/");
    reveal_strlit("/api/cloud/jobs/");
    reveal_strlit("/api/swarm/runs/");
    reveal_strlit("/api/auth/oauth/");
    reveal_strlit("/login");
    reveal_strlit("/callback");
}

/// The daemon's routing table, part 4 of 10: each of these
/// methods and paths goes to the handler named beside it.
#[verifier::spinoff_prover]
#[verifier::rlimit(60)]
pub proof fn law_route_table_4()
    ensures
        route_of("POST"@, "/api/teams"@) == RouteView::CreateTeam,
        route_of("POST"@, "/api/teams/join"@) == RouteView::JoinTeam,
        route_of("GET"@, "/api/marketplace"@) == RouteView::MarketplaceList,
        route_of("POST"@, "/api/marketplace/install"@) == RouteView::MarketplaceInstall,
        route_of("GET"@, "/api/parallel/runs"@) == RouteView::ListParallelRuns,
        route_of("GET"@, "/api/runs/history"@) == RouteView::RunHistory,
        route_of("POST"@, "/api/parallel/runs"@) == RouteView::ParallelRun,
        route_of("GET"@, "/api/cloud/jobs"@) == RouteView::ListCloudJobs,
{
    lemma_route_literals_differ();
    reveal_strlit("GET");
    reveal_strlit("/");
    reveal_strlit("/index.html");
    reveal_strlit("/health");
    reveal_strlit("/api/models");
    reveal_strlit("/api/inference/stats");
    reveal_strlit("POST");
    reveal_strlit("/api/models/pull");
    reveal_strlit("/api/complete/stream");
    reveal_strlit("/api/chat/stream");
    reveal_strlit("/api/templates");
    reveal_strlit("/api/agents");
    reveal_strlit("/api/tasks");
    reveal_strlit("/api/audit");
    reveal_strlit("/api/audit/export");
    reveal_strlit("/api/metrics");
    reveal_strlit("/api/conversations");
    reveal_strlit("/api/conversations/message");
    reveal_strlit("/api/auth/sso/login");
    reveal_strlit("/api/auth/sso/callback");
    reveal_strlit("/api/auth/sso/logout");
    reveal_strlit("/api/auth/sso/sessions");
    reveal_strlit("/api/license/status");
    reveal_strlit("/api/billing/status");
    reveal_strlit("/api/teams");
    reveal_strlit("/api/teams/join");
    reveal_strlit("/api/marketplace");
    reveal_strlit("/api/marketplace/install");
    reveal_strlit("/api/parallel/runs");
    reveal_strlit("/api/runs/history");
    reveal_strlit("/api/cloud/jobs");
    reveal_strlit("/api/swarm/runs");
    reveal_strlit("/api/agents/run");
    reveal_strlit("/api/pending-approvals");
    reveal_strlit("/api/approve");
    reveal_strlit("/api/file-locks");
    reveal_strlit("/api/mission/feed");
    reveal_strlit("/api/auth/sso/config");
    reveal_strlit("/api/search");
    reveal_strlit("/api/yaya/experts");
    reveal_strlit("/api/yaya/retrieval-preferences");
    reveal_strlit("/api/yaya/chat");
    reveal_strlit("/api/yaya/training/examples");
    reveal_strlit("/api/policy");
    reveal_strlit("/api/complete");
    reveal_strlit("/api/parallel/run");
    reveal_strlit("/api/webhooks");
    reveal_strlit("/api/webhooks/verify");
    reveal_strlit("/api/tasks/schedule");
    reveal_strlit("/api/license/activate");
    reveal_strlit("/api/prompt");
    reveal_strlit("/api/usage");
    reveal_strlit("/api/auth/oauth/logout");
    reveal_strlit("/api/auth/oauth/sessions");
    reveal_strlit("/api/telemetry/flush");
    reveal_strlit("/api/telemetry/status");
    reveal_strlit("/api/workers");
    reveal_strlit("/api/workers/register");
    reveal_strlit("/api/workers/heartbeat");
    reveal_strlit("DELETE");
    reveal_strlit("/api/workers/deregister");
    reveal_strlit("/api/finetune/extract");
    reveal_strlit("/api/finetune/modelfile");
    reveal_strlit("/api/diagnostics");
    reveal_strlit("/api/index");
    reveal_strlit("/api/graph");
    reveal_strlit("/api/monorepo");
    reveal_strlit("/api/dashboard");
    reveal_strlit("/api/events");
    reveal_strlit("/api/run-templates");
    reveal_strlit("/api/teams/");
    reveal_strlit("/api/cloud/jobs/");
    reveal_strlit("/api/swarm/runs/");
    reveal_strlit("/api/auth/oauth/");
    reveal_strlit("/login");
    reveal_strlit("/callback");
}

/// The daemon's routing table, part 5 of 10: each of these
/// methods and paths goes to the handler named beside it.
#[verifier::spinoff_prover]
#[verifier::rlimit(60)]
pub proof fn law_route_table_5()
    ensures
        route_of("POST"@, "/api/cloud/jobs"@) == RouteView::SubmitCloudJob,
        route_of("GET"@, "/api/swarm/runs"@) == RouteView::ListSwarmRuns,
        route_of("POST"@, "/api/swarm/runs"@) == RouteView::StartSwarmRun,
        route_of("POST"@, "/api/agents/run"@) == RouteView::RunAgent,
        route_of("GET"@, "/api/pending-approvals"@) == RouteView::PendingApprovals,
        route_of("POST"@, "/api/approve"@) == RouteView::Approve,
        route_of("GET"@, "/api/file-locks"@) == RouteView::FileLocks,
        route_of("GET"@, "/api/mission/feed"@) == RouteView::MissionFeed,
{
    lemma_route_literals_differ();
    reveal_strlit("GET");
    reveal_strlit("/");
    reveal_strlit("/index.html");
    reveal_strlit("/health");
    reveal_strlit("/api/models");
    reveal_strlit("/api/inference/stats");
    reveal_strlit("POST");
    reveal_strlit("/api/models/pull");
    reveal_strlit("/api/complete/stream");
    reveal_strlit("/api/chat/stream");
    reveal_strlit("/api/templates");
    reveal_strlit("/api/agents");
    reveal_strlit("/api/tasks");
    reveal_strlit("/api/audit");
    reveal_strlit("/api/audit/export");
    reveal_strlit("/api/metrics");
    reveal_strlit("/api/conversations");
    reveal_strlit("/api/conversations/message");
    reveal_strlit("/api/auth/sso/login");
    reveal_strlit("/api/auth/sso/callback");
    reveal_strlit("/api/auth/sso/logout");
    reveal_strlit("/api/auth/sso/sessions");
    reveal_strlit("/api/license/status");
    reveal_strlit("/api/billing/status");
    reveal_strlit("/api/teams");
    reveal_strlit("/api/teams/join");
    reveal_strlit("/api/marketplace");
    reveal_strlit("/api/marketplace/install");
    reveal_strlit("/api/parallel/runs");
    reveal_strlit("/api/runs/history");
    reveal_strlit("/api/cloud/jobs");
    reveal_strlit("/api/swarm/runs");
    reveal_strlit("/api/agents/run");
    reveal_strlit("/api/pending-approvals");
    reveal_strlit("/api/approve");
    reveal_strlit("/api/file-locks");
    reveal_strlit("/api/mission/feed");
    reveal_strlit("/api/auth/sso/config");
    reveal_strlit("/api/search");
    reveal_strlit("/api/yaya/experts");
    reveal_strlit("/api/yaya/retrieval-preferences");
    reveal_strlit("/api/yaya/chat");
    reveal_strlit("/api/yaya/training/examples");
    reveal_strlit("/api/policy");
    reveal_strlit("/api/complete");
    reveal_strlit("/api/parallel/run");
    reveal_strlit("/api/webhooks");
    reveal_strlit("/api/webhooks/verify");
    reveal_strlit("/api/tasks/schedule");
    reveal_strlit("/api/license/activate");
    reveal_strlit("/api/prompt");
    reveal_strlit("/api/usage");
    reveal_strlit("/api/auth/oauth/logout");
    reveal_strlit("/api/auth/oauth/sessions");
    reveal_strlit("/api/telemetry/flush");
    reveal_strlit("/api/telemetry/status");
    reveal_strlit("/api/workers");
    reveal_strlit("/api/workers/register");
    reveal_strlit("/api/workers/heartbeat");
    reveal_strlit("DELETE");
    reveal_strlit("/api/workers/deregister");
    reveal_strlit("/api/finetune/extract");
    reveal_strlit("/api/finetune/modelfile");
    reveal_strlit("/api/diagnostics");
    reveal_strlit("/api/index");
    reveal_strlit("/api/graph");
    reveal_strlit("/api/monorepo");
    reveal_strlit("/api/dashboard");
    reveal_strlit("/api/events");
    reveal_strlit("/api/run-templates");
    reveal_strlit("/api/teams/");
    reveal_strlit("/api/cloud/jobs/");
    reveal_strlit("/api/swarm/runs/");
    reveal_strlit("/api/auth/oauth/");
    reveal_strlit("/login");
    reveal_strlit("/callback");
}

/// The daemon's routing table, part 6 of 10: each of these
/// methods and paths goes to the handler named beside it.
#[verifier::spinoff_prover]
#[verifier::rlimit(60)]
pub proof fn law_route_table_6()
    ensures
        route_of("POST"@, "/api/auth/sso/config"@) == RouteView::SsoConfig,
        route_of("GET"@, "/api/search"@) == RouteView::Search,
        route_of("GET"@, "/api/yaya/experts"@) == RouteView::YayaExperts,
        route_of("GET"@, "/api/yaya/retrieval-preferences"@) == RouteView::YayaGetPreferences,
        route_of("POST"@, "/api/yaya/retrieval-preferences"@) == RouteView::YayaSetPreferences,
        route_of("POST"@, "/api/yaya/chat"@) == RouteView::YayaChat,
        route_of("POST"@, "/api/yaya/training/examples"@) == RouteView::YayaTrainingExample,
        route_of("GET"@, "/api/policy"@) == RouteView::GetPolicy,
{
    lemma_route_literals_differ();
    reveal_strlit("GET");
    reveal_strlit("/");
    reveal_strlit("/index.html");
    reveal_strlit("/health");
    reveal_strlit("/api/models");
    reveal_strlit("/api/inference/stats");
    reveal_strlit("POST");
    reveal_strlit("/api/models/pull");
    reveal_strlit("/api/complete/stream");
    reveal_strlit("/api/chat/stream");
    reveal_strlit("/api/templates");
    reveal_strlit("/api/agents");
    reveal_strlit("/api/tasks");
    reveal_strlit("/api/audit");
    reveal_strlit("/api/audit/export");
    reveal_strlit("/api/metrics");
    reveal_strlit("/api/conversations");
    reveal_strlit("/api/conversations/message");
    reveal_strlit("/api/auth/sso/login");
    reveal_strlit("/api/auth/sso/callback");
    reveal_strlit("/api/auth/sso/logout");
    reveal_strlit("/api/auth/sso/sessions");
    reveal_strlit("/api/license/status");
    reveal_strlit("/api/billing/status");
    reveal_strlit("/api/teams");
    reveal_strlit("/api/teams/join");
    reveal_strlit("/api/marketplace");
    reveal_strlit("/api/marketplace/install");
    reveal_strlit("/api/parallel/runs");
    reveal_strlit("/api/runs/history");
    reveal_strlit("/api/cloud/jobs");
    reveal_strlit("/api/swarm/runs");
    reveal_strlit("/api/agents/run");
    reveal_strlit("/api/pending-approvals");
    reveal_strlit("/api/approve");
    reveal_strlit("/api/file-locks");
    reveal_strlit("/api/mission/feed");
    reveal_strlit("/api/auth/sso/config");
    reveal_strlit("/api/search");
    reveal_strlit("/api/yaya/experts");
    reveal_strlit("/api/yaya/retrieval-preferences");
    reveal_strlit("/api/yaya/chat");
    reveal_strlit("/api/yaya/training/examples");
    reveal_strlit("/api/policy");
    reveal_strlit("/api/complete");
    reveal_strlit("/api/parallel/run");
    reveal_strlit("/api/webhooks");
    reveal_strlit("/api/webhooks/verify");
    reveal_strlit("/api/tasks/schedule");
    reveal_strlit("/api/license/activate");
    reveal_strlit("/api/prompt");
    reveal_strlit("/api/usage");
    reveal_strlit("/api/auth/oauth/logout");
    reveal_strlit("/api/auth/oauth/sessions");
    reveal_strlit("/api/telemetry/flush");
    reveal_strlit("/api/telemetry/status");
    reveal_strlit("/api/workers");
    reveal_strlit("/api/workers/register");
    reveal_strlit("/api/workers/heartbeat");
    reveal_strlit("DELETE");
    reveal_strlit("/api/workers/deregister");
    reveal_strlit("/api/finetune/extract");
    reveal_strlit("/api/finetune/modelfile");
    reveal_strlit("/api/diagnostics");
    reveal_strlit("/api/index");
    reveal_strlit("/api/graph");
    reveal_strlit("/api/monorepo");
    reveal_strlit("/api/dashboard");
    reveal_strlit("/api/events");
    reveal_strlit("/api/run-templates");
    reveal_strlit("/api/teams/");
    reveal_strlit("/api/cloud/jobs/");
    reveal_strlit("/api/swarm/runs/");
    reveal_strlit("/api/auth/oauth/");
    reveal_strlit("/login");
    reveal_strlit("/callback");
}

/// The daemon's routing table, part 7 of 10: each of these
/// methods and paths goes to the handler named beside it.
#[verifier::spinoff_prover]
#[verifier::rlimit(60)]
pub proof fn law_route_table_7()
    ensures
        route_of("POST"@, "/api/policy"@) == RouteView::SetPolicy,
        route_of("POST"@, "/api/complete"@) == RouteView::Complete,
        route_of("POST"@, "/api/parallel/run"@) == RouteView::ParallelRun,
        route_of("GET"@, "/api/webhooks"@) == RouteView::ListWebhooks,
        route_of("POST"@, "/api/webhooks"@) == RouteView::RegisterWebhook,
        route_of("POST"@, "/api/webhooks/verify"@) == RouteView::VerifyWebhook,
        route_of("POST"@, "/api/tasks/schedule"@) == RouteView::ScheduleTask,
        route_of("POST"@, "/api/license/activate"@) == RouteView::LicenseActivate,
{
    lemma_route_literals_differ();
    reveal_strlit("GET");
    reveal_strlit("/");
    reveal_strlit("/index.html");
    reveal_strlit("/health");
    reveal_strlit("/api/models");
    reveal_strlit("/api/inference/stats");
    reveal_strlit("POST");
    reveal_strlit("/api/models/pull");
    reveal_strlit("/api/complete/stream");
    reveal_strlit("/api/chat/stream");
    reveal_strlit("/api/templates");
    reveal_strlit("/api/agents");
    reveal_strlit("/api/tasks");
    reveal_strlit("/api/audit");
    reveal_strlit("/api/audit/export");
    reveal_strlit("/api/metrics");
    reveal_strlit("/api/conversations");
    reveal_strlit("/api/conversations/message");
    reveal_strlit("/api/auth/sso/login");
    reveal_strlit("/api/auth/sso/callback");
    reveal_strlit("/api/auth/sso/logout");
    reveal_strlit("/api/auth/sso/sessions");
    reveal_strlit("/api/license/status");
    reveal_strlit("/api/billing/status");
    reveal_strlit("/api/teams");
    reveal_strlit("/api/teams/join");
    reveal_strlit("/api/marketplace");
    reveal_strlit("/api/marketplace/install");
    reveal_strlit("/api/parallel/runs");
    reveal_strlit("/api/runs/history");
    reveal_strlit("/api/cloud/jobs");
    reveal_strlit("/api/swarm/runs");
    reveal_strlit("/api/agents/run");
    reveal_strlit("/api/pending-approvals");
    reveal_strlit("/api/approve");
    reveal_strlit("/api/file-locks");
    reveal_strlit("/api/mission/feed");
    reveal_strlit("/api/auth/sso/config");
    reveal_strlit("/api/search");
    reveal_strlit("/api/yaya/experts");
    reveal_strlit("/api/yaya/retrieval-preferences");
    reveal_strlit("/api/yaya/chat");
    reveal_strlit("/api/yaya/training/examples");
    reveal_strlit("/api/policy");
    reveal_strlit("/api/complete");
    reveal_strlit("/api/parallel/run");
    reveal_strlit("/api/webhooks");
    reveal_strlit("/api/webhooks/verify");
    reveal_strlit("/api/tasks/schedule");
    reveal_strlit("/api/license/activate");
    reveal_strlit("/api/prompt");
    reveal_strlit("/api/usage");
    reveal_strlit("/api/auth/oauth/logout");
    reveal_strlit("/api/auth/oauth/sessions");
    reveal_strlit("/api/telemetry/flush");
    reveal_strlit("/api/telemetry/status");
    reveal_strlit("/api/workers");
    reveal_strlit("/api/workers/register");
    reveal_strlit("/api/workers/heartbeat");
    reveal_strlit("DELETE");
    reveal_strlit("/api/workers/deregister");
    reveal_strlit("/api/finetune/extract");
    reveal_strlit("/api/finetune/modelfile");
    reveal_strlit("/api/diagnostics");
    reveal_strlit("/api/index");
    reveal_strlit("/api/graph");
    reveal_strlit("/api/monorepo");
    reveal_strlit("/api/dashboard");
    reveal_strlit("/api/events");
    reveal_strlit("/api/run-templates");
    reveal_strlit("/api/teams/");
    reveal_strlit("/api/cloud/jobs/");
    reveal_strlit("/api/swarm/runs/");
    reveal_strlit("/api/auth/oauth/");
    reveal_strlit("/login");
    reveal_strlit("/callback");
}

/// The daemon's routing table, part 8 of 10: each of these
/// methods and paths goes to the handler named beside it.
#[verifier::spinoff_prover]
#[verifier::rlimit(60)]
pub proof fn law_route_table_8()
    ensures
        route_of("POST"@, "/api/prompt"@) == RouteView::Prompt,
        route_of("GET"@, "/api/usage"@) == RouteView::Usage,
        route_of("POST"@, "/api/auth/oauth/logout"@) == RouteView::OauthLogout,
        route_of("GET"@, "/api/auth/oauth/sessions"@) == RouteView::OauthSessions,
        route_of("POST"@, "/api/telemetry/flush"@) == RouteView::TelemetryFlush,
        route_of("GET"@, "/api/telemetry/status"@) == RouteView::TelemetryStatus,
        route_of("GET"@, "/api/workers"@) == RouteView::ListWorkers,
        route_of("POST"@, "/api/workers/register"@) == RouteView::RegisterWorker,
{
    lemma_route_literals_differ();
    reveal_strlit("GET");
    reveal_strlit("/");
    reveal_strlit("/index.html");
    reveal_strlit("/health");
    reveal_strlit("/api/models");
    reveal_strlit("/api/inference/stats");
    reveal_strlit("POST");
    reveal_strlit("/api/models/pull");
    reveal_strlit("/api/complete/stream");
    reveal_strlit("/api/chat/stream");
    reveal_strlit("/api/templates");
    reveal_strlit("/api/agents");
    reveal_strlit("/api/tasks");
    reveal_strlit("/api/audit");
    reveal_strlit("/api/audit/export");
    reveal_strlit("/api/metrics");
    reveal_strlit("/api/conversations");
    reveal_strlit("/api/conversations/message");
    reveal_strlit("/api/auth/sso/login");
    reveal_strlit("/api/auth/sso/callback");
    reveal_strlit("/api/auth/sso/logout");
    reveal_strlit("/api/auth/sso/sessions");
    reveal_strlit("/api/license/status");
    reveal_strlit("/api/billing/status");
    reveal_strlit("/api/teams");
    reveal_strlit("/api/teams/join");
    reveal_strlit("/api/marketplace");
    reveal_strlit("/api/marketplace/install");
    reveal_strlit("/api/parallel/runs");
    reveal_strlit("/api/runs/history");
    reveal_strlit("/api/cloud/jobs");
    reveal_strlit("/api/swarm/runs");
    reveal_strlit("/api/agents/run");
    reveal_strlit("/api/pending-approvals");
    reveal_strlit("/api/approve");
    reveal_strlit("/api/file-locks");
    reveal_strlit("/api/mission/feed");
    reveal_strlit("/api/auth/sso/config");
    reveal_strlit("/api/search");
    reveal_strlit("/api/yaya/experts");
    reveal_strlit("/api/yaya/retrieval-preferences");
    reveal_strlit("/api/yaya/chat");
    reveal_strlit("/api/yaya/training/examples");
    reveal_strlit("/api/policy");
    reveal_strlit("/api/complete");
    reveal_strlit("/api/parallel/run");
    reveal_strlit("/api/webhooks");
    reveal_strlit("/api/webhooks/verify");
    reveal_strlit("/api/tasks/schedule");
    reveal_strlit("/api/license/activate");
    reveal_strlit("/api/prompt");
    reveal_strlit("/api/usage");
    reveal_strlit("/api/auth/oauth/logout");
    reveal_strlit("/api/auth/oauth/sessions");
    reveal_strlit("/api/telemetry/flush");
    reveal_strlit("/api/telemetry/status");
    reveal_strlit("/api/workers");
    reveal_strlit("/api/workers/register");
    reveal_strlit("/api/workers/heartbeat");
    reveal_strlit("DELETE");
    reveal_strlit("/api/workers/deregister");
    reveal_strlit("/api/finetune/extract");
    reveal_strlit("/api/finetune/modelfile");
    reveal_strlit("/api/diagnostics");
    reveal_strlit("/api/index");
    reveal_strlit("/api/graph");
    reveal_strlit("/api/monorepo");
    reveal_strlit("/api/dashboard");
    reveal_strlit("/api/events");
    reveal_strlit("/api/run-templates");
    reveal_strlit("/api/teams/");
    reveal_strlit("/api/cloud/jobs/");
    reveal_strlit("/api/swarm/runs/");
    reveal_strlit("/api/auth/oauth/");
    reveal_strlit("/login");
    reveal_strlit("/callback");
}

/// The daemon's routing table, part 9 of 10: each of these
/// methods and paths goes to the handler named beside it.
#[verifier::spinoff_prover]
#[verifier::rlimit(60)]
pub proof fn law_route_table_9()
    ensures
        route_of("POST"@, "/api/workers/heartbeat"@) == RouteView::WorkerHeartbeat,
        route_of("DELETE"@, "/api/workers/deregister"@) == RouteView::DeregisterWorker,
        route_of("POST"@, "/api/finetune/extract"@) == RouteView::FinetuneExtract,
        route_of("POST"@, "/api/finetune/modelfile"@) == RouteView::FinetuneModelfile,
        route_of("GET"@, "/api/diagnostics"@) == RouteView::Diagnostics,
        route_of("POST"@, "/api/index"@) == RouteView::IndexBuild,
        route_of("GET"@, "/api/index"@) == RouteView::IndexStatus,
        route_of("GET"@, "/api/graph"@) == RouteView::DependencyGraph,
{
    lemma_route_literals_differ();
    reveal_strlit("GET");
    reveal_strlit("/");
    reveal_strlit("/index.html");
    reveal_strlit("/health");
    reveal_strlit("/api/models");
    reveal_strlit("/api/inference/stats");
    reveal_strlit("POST");
    reveal_strlit("/api/models/pull");
    reveal_strlit("/api/complete/stream");
    reveal_strlit("/api/chat/stream");
    reveal_strlit("/api/templates");
    reveal_strlit("/api/agents");
    reveal_strlit("/api/tasks");
    reveal_strlit("/api/audit");
    reveal_strlit("/api/audit/export");
    reveal_strlit("/api/metrics");
    reveal_strlit("/api/conversations");
    reveal_strlit("/api/conversations/message");
    reveal_strlit("/api/auth/sso/login");
    reveal_strlit("/api/auth/sso/callback");
    reveal_strlit("/api/auth/sso/logout");
    reveal_strlit("/api/auth/sso/sessions");
    reveal_strlit("/api/license/status");
    reveal_strlit("/api/billing/status");
    reveal_strlit("/api/teams");
    reveal_strlit("/api/teams/join");
    reveal_strlit("/api/marketplace");
    reveal_strlit("/api/marketplace/install");
    reveal_strlit("/api/parallel/runs");
    reveal_strlit("/api/runs/history");
    reveal_strlit("/api/cloud/jobs");
    reveal_strlit("/api/swarm/runs");
    reveal_strlit("/api/agents/run");
    reveal_strlit("/api/pending-approvals");
    reveal_strlit("/api/approve");
    reveal_strlit("/api/file-locks");
    reveal_strlit("/api/mission/feed");
    reveal_strlit("/api/auth/sso/config");
    reveal_strlit("/api/search");
    reveal_strlit("/api/yaya/experts");
    reveal_strlit("/api/yaya/retrieval-preferences");
    reveal_strlit("/api/yaya/chat");
    reveal_strlit("/api/yaya/training/examples");
    reveal_strlit("/api/policy");
    reveal_strlit("/api/complete");
    reveal_strlit("/api/parallel/run");
    reveal_strlit("/api/webhooks");
    reveal_strlit("/api/webhooks/verify");
    reveal_strlit("/api/tasks/schedule");
    reveal_strlit("/api/license/activate");
    reveal_strlit("/api/prompt");
    reveal_strlit("/api/usage");
    reveal_strlit("/api/auth/oauth/logout");
    reveal_strlit("/api/auth/oauth/sessions");
    reveal_strlit("/api/telemetry/flush");
    reveal_strlit("/api/telemetry/status");
    reveal_strlit("/api/workers");
    reveal_strlit("/api/workers/register");
    reveal_strlit("/api/workers/heartbeat");
    reveal_strlit("DELETE");
    reveal_strlit("/api/workers/deregister");
    reveal_strlit("/api/finetune/extract");
    reveal_strlit("/api/finetune/modelfile");
    reveal_strlit("/api/diagnostics");
    reveal_strlit("/api/index");
    reveal_strlit("/api/graph");
    reveal_strlit("/api/monorepo");
    reveal_strlit("/api/dashboard");
    reveal_strlit("/api/events");
    reveal_strlit("/api/run-templates");
    reveal_strlit("/api/teams/");
    reveal_strlit("/api/cloud/jobs/");
    reveal_strlit("/api/swarm/runs/");
    reveal_strlit("/api/auth/oauth/");
    reveal_strlit("/login");
    reveal_strlit("/callback");
}

/// The daemon's routing table, part 10 of 10: each of these
/// methods and paths goes to the handler named beside it.
#[verifier::spinoff_prover]
#[verifier::rlimit(60)]
pub proof fn law_route_table_10()
    ensures
        route_of("GET"@, "/api/monorepo"@) == RouteView::Monorepo,
        route_of("GET"@, "/api/dashboard"@) == RouteView::Dashboard,
        route_of("GET"@, "/api/events"@) == RouteView::EventStream,
        route_of("GET"@, "/api/run-templates"@) == RouteView::ListRunTemplates,
        route_of("POST"@, "/api/run-templates"@) == RouteView::SaveRunTemplate,
{
    lemma_route_literals_differ();
    reveal_strlit("GET");
    reveal_strlit("/");
    reveal_strlit("/index.html");
    reveal_strlit("/health");
    reveal_strlit("/api/models");
    reveal_strlit("/api/inference/stats");
    reveal_strlit("POST");
    reveal_strlit("/api/models/pull");
    reveal_strlit("/api/complete/stream");
    reveal_strlit("/api/chat/stream");
    reveal_strlit("/api/templates");
    reveal_strlit("/api/agents");
    reveal_strlit("/api/tasks");
    reveal_strlit("/api/audit");
    reveal_strlit("/api/audit/export");
    reveal_strlit("/api/metrics");
    reveal_strlit("/api/conversations");
    reveal_strlit("/api/conversations/message");
    reveal_strlit("/api/auth/sso/login");
    reveal_strlit("/api/auth/sso/callback");
    reveal_strlit("/api/auth/sso/logout");
    reveal_strlit("/api/auth/sso/sessions");
    reveal_strlit("/api/license/status");
    reveal_strlit("/api/billing/status");
    reveal_strlit("/api/teams");
    reveal_strlit("/api/teams/join");
    reveal_strlit("/api/marketplace");
    reveal_strlit("/api/marketplace/install");
    reveal_strlit("/api/parallel/runs");
    reveal_strlit("/api/runs/history");
    reveal_strlit("/api/cloud/jobs");
    reveal_strlit("/api/swarm/runs");
    reveal_strlit("/api/agents/run");
    reveal_strlit("/api/pending-approvals");
    reveal_strlit("/api/approve");
    reveal_strlit("/api/file-locks");
    reveal_strlit("/api/mission/feed");
    reveal_strlit("/api/auth/sso/config");
    reveal_strlit("/api/search");
    reveal_strlit("/api/yaya/experts");
    reveal_strlit("/api/yaya/retrieval-preferences");
    reveal_strlit("/api/yaya/chat");
    reveal_strlit("/api/yaya/training/examples");
    reveal_strlit("/api/policy");
    reveal_strlit("/api/complete");
    reveal_strlit("/api/parallel/run");
    reveal_strlit("/api/webhooks");
    reveal_strlit("/api/webhooks/verify");
    reveal_strlit("/api/tasks/schedule");
    reveal_strlit("/api/license/activate");
    reveal_strlit("/api/prompt");
    reveal_strlit("/api/usage");
    reveal_strlit("/api/auth/oauth/logout");
    reveal_strlit("/api/auth/oauth/sessions");
    reveal_strlit("/api/telemetry/flush");
    reveal_strlit("/api/telemetry/status");
    reveal_strlit("/api/workers");
    reveal_strlit("/api/workers/register");
    reveal_strlit("/api/workers/heartbeat");
    reveal_strlit("DELETE");
    reveal_strlit("/api/workers/deregister");
    reveal_strlit("/api/finetune/extract");
    reveal_strlit("/api/finetune/modelfile");
    reveal_strlit("/api/diagnostics");
    reveal_strlit("/api/index");
    reveal_strlit("/api/graph");
    reveal_strlit("/api/monorepo");
    reveal_strlit("/api/dashboard");
    reveal_strlit("/api/events");
    reveal_strlit("/api/run-templates");
    reveal_strlit("/api/teams/");
    reveal_strlit("/api/cloud/jobs/");
    reveal_strlit("/api/swarm/runs/");
    reveal_strlit("/api/auth/oauth/");
    reveal_strlit("/login");
    reveal_strlit("/callback");
}

} // verus!
