//! The payloads of the HTTP API's responses and requests.
use vstd::prelude::*;

verus! {

/// The body of an error response.
#[derive(Debug, Clone)]
pub struct ErrorResponse {
    pub error: String,
}

/// The body of the health check.
#[derive(Debug, Clone)]
pub struct HealthResponse {
    pub status: String,
    pub models: usize,
    pub agents: usize,
    pub tasks: usize,
    pub workspace: String,
}

/// A model the daemon can serve.
#[derive(Debug, Clone)]
pub struct ModelInfo {
    pub name: String,
    pub backend: String,
    pub supports_tool_use: bool,
    pub context_window: usize,
}

/// An agent instance, as listed.
#[derive(Debug, Clone)]
pub struct AgentInfo {
    pub id: String,
    pub template: String,
    pub status: String,
    pub iterations: usize,
    pub tool_invocations: u32,
    pub summary: Option<String>,
}

/// A scheduled task, as listed.
#[derive(Debug, Clone)]
pub struct TaskInfo {
    pub id: String,
    pub name: String,
    pub schedule: String,
    pub status: String,
    pub run_count: u32,
    pub enabled: bool,
}

/// An agent template, as listed.
#[derive(Debug, Clone)]
pub struct TemplateInfo {
    pub name: String,
    pub description: String,
    pub model: String,
    pub tools: Vec<String>,
    pub max_iterations: usize,
    pub requires_approval: bool,
}

/// A request to set which sources retrieval prefers for a subject.
#[derive(Debug, Clone)]
pub struct YayaRetrievalPreferencesRequest {
    pub workspace: String,
    pub subject: String,
    pub preferred_sources: Vec<String>,
    pub preferred_source_terms: Vec<String>,
}

} // verus!
