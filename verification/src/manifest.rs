//! The environment blueprint (`enversal.yaml`), as plain data.

use vstd::prelude::*;
use crate::limits::strs_view;

verus! {

/// The root of a blueprint.
#[derive(Debug, Default)]
pub struct EnversalManifest {
    pub version: String,
    pub environment: EnvironmentConfig,
    pub resources: ResourcesConfig,
    pub context: ContextConfig,
    pub security: SecurityConfig,
    pub agents: AgentsConfig,
}

/// The environment's metadata.
#[derive(Debug, Default)]
pub struct EnvironmentConfig {
    pub name: String,
    /// `commune` or `isolone`.
    pub env_type: String,
    pub goal: String,
    /// The reasoning backend: `gemini`, `ollama`, or empty for the default.
    pub ai_provider: String,
}

/// The physical resources of the environment.
#[derive(Debug, Default)]
pub struct ResourcesConfig {
    pub cpu_cores: u32,
    pub ram_mb: u32,
    pub log_size_mb: u32,
    pub storage_limit_mb: u32,
    pub db_access: bool,
    pub network: NetworkConfig,
    pub filesystem: FilesystemConfig,
}

/// Filesystem access.
#[derive(Debug, Default)]
pub struct FilesystemConfig {
    pub allowed_read_paths: Vec<String>,
    pub allowed_write_paths: Vec<String>,
}

/// Network access.
#[derive(Debug, Default)]
pub struct NetworkConfig {
    pub allow_outbound: bool,
    pub allowed_domains: Vec<String>,
}

/// How the models keep context.
#[derive(Debug, Default)]
pub struct ContextConfig {
    pub shared_memory_type: String,
    pub max_tokens_per_agent: u32,
}

/// Identity and secrets.
#[derive(Debug, Default)]
pub struct SecurityConfig {
    pub mtls_enabled: bool,
    pub vault_provider: String,
}

/// The agents provisioned at the start.
#[derive(Debug, Default)]
pub struct AgentsConfig {
    pub leader: AgentSpec,
    pub initial_workers: Option<Vec<AgentSpec>>,
}

/// The template of one agent.
#[derive(Debug, Default)]
pub struct AgentSpec {
    pub name: String,
    pub model: String,
    pub capabilities: Vec<String>,
    pub system_prompt: String,
    pub role: Option<String>,
}

/// The mathematical content of an `AgentSpec`.
pub struct AgentSpecView {
    pub name: Seq<char>,
    pub model: Seq<char>,
    pub capabilities: Seq<Seq<char>>,
    pub system_prompt: Seq<char>,
    pub role: Option<Seq<char>>,
}

impl View for AgentSpec {
    type V = AgentSpecView;

    open spec fn view(&self) -> AgentSpecView {
        AgentSpecView {
            name: self.name@,
            model: self.model@,
            capabilities: strs_view(self.capabilities@),
            system_prompt: self.system_prompt@,
            role: self.role.deep_view(),
        }
    }
}

/// The views of a list of agent templates.
pub open spec fn specs_view(v: Seq<AgentSpec>) -> Seq<AgentSpecView> {
    v.map_values(|s: AgentSpec| s@)
}

/// The mathematical content of the resource section.
pub struct ResourcesView {
    pub cpu_cores: u32,
    pub ram_mb: u32,
    pub db_access: bool,
    pub allowed_domains: Seq<Seq<char>>,
    pub allowed_read_paths: Seq<Seq<char>>,
    pub allowed_write_paths: Seq<Seq<char>>,
}

impl View for ResourcesConfig {
    type V = ResourcesView;

    open spec fn view(&self) -> ResourcesView {
        ResourcesView {
            cpu_cores: self.cpu_cores,
            ram_mb: self.ram_mb,
            db_access: self.db_access,
            allowed_domains: strs_view(self.network.allowed_domains@),
            allowed_read_paths: strs_view(self.filesystem.allowed_read_paths@),
            allowed_write_paths: strs_view(self.filesystem.allowed_write_paths@),
        }
    }
}

} // verus!
