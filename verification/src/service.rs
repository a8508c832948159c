//! The control plane's answers: provisioning an environment from a blueprint,
//! and reporting on the live ones.

use vstd::prelude::*;
use crate::agent::{
    Agent, AgentConfig, AgentRole, AgentView, ConfigView, RoleView, dedup, fresh_agent,
};
use crate::environment::{Commune, Isolone};
use crate::error::{DaemonError, DaemonErrorView, DaemonResult};
use crate::ids::{AgentId, EnvId, has_v4_layout, random_v4, uuid_string, uuid_text};
use crate::limits::{LimitsView, ResourceLimits, clone_strings, strs_view};
use crate::manifest::{AgentSpec, AgentSpecView, EnversalManifest, ResourcesConfig, ResourcesView, specs_view};
use crate::paths::{keep_contained_paths, without_parent_refs};
use crate::registry::{ActiveEnv, EnvTable, RuntimeRegistry, holds_at, kind_name};
use crate::text::{debug_string, debug_text, lowercase_of, str_eq, to_lowercase};

verus! {

/// The reasoning backends.
#[derive(Debug, PartialEq, Eq, Structural, Clone, Copy)]
pub enum AiProvider {
    Gemini,
    Ollama,
}

/// The backend named by a lower-cased provider name; empty means Gemini.
pub open spec fn provider_named(lowered: Seq<char>) -> Option<AiProvider> {
    if lowered == "ollama"@ {
        Some(AiProvider::Ollama)
    } else if lowered == "gemini"@ || lowered.len() == 0 {
        Some(AiProvider::Gemini)
    } else {
        None
    }
}

/// The backend for an already lower-cased provider name, or an error naming it.
pub fn provider_for(lowered: &str) -> (r: DaemonResult<AiProvider>)
    ensures
        match provider_named(lowered@) {
            Some(p) => r matches Ok(q) && q == p,
            None => r matches Err(e) && e@ == DaemonErrorView::InvalidManifest(
                "Unsupported AI Provider: "@ + lowered@,
            ),
        },
{
    if str_eq(lowered, "ollama") {
        Ok(AiProvider::Ollama)
    } else if str_eq(lowered, "gemini") || lowered.unicode_len() == 0 {
        Ok(AiProvider::Gemini)
    } else {
        let mut m = String::from_str("Unsupported AI Provider: ");
        m.append(lowered);
        Err(DaemonError::InvalidManifest(m))
    }
}

/// The backend that a blueprint's provider name asks for, matched without case.
pub fn choose_provider(name: &str) -> (r: DaemonResult<AiProvider>)
    ensures
        match provider_named(lowercase_of(name@)) {
            Some(p) => r matches Ok(q) && q == p,
            None => r matches Err(e) && e@ == DaemonErrorView::InvalidManifest(
                "Unsupported AI Provider: "@ + lowercase_of(name@),
            ),
        },
{
    let lowered = to_lowercase(name);
    provider_for(lowered.as_str())
}

/// The limits that a blueprint's resources give: its numbers and domains, and
/// its paths without those that climb out through `..`.
pub open spec fn manifest_limits(r: ResourcesView) -> LimitsView {
    LimitsView {
        max_cpu_cores: r.cpu_cores,
        max_ram_mb: r.ram_mb,
        db_access: r.db_access,
        allowed_network_domains: r.allowed_domains,
        allowed_read_paths: without_parent_refs(r.allowed_read_paths),
        allowed_write_paths: without_parent_refs(r.allowed_write_paths),
    }
}

/// The resource limits of a blueprint.
pub fn limits_from(res: &ResourcesConfig) -> (r: ResourceLimits)
    ensures
        r@ == manifest_limits(res@),
{
    ResourceLimits {
        max_cpu_cores: res.cpu_cores,
        max_ram_mb: res.ram_mb,
        db_access: res.db_access,
        allowed_network_domains: clone_strings(&res.network.allowed_domains),
        allowed_read_paths: keep_contained_paths(&res.filesystem.allowed_read_paths),
        allowed_write_paths: keep_contained_paths(&res.filesystem.allowed_write_paths),
    }
}

/// The configuration that a template gives an agent of `role`: its model, and
/// its capabilities as the set of allowed tools.
pub open spec fn spec_config(role: RoleView, s: AgentSpecView) -> ConfigView {
    ConfigView { role, model: s.model, allowed_tools: dedup(s.capabilities) }
}

/// The role of a worker: the template's role name, `worker` where it has none.
pub open spec fn worker_role(s: AgentSpecView) -> RoleView {
    RoleView::Worker(
        match s.role {
            Some(r) => r,
            None => "worker"@,
        },
    )
}

/// The agents of a new commune after the leader and the first `n` workers
/// entered, under identifiers `ids` (the leader's first).
pub open spec fn commune_members(
    leader: AgentSpecView,
    workers: Seq<AgentSpecView>,
    ids: Seq<AgentId>,
    n: nat,
) -> Map<AgentId, AgentView>
    decreases n,
{
    if n == 0 {
        Map::<AgentId, AgentView>::empty().insert(
            ids[0],
            fresh_agent(ids[0], leader.name, spec_config(RoleView::Leader, leader)),
        )
    } else {
        let w = workers[n - 1];
        commune_members(leader, workers, ids, (n - 1) as nat).insert(
            ids[n as int],
            fresh_agent(ids[n as int], w.name, spec_config(worker_role(w), w)),
        )
    }
}

/// The workers of a blueprint; none where it names none.
pub open spec fn workers_of(m: EnversalManifest) -> Seq<AgentSpecView> {
    match m.agents.initial_workers {
        Some(w) => specs_view(w@),
        None => Seq::empty(),
    }
}

/// An environment provisioned from a blueprint, ready to be registered.
pub struct Deployment {
    /// The environment's key in the registry: the text of `env_uuid`.
    pub env_id: String,
    /// The random identifier behind `env_id`.
    pub env_uuid: EnvId,
    /// The reasoning backend.
    pub provider: AiProvider,
    /// The environment with its founding agents.
    pub env: ActiveEnv,
    /// The identifiers given to the founding agents, the leader's first.
    pub agent_ids: Vec<AgentId>,
    /// The answer to the client.
    pub message: String,
}

/// The environment of a deployment is what the blueprint describes.
pub open spec fn deployment_matches(d: Deployment, env_type: Seq<char>, m: EnversalManifest) -> bool {
    let leader = m.agents.leader@;
    let workers = workers_of(m);
    let goal = m.environment.goal@;
    let limits = manifest_limits(m.resources@);
    &&& d.env_id@ == uuid_text(d.env_uuid)
    &&& has_v4_layout(d.env_uuid)
    &&& d.message@ == "Successfully provisioned "@ + env_type + " environment via Control Plane."@
    &&& forall|i: int| 0 <= i < d.agent_ids@.len() ==> has_v4_layout(#[trigger] d.agent_ids@[i])
    &&& if lowercase_of(env_type) == "commune"@ {
        &&& d.agent_ids@.len() == workers.len() + 1
        &&& d.env matches ActiveEnv::Commune(c) && {
            &&& has_v4_layout(c.id)
            &&& c@.goal == goal
            &&& c@.limits == limits
            &&& c@.leader_id == Some(d.agent_ids@[0])
            &&& c@.agents == commune_members(leader, workers, d.agent_ids@, workers.len())
        }
    } else {
        &&& d.agent_ids@.len() == 1
        &&& d.env matches ActiveEnv::Isolone(i) && {
            &&& has_v4_layout(i.id)
            &&& i@.goal == goal
            &&& i@.limits == limits
            &&& i@.agent == Some(
                fresh_agent(d.agent_ids@[0], leader.name, spec_config(RoleView::Leader, leader)),
            )
        }
    }
}

/// The configuration that a template gives an agent of `role`.
pub fn config_from(role: AgentRole, spec: &AgentSpec) -> (r: AgentConfig)
    ensures
        r@ == spec_config(role@, spec@),
        r@.wf(),
{
    AgentConfig::new(role, spec.model.clone(), clone_strings(&spec.capabilities))
}

/// Provisions the environment that a blueprint describes, of the kind named
/// by `env_type` (`commune`, matched without case; anything else gives an
/// isolone), with its founding agents; refused where the blueprint names an
/// unknown reasoning backend.
pub fn plan_deployment(env_type: &str, manifest: &EnversalManifest) -> (r: DaemonResult<Deployment>)
    ensures
        match provider_named(lowercase_of(manifest.environment.ai_provider@)) {
            Some(p) => r matches Ok(d) && d.provider == p && deployment_matches(d, env_type@, *manifest),
            None => r matches Err(e) && e@ == DaemonErrorView::InvalidManifest(
                "Unsupported AI Provider: "@ + lowercase_of(manifest.environment.ai_provider@),
            ),
        },
{
    let provider = choose_provider(manifest.environment.ai_provider.as_str())?;
    let env_uuid = random_v4();
    let env_id = uuid_string(env_uuid);
    let limits = limits_from(&manifest.resources);
    let kind = to_lowercase(env_type);
    let leader_spec = &manifest.agents.leader;
    let mut agent_ids: Vec<AgentId> = Vec::new();
    let env = if str_eq(kind.as_str(), "commune") {
        let mut c = Commune::new(manifest.environment.goal.as_str(), limits);
        let leader = Agent::new(leader_spec.name.as_str(), config_from(AgentRole::Leader, leader_spec));
        let lid = leader.id;
        c.leader_id = Some(lid);
        agent_ids.push(lid);
        c.place_agent(leader);
        proof {
            assert(c@.agents =~= commune_members(leader_spec@, workers_of(*manifest), agent_ids@, 0));
        }
        match &manifest.agents.initial_workers {
            Some(workers) => {
                let mut k: usize = 0;
                while k < workers.len()
                    invariant
                        workers_of(*manifest) == specs_view(workers@),
                        k <= workers@.len(),
                        agent_ids@.len() == k + 1,
                        agent_ids@[0] == lid,
                        forall|i: int| 0 <= i < agent_ids@.len() ==> has_v4_layout(#[trigger] agent_ids@[i]),
                        has_v4_layout(c.id),
                        c@.goal == manifest.environment.goal@,
                        c@.limits == manifest_limits(manifest.resources@),
                        c@.leader_id == Some(lid),
                        c@.agents == commune_members(leader_spec@, workers_of(*manifest), agent_ids@, k as nat),
                    decreases workers.len() - k,
                {
                    let w = &workers[k];
                    let role = match &w.role {
                        Some(r) => AgentRole::Worker(r.clone()),
                        None => AgentRole::Worker(String::from_str("worker")),
                    };
                    let worker = Agent::new(w.name.as_str(), config_from(role, w));
                    let ghost before = agent_ids@;
                    agent_ids.push(worker.id);
                    proof {
                        let ids = agent_ids@;
                        assert(ids.take(k as int + 1) =~= before);
                        lemma_members_prefix(leader_spec@, workers_of(*manifest), before, ids, k as nat);
                    }
                    c.place_agent(worker);
                    k = k + 1;
                }
            },
            None => {},
        }
        ActiveEnv::Commune(c)
    } else {
        let mut i = Isolone::new(manifest.environment.goal.as_str(), limits);
        let leader = Agent::new(leader_spec.name.as_str(), config_from(AgentRole::Leader, leader_spec));
        agent_ids.push(leader.id);
        i.agent = Some(leader);
        ActiveEnv::Isolone(i)
    };
    let mut message = String::from_str("Successfully provisioned ");
    message.append(env_type);
    message.append(" environment via Control Plane.");
    Ok(Deployment { env_id, env_uuid, provider, env, agent_ids, message })
}

/// The members after `n` workers depend only on the first `n + 1` identifiers.
pub proof fn lemma_members_prefix(
    leader: AgentSpecView,
    workers: Seq<AgentSpecView>,
    short: Seq<AgentId>,
    long: Seq<AgentId>,
    n: nat,
)
    requires
        short.len() == n + 1,
        long.len() >= n + 1,
        long.take(n as int + 1) == short,
    ensures
        commune_members(leader, workers, short, n) == commune_members(leader, workers, long, n),
    decreases n,
{
    assert(short[0] == long.take(n as int + 1)[0]);
    if n > 0 {
        assert(short[n as int] == long.take(n as int + 1)[n as int]);
        assert(long.take(n as int) =~= short.take(n as int));
        lemma_members_prefix(leader, workers, short.take(n as int), long, (n - 1) as nat);
        lemma_members_prefix(leader, workers, short.take(n as int), short, (n - 1) as nat);
    }
}

/// Where identifiers do not repeat, the agent entered under the leader's
/// identifier is built from the leader's template, and the one under the
/// identifier of worker `k` (`k < n`) from worker `k`'s template.
proof fn lemma_member_templates(
    leader: AgentSpecView,
    workers: Seq<AgentSpecView>,
    ids: Seq<AgentId>,
    n: nat,
    k: int,
)
    requires
        n <= workers.len(),
        ids.len() > n,
        ids.no_duplicates(),
        -1 <= k < n,
    ensures
        k == -1 ==> commune_members(leader, workers, ids, n).contains_key(ids[0]) && commune_members(
            leader,
            workers,
            ids,
            n,
        )[ids[0]] == fresh_agent(ids[0], leader.name, spec_config(RoleView::Leader, leader)),
        k >= 0 ==> commune_members(leader, workers, ids, n).contains_key(ids[k + 1]) && commune_members(
            leader,
            workers,
            ids,
            n,
        )[ids[k + 1]] == fresh_agent(ids[k + 1], workers[k].name, spec_config(worker_role(workers[k]), workers[k])),
    decreases n,
{
    if n > 0 && k < n - 1 {
        lemma_member_templates(leader, workers, ids, (n - 1) as nat, k);
        assert(ids[n as int] != ids[k + 1]);
    }
}

/// In a deployed commune whose identifiers do not repeat, the leader is
/// built from the leader's template and each worker from its own template:
/// its name, its model, its role name (`worker` where none is given), and
/// its capabilities, each once.
pub proof fn law_commune_agents_follow_templates(d: Deployment, env_type: Seq<char>, m: EnversalManifest, k: int)
    requires
        deployment_matches(d, env_type, m),
        lowercase_of(env_type) == "commune"@,
        d.agent_ids@.no_duplicates(),
        0 <= k < workers_of(m).len(),
    ensures
        d.env matches ActiveEnv::Commune(c) && {
            let leader = c@.agents[d.agent_ids@[0]];
            let worker = c@.agents[d.agent_ids@[k + 1]];
            let w = workers_of(m)[k];
            &&& c@.agents.contains_key(d.agent_ids@[0])
            &&& leader.name == m.agents.leader@.name
            &&& leader.config.role == RoleView::Leader
            &&& leader.config.model == m.agents.leader@.model
            &&& leader.config.allowed_tools == dedup(m.agents.leader@.capabilities)
            &&& c@.agents.contains_key(d.agent_ids@[k + 1])
            &&& worker.id == d.agent_ids@[k + 1]
            &&& worker.name == w.name
            &&& worker.config.model == w.model
            &&& worker.config.allowed_tools == dedup(w.capabilities)
            &&& worker.config.role == RoleView::Worker(
                match w.role {
                    Some(r) => r,
                    None => "worker"@,
                },
            )
        },
{
    let leader = m.agents.leader@;
    let workers = workers_of(m);
    lemma_member_templates(leader, workers, d.agent_ids@, workers.len(), -1);
    lemma_member_templates(leader, workers, d.agent_ids@, workers.len(), k);
}

/// The control plane's state: live environments, and agents' runtimes.
pub struct EnvironmentRegistry {
    /// The live environments, by identifier.
    pub active_environments: EnvTable<ActiveEnv>,
    /// The runtimes provisioned for each agent.
    pub runtime_registry: RuntimeRegistry,
}

impl EnvironmentRegistry {
    /// A registry with no environments and no runtimes.
    pub fn new() -> (r: Self)
        ensures
            r.active_environments.as_map() == Map::<Seq<char>, ActiveEnv>::empty(),
            r.active_environments.pairs().len() == 0,
            r.runtime_registry@ == Map::<AgentId, crate::registry::RuntimePathsView>::empty(),
    {
        EnvironmentRegistry { active_environments: EnvTable::new(), runtime_registry: RuntimeRegistry::new() }
    }

    /// Registers an environment under `id`, in place of any held there.
    pub fn insert_env(&mut self, id: String, env: ActiveEnv)
        ensures
            final(self).active_environments.as_map() == old(self).active_environments.as_map().insert(id@, env),
            final(self).runtime_registry@ == old(self).runtime_registry@,
    {
        self.active_environments.insert(id, env);
    }

    /// The identifiers of the live environments, each once.
    pub fn get_env_ids(&self) -> (r: Vec<String>)
        ensures
            r@.len() == self.active_environments.pairs().len(),
            forall|i: int| 0 <= i < r@.len() ==> r@[i]@ == self.active_environments.pairs()[i].0@,
            forall|i: int, j: int|
                0 <= i < r@.len() && 0 <= j < r@.len() && i != j ==> #[trigger] r@[i]@ != #[trigger] r@[j]@,
            forall|k: Seq<char>|
                self.active_environments.as_map().contains_key(k) <==> exists|i: int|
                    0 <= i < r@.len() && #[trigger] r@[i]@ == k,
    {
        self.active_environments.ids()
    }

    /// Forgets the environment held under `id`.
    pub fn remove_env(&mut self, id: &str)
        ensures
            final(self).active_environments.as_map() == old(self).active_environments.as_map().remove(id@),
            final(self).runtime_registry@ == old(self).runtime_registry@,
    {
        self.active_environments.remove(id);
    }
}

/// A client's view of one live environment.
pub struct EnvInfo {
    pub env_id: String,
    pub env_type: String,
    pub status: String,
}

/// Lists the live environments, in registry order: identifier, kind, `Running`;
/// each live environment once.
pub fn list_environments(reg: &EnvironmentRegistry) -> (r: Vec<EnvInfo>)
    ensures
        r@.len() == reg.active_environments.pairs().len(),
        forall|i: int, j: int|
            0 <= i < r@.len() && 0 <= j < r@.len() && i != j ==> #[trigger] r@[i].env_id@ != #[trigger] r@[j].env_id@,
        forall|k: Seq<char>|
            reg.active_environments.as_map().contains_key(k) <==> exists|i: int|
                0 <= i < r@.len() && #[trigger] r@[i].env_id@ == k,
        forall|i: int|
            0 <= i < r@.len() ==> {
                &&& (#[trigger] r@[i]).env_id@ == reg.active_environments.pairs()[i].0@
                &&& r@[i].env_type@ == kind_name(reg.active_environments.pairs()[i].1)
                &&& r@[i].status@ == "Running"@
            },
{
    let mut r: Vec<EnvInfo> = Vec::new();
    let n = reg.active_environments.len();
    let mut i: usize = 0;
    while i < n
        invariant
            n == reg.active_environments.pairs().len(),
            i <= n,
            r@.len() == i,
            forall|j: int|
                0 <= j < i ==> {
                    &&& (#[trigger] r@[j]).env_id@ == reg.active_environments.pairs()[j].0@
                    &&& r@[j].env_type@ == kind_name(reg.active_environments.pairs()[j].1)
                    &&& r@[j].status@ == "Running"@
                },
        decreases n - i,
    {
        let (id, env) = reg.active_environments.entry(i);
        r.push(EnvInfo { env_id: id.clone(), env_type: String::from_str(env.kind()), status: String::from_str("Running") });
        i = i + 1;
    }
    proof {
        let p = reg.active_environments.pairs();
        assert forall|i: int, j: int|
            0 <= i < r@.len() && 0 <= j < r@.len() && i != j implies #[trigger] r@[i].env_id@
            != #[trigger] r@[j].env_id@ by {
            assert(p[i].0@ != p[j].0@);
        }
        assert forall|k: Seq<char>|
            reg.active_environments.as_map().contains_key(k) <==> exists|i: int|
                0 <= i < r@.len() && #[trigger] r@[i].env_id@ == k by {
            if reg.active_environments.as_map().contains_key(k) {
                let i = choose|i: int| holds_at(p, k, i);
                assert(r@[i].env_id@ == k);
            }
            if exists|i: int| 0 <= i < r@.len() && #[trigger] r@[i].env_id@ == k {
                let i = choose|i: int| 0 <= i < r@.len() && #[trigger] r@[i].env_id@ == k;
                assert(holds_at(p, k, i));
            }
        }
    }
    r
}

/// A client's view of an environment's state.
pub struct StatusReport {
    pub status: String,
    pub active_agents: u32,
}

/// The status of environment `env_id`: `Running` where it lives, else
/// `NotFound`; the agent count is reported as 3 either way.
pub fn environment_status(reg: &EnvironmentRegistry, env_id: &str) -> (r: StatusReport)
    ensures
        r.status@ == (if reg.active_environments.as_map().contains_key(env_id@) {
            "Running"@
        } else {
            "NotFound"@
        }),
        r.active_agents == 3,
{
    let running = reg.active_environments.contains(env_id);
    StatusReport {
        status: String::from_str(if running { "Running" } else { "NotFound" }),
        active_agents: 3,
    }
}

/// The text that `{:?}` prints for a role.
pub open spec fn role_text(r: RoleView) -> Seq<char> {
    match r {
        RoleView::Leader => "Leader"@,
        RoleView::Worker(s) => "Worker("@ + debug_text(s) + ")"@,
    }
}

/// The debug text of a role.
pub fn role_debug(r: &AgentRole) -> (t: String)
    ensures
        t@ == role_text(r@),
{
    match r {
        AgentRole::Leader => String::from_str("Leader"),
        AgentRole::Worker(s) => {
            let mut t = String::from_str("Worker(");
            let d = debug_string(s.as_str());
            t.append(d.as_str());
            t.append(")");
            t
        },
    }
}

/// What an inspection shows of one agent.
pub struct AgentSummary {
    pub id: String,
    pub name: String,
    pub role: String,
    pub model: String,
    pub tools: Vec<String>,
    pub pid: Option<u32>,
}

/// The summary shows the agent: its identifier's text, name, role text,
/// model, tools and process.
pub open spec fn summarizes(s: AgentSummary, a: AgentView) -> bool {
    &&& s.id@ == uuid_text(a.id)
    &&& s.name@ == a.name
    &&& s.role@ == role_text(a.config.role)
    &&& s.model@ == a.config.model
    &&& strs_view(s.tools@) == a.config.allowed_tools
    &&& s.pid == a.current_pid
}

/// The summary of one agent.
pub fn summarize_agent(a: &Agent) -> (r: AgentSummary)
    ensures
        summarizes(r, a@),
{
    AgentSummary {
        id: uuid_string(a.id),
        name: a.name.clone(),
        role: role_debug(&a.config.role),
        model: a.config.model.clone(),
        tools: clone_strings(&a.config.allowed_tools),
        pid: a.current_pid,
    }
}

/// What an inspection shows of an environment's limits.
pub struct LimitsSummary {
    pub max_cpu_cores: u32,
    pub max_ram_mb: u32,
    pub db_access: bool,
    pub allowed_network_domains: Vec<String>,
}

/// The summary shows the limits' numbers, database access and domains.
pub open spec fn summarizes_limits(s: LimitsSummary, l: LimitsView) -> bool {
    &&& s.max_cpu_cores == l.max_cpu_cores
    &&& s.max_ram_mb == l.max_ram_mb
    &&& s.db_access == l.db_access
    &&& strs_view(s.allowed_network_domains@) == l.allowed_network_domains
}

fn summarize_limits(l: &ResourceLimits) -> (r: LimitsSummary)
    ensures
        summarizes_limits(r, l@),
{
    LimitsSummary {
        max_cpu_cores: l.max_cpu_cores,
        max_ram_mb: l.max_ram_mb,
        db_access: l.db_access,
        allowed_network_domains: clone_strings(&l.allowed_network_domains),
    }
}

/// What an inspection shows of an environment.
pub enum EnvSummary {
    Isolone { id: String, goal: String, limits: LimitsSummary, agent: Option<AgentSummary> },
    Commune {
        id: String,
        goal: String,
        limits: LimitsSummary,
        leader_id: Option<String>,
        agents: Vec<AgentSummary>,
    },
}

/// The summary shows one of the agents of `m`.
pub open spec fn shows_member(s: AgentSummary, m: Map<AgentId, AgentView>) -> bool {
    exists|k: AgentId| #[trigger] m.contains_key(k) && summarizes(s, m[k])
}

/// The summary shows the environment: for an isolone its one agent, for a
/// commune its leader and every agent once (in no particular order).
pub open spec fn summarizes_env(s: EnvSummary, e: ActiveEnv) -> bool {
    match e {
        ActiveEnv::Isolone(i) => {
            &&& s matches EnvSummary::Isolone { id, goal, limits, agent }
            &&& id@ == uuid_text(i.id)
            &&& goal@ == i.goal@
            &&& summarizes_limits(limits, i.limits@)
            &&& match agent {
                Some(sa) => i@.agent matches Some(a) && summarizes(sa, a),
                None => i@.agent is None,
            }
        },
        ActiveEnv::Commune(c) => {
            &&& s matches EnvSummary::Commune { id, goal, limits, leader_id, agents }
            &&& id@ == uuid_text(c.id)
            &&& goal@ == c.goal@
            &&& summarizes_limits(limits, c.limits@)
            &&& match leader_id {
                Some(t) => c.leader_id matches Some(l) && t@ == uuid_text(l),
                None => c.leader_id is None,
            }
            &&& agents@.len() == c@.agents.len()
            &&& forall|j: int|
                0 <= j < agents@.len() ==> shows_member(#[trigger] agents@[j], c@.agents)
            &&& forall|k: AgentId|
                #[trigger] c@.agents.contains_key(k) ==> exists|j: int|
                    0 <= j < agents@.len() && summarizes(#[trigger] agents@[j], c@.agents[k])
        },
    }
}

/// The summary of one environment.
pub fn summarize_env(e: &ActiveEnv) -> (r: EnvSummary)
    ensures
        summarizes_env(r, *e),
{
    match e {
        ActiveEnv::Isolone(i) => {
            let agent = match &i.agent {
                Some(a) => {
                    let sa = summarize_agent(a);
                    assert(i@.agent == Some(a@));
                    Some(sa)
                },
                None => None,
            };
            let id = uuid_string(i.id);
            let goal = i.goal.clone();
            let limits = summarize_limits(&i.limits);
            let r = EnvSummary::Isolone { id, goal, limits, agent };
            r
        },
        ActiveEnv::Commune(c) => {
            let leader_id = match c.leader_id {
                Some(l) => Some(uuid_string(l)),
                None => None,
            };
            let mut agents: Vec<AgentSummary> = Vec::new();
            let ghost g = vstd::std_specs::iter::IteratorSpec::remaining(&vstd::std_specs::hash::spec_hash_map_iter(&c.agents));
            for pair in it: c.agents.iter()
                invariant
                    it.seq() == g,
                    agents@.len() == it.index(),
                    forall|j: int| 0 <= j < it.index() ==> summarizes(#[trigger] agents@[j], (*it.seq()[j].1)@),
                    forall|j: int|
                        0 <= j < it.seq().len() ==> c.agents@.contains_key(*it.seq()[j].0)
                            && c.agents@[*it.seq()[j].0] == *it.seq()[j].1,
                    forall|k: AgentId| #[trigger] c.agents@.contains_key(k) ==> it.seq().contains((&k, &c.agents@[k])),
                    it.seq().len() == c.agents@.dom().len(),
            {
                agents.push(summarize_agent(pair.1));
            }
            let ghost cv = c@.agents;
            assert(cv.dom() =~= c.agents@.dom());
            assert forall|j: int| 0 <= j < agents@.len() implies shows_member(#[trigger] agents@[j], cv) by {
                let k = *g[j].0;
                assert(cv.contains_key(k));
            }
            assert forall|k: AgentId| #[trigger] cv.contains_key(k) implies exists|j: int|
                0 <= j < agents@.len() && summarizes(#[trigger] agents@[j], cv[k]) by {
                assert(c.agents@.contains_key(k));
                let j = choose|j: int| 0 <= j < g.len() && g[j] == (&k, &c.agents@[k]);
                assert(summarizes(agents@[j], cv[k]));
            }
            EnvSummary::Commune {
                id: uuid_string(c.id),
                goal: c.goal.clone(),
                limits: summarize_limits(&c.limits),
                leader_id,
                agents,
            }
        },
    }
}

/// The summary of environment `env_id`, where it lives.
pub fn inspect_environment(reg: &EnvironmentRegistry, env_id: &str) -> (r: Option<EnvSummary>)
    ensures
        match r {
            Some(s) => reg.active_environments.as_map().contains_key(env_id@) && summarizes_env(
                s,
                reg.active_environments.as_map()[env_id@],
            ),
            None => !reg.active_environments.as_map().contains_key(env_id@),
        },
{
    match reg.active_environments.get(env_id) {
        Some(e) => Some(summarize_env(e)),
        None => None,
    }
}

/// The members after the leader and `n` workers: exactly the first `n + 1`
/// identifiers, the leader still under the first where identifiers are distinct.
proof fn lemma_members_shape(
    leader: AgentSpecView,
    workers: Seq<AgentSpecView>,
    ids: Seq<AgentId>,
    n: nat,
)
    requires
        n < ids.len(),
        ids.no_duplicates(),
    ensures
        commune_members(leader, workers, ids, n).dom() == ids.take(n as int + 1).to_set(),
        commune_members(leader, workers, ids, n)[ids[0]] == fresh_agent(
            ids[0],
            leader.name,
            spec_config(RoleView::Leader, leader),
        ),
    decreases n,
{
    broadcast use vstd::seq_lib::group_seq_properties;
    if n == 0 {
        assert(ids.take(1) =~= seq![ids[0]]);
        assert(commune_members(leader, workers, ids, 0).dom() =~= ids.take(1).to_set());
    } else {
        lemma_members_shape(leader, workers, ids, (n - 1) as nat);
        assert(ids.take(n as int + 1) =~= ids.take(n as int).push(ids[n as int]));
        assert(commune_members(leader, workers, ids, n).dom() =~= ids.take(n as int + 1).to_set());
        assert(ids[n as int] != ids[0]);
    }
}

/// A new commune holds every founding agent once: the leader under the first
/// identifier with the leader's role, each worker under its own, as many
/// agents as founders, where the identifiers drawn are distinct.
pub proof fn law_commune_founders(leader: AgentSpecView, workers: Seq<AgentSpecView>, ids: Seq<AgentId>)
    requires
        ids.len() == workers.len() + 1,
        ids.no_duplicates(),
    ensures
        commune_members(leader, workers, ids, workers.len()).contains_key(ids[0]),
        commune_members(leader, workers, ids, workers.len())[ids[0]].config.role == RoleView::Leader,
        forall|i: int|
            0 <= i < ids.len() ==> commune_members(leader, workers, ids, workers.len()).contains_key(
                #[trigger] ids[i],
            ),
        commune_members(leader, workers, ids, workers.len()).len() == ids.len(),
{
    broadcast use vstd::seq_lib::group_seq_properties;
    lemma_members_shape(leader, workers, ids, workers.len());
    assert(ids.take(ids.len() as int) =~= ids);
    ids.unique_seq_to_set();
}

/// What is registered under an identifier is found there until it is removed.
pub proof fn law_registry_read_after_write(m: Map<Seq<char>, ActiveEnv>, id: Seq<char>, e: ActiveEnv, other: Seq<char>)
    ensures
        m.insert(id, e).contains_key(id) && m.insert(id, e)[id] == e,
        !m.insert(id, e).remove(id).contains_key(id),
        other != id ==> (m.insert(id, e).contains_key(other) == m.contains_key(other)),
{
}

} // verus!
