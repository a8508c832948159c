//! Agents: their identity, role and configuration.

use vstd::prelude::*;
use crate::ids::{AgentId, has_v4_layout, random_v4};
use crate::limits::strs_view;

verus! {

/// A tool that an agent may be allowed to use.
pub type ToolId = String;

/// The role an agent plays within its environment.
#[derive(Debug, PartialEq)]
#[non_exhaustive]
pub enum AgentRole {
    /// The planner and orchestrator of a commune.
    Leader,
    /// An agent created for a given persona or function.
    Worker(String),
}

/// The mathematical content of an `AgentRole`.
pub enum RoleView {
    Leader,
    Worker(Seq<char>),
}

impl View for AgentRole {
    type V = RoleView;

    open spec fn view(&self) -> RoleView {
        match self {
            AgentRole::Leader => RoleView::Leader,
            AgentRole::Worker(s) => RoleView::Worker(s@),
        }
    }
}

impl AgentRole {
    /// A copy of this role.
    pub fn duplicate(&self) -> (r: Self)
        ensures
            r@ == self@,
    {
        match self {
            AgentRole::Leader => AgentRole::Leader,
            AgentRole::Worker(s) => AgentRole::Worker(s.clone()),
        }
    }
}

/// The configuration of an agent: role, model, and the tools it may use.
///
/// `allowed_tools` is a set: no tool occurs twice in it (see `wf`).
#[derive(Debug)]
pub struct AgentConfig {
    /// The assigned role.
    pub role: AgentRole,
    /// The language model behind the agent's reasoning.
    pub model: String,
    /// The tools the agent may use, each once.
    pub allowed_tools: Vec<ToolId>,
}

/// The mathematical content of an `AgentConfig`.
pub struct ConfigView {
    pub role: RoleView,
    pub model: Seq<char>,
    pub allowed_tools: Seq<Seq<char>>,
}

impl View for AgentConfig {
    type V = ConfigView;

    open spec fn view(&self) -> ConfigView {
        ConfigView {
            role: self.role@,
            model: self.model@,
            allowed_tools: strs_view(self.allowed_tools@),
        }
    }
}

impl ConfigView {
    /// No tool is listed twice.
    pub open spec fn wf(self) -> bool {
        self.allowed_tools.no_duplicates()
    }
}

/// `tools` with each tool kept at its first occurrence only.
pub open spec fn dedup(tools: Seq<Seq<char>>) -> Seq<Seq<char>>
    decreases tools.len(),
{
    if tools.len() == 0 {
        Seq::empty()
    } else {
        let rest = dedup(tools.drop_last());
        if rest.contains(tools.last()) {
            rest
        } else {
            rest.push(tools.last())
        }
    }
}

/// What `dedup` keeps: each tool once, and exactly the tools listed.
pub proof fn lemma_dedup(tools: Seq<Seq<char>>)
    ensures
        dedup(tools).no_duplicates(),
        dedup(tools).to_set() == tools.to_set(),
    decreases tools.len(),
{
    if tools.len() > 0 {
        lemma_dedup(tools.drop_last());
        let rest = dedup(tools.drop_last());
        assert(tools =~= tools.drop_last().push(tools.last()));
        broadcast use vstd::seq_lib::group_seq_properties;
        assert(tools.to_set() =~= tools.drop_last().to_set().insert(tools.last())) by {
            assert forall|x| tools.to_set().contains(x) <==> tools.drop_last().to_set().insert(
                tools.last(),
            ).contains(x) by {
                if tools.to_set().contains(x) {
                    let i = choose|i: int| 0 <= i < tools.len() && tools[i] == x;
                    if i < tools.len() - 1 {
                        assert(tools.drop_last()[i] == x);
                    }
                }
                if tools.drop_last().to_set().contains(x) {
                    let i = choose|i: int| 0 <= i < tools.len() - 1 && tools.drop_last()[i] == x;
                    assert(tools[i] == x);
                }
            }
        }
        if !rest.contains(tools.last()) {
            assert(rest.push(tools.last()).to_set() =~= rest.to_set().insert(tools.last()));
        }
    }
}

/// The set of tools named in `tools`, each once, in order of first occurrence.
pub fn tool_set(tools: &Vec<String>) -> (r: Vec<String>)
    ensures
        strs_view(r@) == dedup(strs_view(tools@)),
{
    let mut r: Vec<String> = Vec::new();
    let mut i: usize = 0;
    while i < tools.len()
        invariant
            i <= tools@.len(),
            strs_view(r@) == dedup(strs_view(tools@).take(i as int)),
        decreases tools.len() - i,
    {
        let t = &tools[i];
        let mut found = false;
        let mut k: usize = 0;
        while k < r.len()
            invariant
                k <= r@.len(),
                found <==> exists|m: int| 0 <= m < k && r@[m]@ == t@,
            decreases r.len() - k,
        {
            if r[k] == *t {
                found = true;
            }
            k = k + 1;
        }
        let ghost before = strs_view(tools@).take(i as int);
        assert(strs_view(tools@).take(i + 1).drop_last() =~= before);
        assert(strs_view(tools@).take(i + 1).last() == t@);
        assert(found <==> strs_view(r@).contains(t@)) by {
            if found {
                let m = choose|m: int| 0 <= m < r@.len() && r@[m]@ == t@;
                assert(strs_view(r@)[m] == t@);
            }
            if strs_view(r@).contains(t@) {
                let m = choose|m: int| 0 <= m < strs_view(r@).len() && strs_view(r@)[m] == t@;
                assert(r@[m]@ == t@);
            }
        }
        if !found {
            r.push(t.clone());
            assert(strs_view(r@) =~= strs_view(r@).drop_last().push(t@));
        }
        i = i + 1;
    }
    assert(strs_view(tools@).take(tools@.len() as int) =~= strs_view(tools@));
    r
}

impl AgentConfig {
    /// A configuration with the given role, model and tools; a tool listed
    /// more than once is kept once.
    pub fn new(role: AgentRole, model: String, tools: Vec<String>) -> (r: Self)
        ensures
            r@.role == role@,
            r@.model == model@,
            r@.allowed_tools == dedup(strs_view(tools@)),
            r@.wf(),
    {
        let allowed_tools = tool_set(&tools);
        proof {
            lemma_dedup(strs_view(tools@));
        }
        AgentConfig { role, model, allowed_tools }
    }

    /// A copy of this configuration.
    pub fn duplicate(&self) -> (r: Self)
        ensures
            r@ == self@,
    {
        let tools = self.allowed_tools.clone();
        assert(tools@ =~= self.allowed_tools@);
        AgentConfig { role: self.role.duplicate(), model: self.model.clone(), allowed_tools: tools }
    }
}

/// An AI entity inside an environment.
#[derive(Debug)]
pub struct Agent {
    /// The agent's identifier.
    pub id: AgentId,
    /// The handle that names the agent in logs.
    pub name: String,
    /// Role, model and tools.
    pub config: AgentConfig,
    /// The OS process id while the agent executes.
    pub current_pid: Option<u32>,
}

/// The mathematical content of an `Agent`.
pub struct AgentView {
    pub id: AgentId,
    pub name: Seq<char>,
    pub config: ConfigView,
    pub current_pid: Option<u32>,
}

impl View for Agent {
    type V = AgentView;

    open spec fn view(&self) -> AgentView {
        AgentView { id: self.id, name: self.name@, config: self.config@, current_pid: self.current_pid }
    }
}

/// A newly created agent: the given identity and configuration, no process.
pub open spec fn fresh_agent(id: AgentId, name: Seq<char>, config: ConfigView) -> AgentView {
    AgentView { id, name, config, current_pid: None }
}

impl Agent {
    /// Creates an agent with a fresh random version-4 identifier.
    pub fn new(name: &str, config: AgentConfig) -> (r: Self)
        ensures
            r@ == fresh_agent(r.id, name@, config@),
            has_v4_layout(r.id),
    {
        Agent { id: random_v4(), name: String::from_str(name), config, current_pid: None }
    }

    /// A copy of this agent.
    pub fn duplicate(&self) -> (r: Self)
        ensures
            r@ == self@,
    {
        Agent {
            id: self.id,
            name: self.name.clone(),
            config: self.config.duplicate(),
            current_pid: self.current_pid,
        }
    }
}

} // verus!
