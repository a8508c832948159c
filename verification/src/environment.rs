//! Environments: the isolone (one agent) and the commune (many agents), and
//! how agents enter and leave them.

use vstd::prelude::*;
use std::collections::HashMap;
use crate::agent::{Agent, AgentConfig, AgentView, fresh_agent};
use crate::ids::{AgentId, EnvId, has_v4_layout, random_v4};
use crate::limits::{LimitsView, ResourceLimits};

verus! {

broadcast use vstd::std_specs::hash::group_hash_axioms;

/// Why an agent could not enter or leave an environment.
#[derive(Debug, PartialEq, Eq, Structural)]
pub enum EnvError {
    /// The environment holds as many agents as it may.
    CapacityExceeded,
    /// No agent with that identifier lives in the environment.
    AgentNotFound,
}

/// What every environment offers the control plane.
pub trait Environment {
    /// The environment's identifier.
    fn id(&self) -> EnvId;

    /// Brings a new agent into the environment.
    fn spawn_agent(&mut self, name: &str, config: AgentConfig) -> Result<AgentId, EnvError>;

    /// Removes an agent from the environment.
    fn terminate_agent(&mut self, id: AgentId) -> Result<(), EnvError>;

    /// The environment's resource limits.
    fn resource_limits(&self) -> &ResourceLimits;
}

/// An isolated environment for a single agent.
pub struct Isolone {
    /// The environment's identifier.
    pub id: EnvId,
    /// The purpose of the environment.
    pub goal: String,
    /// The resource limits of the environment.
    pub limits: ResourceLimits,
    /// The one agent, if it lives.
    pub agent: Option<Agent>,
}

/// The mathematical content of an `Isolone`.
pub struct IsoloneView {
    pub id: EnvId,
    pub goal: Seq<char>,
    pub limits: LimitsView,
    pub agent: Option<AgentView>,
}

/// The view of an optional agent.
pub open spec fn opt_agent_view(a: Option<Agent>) -> Option<AgentView> {
    match a {
        Some(a) => Some(a@),
        None => None,
    }
}

impl View for Isolone {
    type V = IsoloneView;

    open spec fn view(&self) -> IsoloneView {
        IsoloneView {
            id: self.id,
            goal: self.goal@,
            limits: self.limits@,
            agent: opt_agent_view(self.agent),
        }
    }
}

/// An isolone after agent `a` asks to enter: refused while another agent lives.
pub open spec fn isolone_spawn(v: IsoloneView, a: AgentView) -> Result<IsoloneView, EnvError> {
    if v.agent is Some {
        Err(EnvError::CapacityExceeded)
    } else {
        Ok(IsoloneView { agent: Some(a), ..v })
    }
}

/// An isolone after agent `id` is terminated: only its own agent can be.
pub open spec fn isolone_terminate(v: IsoloneView, id: AgentId) -> Result<IsoloneView, EnvError> {
    match v.agent {
        Some(a) => if a.id == id {
            Ok(IsoloneView { agent: None, ..v })
        } else {
            Err(EnvError::AgentNotFound)
        },
        None => Err(EnvError::AgentNotFound),
    }
}

impl Isolone {
    /// A new empty isolone with a fresh random identifier.
    pub fn new(goal: &str, limits: ResourceLimits) -> (r: Self)
        ensures
            has_v4_layout(r.id),
            r@.goal == goal@,
            r@.limits == limits@,
            r@.agent is None,
    {
        Isolone { id: random_v4(), goal: String::from_str(goal), limits, agent: None }
    }
}

impl Environment for Isolone {
    fn id(&self) -> (r: EnvId)
        ensures
            r == self.id,
    {
        self.id
    }

    fn spawn_agent(&mut self, name: &str, config: AgentConfig) -> (r: Result<AgentId, EnvError>)
        ensures
            match r {
                Ok(id) => has_v4_layout(id) && isolone_spawn(
                    old(self)@,
                    fresh_agent(id, name@, config@),
                ) == Ok::<IsoloneView, EnvError>(final(self)@),
                Err(e) => old(self)@.agent is Some && e == EnvError::CapacityExceeded
                    && final(self)@ == old(self)@,
            },
    {
        if self.agent.is_some() {
            return Err(EnvError::CapacityExceeded);
        }
        let new_agent = Agent::new(name, config);
        let id = new_agent.id;
        self.agent = Some(new_agent);
        Ok(id)
    }

    fn terminate_agent(&mut self, id: AgentId) -> (r: Result<(), EnvError>)
        ensures
            match isolone_terminate(old(self)@, id) {
                Ok(w) => r is Ok && final(self)@ == w,
                Err(e) => r == Err::<(), EnvError>(e) && final(self)@ == old(self)@,
            },
    {
        let matches = match &self.agent {
            Some(a) => a.id == id,
            None => false,
        };
        if matches {
            self.agent = None;
            Ok(())
        } else {
            Err(EnvError::AgentNotFound)
        }
    }

    fn resource_limits(&self) -> (r: &ResourceLimits)
        ensures
            r@ == self.limits@,
    {
        &self.limits
    }
}

/// A shared environment hosting many agents, one of them its leader.
pub struct Commune {
    /// The environment's identifier.
    pub id: EnvId,
    /// The collective objective.
    pub goal: String,
    /// The collective resource limits.
    pub limits: ResourceLimits,
    /// The leader, once one is assigned.
    pub leader_id: Option<AgentId>,
    /// The living agents, by identifier.
    pub agents: HashMap<AgentId, Agent>,
}

/// The mathematical content of a `Commune`.
pub struct CommuneView {
    pub id: EnvId,
    pub goal: Seq<char>,
    pub limits: LimitsView,
    pub leader_id: Option<AgentId>,
    pub agents: Map<AgentId, AgentView>,
}

/// The views of the agents of a map.
pub open spec fn agents_view(m: Map<AgentId, Agent>) -> Map<AgentId, AgentView> {
    m.map_values(|a: Agent| a@)
}

impl View for Commune {
    type V = CommuneView;

    open spec fn view(&self) -> CommuneView {
        CommuneView {
            id: self.id,
            goal: self.goal@,
            limits: self.limits@,
            leader_id: self.leader_id,
            agents: agents_view(self.agents@),
        }
    }
}

/// A commune after agent `a` enters.
pub open spec fn commune_spawn(v: CommuneView, a: AgentView) -> CommuneView {
    CommuneView { agents: v.agents.insert(a.id, a), ..v }
}

/// A commune after agent `id` is terminated: refused where no such agent lives.
pub open spec fn commune_terminate(v: CommuneView, id: AgentId) -> Result<CommuneView, EnvError> {
    if v.agents.contains_key(id) {
        Ok(CommuneView { agents: v.agents.remove(id), ..v })
    } else {
        Err(EnvError::AgentNotFound)
    }
}

impl Commune {
    /// A new commune with a fresh random identifier, no agents and no leader.
    pub fn new(goal: &str, limits: ResourceLimits) -> (r: Self)
        ensures
            has_v4_layout(r.id),
            r@.goal == goal@,
            r@.limits == limits@,
            r@.leader_id is None,
            r@.agents == Map::<AgentId, AgentView>::empty(),
    {
        let r = Commune {
            id: random_v4(),
            goal: String::from_str(goal),
            limits,
            leader_id: None,
            agents: HashMap::new(),
        };
        assert(r@.agents =~= Map::<AgentId, AgentView>::empty());
        r
    }

    /// Places `agent` among the commune's agents, under its identifier.
    pub fn place_agent(&mut self, agent: Agent)
        ensures
            final(self)@ == commune_spawn(old(self)@, agent@),
    {
        let ghost a = agent@;
        self.agents.insert(agent.id, agent);
        assert(final(self)@.agents =~= old(self)@.agents.insert(a.id, a));
    }
}

impl Environment for Commune {
    fn id(&self) -> (r: EnvId)
        ensures
            r == self.id,
    {
        self.id
    }

    fn spawn_agent(&mut self, name: &str, config: AgentConfig) -> (r: Result<AgentId, EnvError>)
        ensures
            match r {
                Ok(id) => has_v4_layout(id) && final(self)@ == commune_spawn(
                    old(self)@,
                    fresh_agent(id, name@, config@),
                ),
                Err(_) => false,
            },
    {
        let new_agent = Agent::new(name, config);
        let id = new_agent.id;
        self.place_agent(new_agent);
        Ok(id)
    }

    fn terminate_agent(&mut self, id: AgentId) -> (r: Result<(), EnvError>)
        ensures
            match commune_terminate(old(self)@, id) {
                Ok(w) => r is Ok && final(self)@ == w,
                Err(e) => r == Err::<(), EnvError>(e) && final(self)@ == old(self)@,
            },
    {
        let removed = self.agents.remove(&id);
        if removed.is_some() {
            assert(final(self)@.agents =~= old(self)@.agents.remove(id));
            Ok(())
        } else {
            assert(final(self)@.agents =~= old(self)@.agents);
            Err(EnvError::AgentNotFound)
        }
    }

    fn resource_limits(&self) -> (r: &ResourceLimits)
        ensures
            r@ == self.limits@,
    {
        &self.limits
    }
}

/// An isolone holds at most one agent: while one lives, any other is refused.
pub proof fn law_isolone_refuses_second(v: IsoloneView, a: AgentView)
    requires
        v.agent is Some,
    ensures
        isolone_spawn(v, a) == Err::<IsoloneView, EnvError>(EnvError::CapacityExceeded),
{
}

/// Terminating the agent just spawned into an empty isolone gives the isolone back.
pub proof fn law_isolone_spawn_then_terminate(v: IsoloneView, a: AgentView)
    requires
        v.agent is None,
    ensures
        isolone_spawn(v, a) is Ok,
        isolone_terminate(isolone_spawn(v, a)->Ok_0, a.id) == Ok::<IsoloneView, EnvError>(v),
{
}

/// Terminating the agent just spawned into a commune gives the commune back,
/// where no agent with that identifier lived before.
pub proof fn law_commune_spawn_then_terminate(v: CommuneView, a: AgentView)
    requires
        !v.agents.contains_key(a.id),
    ensures
        commune_terminate(commune_spawn(v, a), a.id) == Ok::<CommuneView, EnvError>(v),
{
    assert(v.agents.insert(a.id, a).remove(a.id) =~= v.agents);
}

/// A newly spawned agent lives in the commune under its identifier, and the
/// commune holds one agent more where the identifier was new.
pub proof fn law_commune_spawn_adds(v: CommuneView, a: AgentView)
    requires
        v.agents.dom().finite(),
    ensures
        commune_spawn(v, a).agents.contains_key(a.id),
        commune_spawn(v, a).agents[a.id] == a,
        !v.agents.contains_key(a.id) ==> commune_spawn(v, a).agents.len() == v.agents.len() + 1,
{
}

/// An agent can be terminated only once.
pub proof fn law_commune_terminate_once(v: CommuneView, id: AgentId)
    requires
        commune_terminate(v, id) is Ok,
    ensures
        commune_terminate(commune_terminate(v, id)->Ok_0, id) == Err::<CommuneView, EnvError>(
            EnvError::AgentNotFound,
        ),
{
}

/// Agents coming and going never change an environment's identity, goal or limits.
pub proof fn law_membership_keeps_identity(
    iv: IsoloneView,
    cv: CommuneView,
    a: AgentView,
    id: AgentId,
)
    ensures
        isolone_spawn(iv, a) matches Ok(w) ==> w.id == iv.id && w.goal == iv.goal && w.limits
            == iv.limits,
        isolone_terminate(iv, id) matches Ok(w) ==> w.id == iv.id && w.goal == iv.goal && w.limits
            == iv.limits,
        commune_spawn(cv, a).id == cv.id && commune_spawn(cv, a).goal == cv.goal && commune_spawn(
            cv,
            a,
        ).limits == cv.limits && commune_spawn(cv, a).leader_id == cv.leader_id,
        commune_terminate(cv, id) matches Ok(w) ==> w.id == cv.id && w.goal == cv.goal && w.limits
            == cv.limits && w.leader_id == cv.leader_id,
{
}

} // verus!
