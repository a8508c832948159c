//! The reasoning loop of an environment, as a state machine: each tick builds
//! the context for the reasoning engine, then reads what the engine answered,
//! decides what is reported and whether the environment's work is done, and
//! keeps the agent's recent observations.
//!
//! The caller waits between ticks, calls the engine and runs tools; every
//! decision is taken here.

use vstd::prelude::*;
use crate::error::{DaemonError, DaemonErrorView, DaemonResult, error_text};
use crate::ids::AgentId;
use crate::limits::{LimitsView, strs_view};
use crate::prompt::{
    AgentContext, EVALUATOR_SYSTEM_INSTRUCTION, MASTER_SYSTEM_INSTRUCTION, ToolCallRequest,
    goal_heading, goal_prompt, parse_evaluation,
    parse_finish, parse_plan, spec_goal_prompt, spec_parse_evaluation, spec_parse_finish,
    spec_parse_plan,
};
use crate::registry::{ActiveEnv, active_limits};
use crate::text::{chars_of, contains_seq, find_from_exec, join_strings, join_with, lemma_occurrence_has_first, occurs_at};

verus! {

/// The phase of an environment's work.
#[derive(Debug, PartialEq, Eq, Structural, Clone, Copy)]
pub enum LoopPhase {
    /// The agent works towards its goal.
    Executing,
    /// The auditor checks the agent's finished work.
    Evaluating,
}

/// An event reported to the environment's observers.
#[derive(Debug, Clone)]
pub struct TelemetryEvent {
    pub event_type: String,
    pub content: String,
    pub agent_name: String,
}

/// The mathematical content of a `TelemetryEvent`.
pub struct EventView {
    pub event_type: Seq<char>,
    pub content: Seq<char>,
    pub agent_name: Seq<char>,
}

impl View for TelemetryEvent {
    type V = EventView;

    open spec fn view(&self) -> EventView {
        EventView { event_type: self.event_type@, content: self.content@, agent_name: self.agent_name@ }
    }
}

/// An event with the given type, content and source.
pub open spec fn event(event_type: Seq<char>, content: Seq<char>, agent_name: Seq<char>) -> EventView {
    EventView { event_type, content, agent_name }
}

/// The views of a list of events.
pub open spec fn events_view(v: Seq<TelemetryEvent>) -> Seq<EventView> {
    v.map_values(|e: TelemetryEvent| e@)
}

fn make_event(event_type: &str, content: String, agent_name: &str) -> (r: TelemetryEvent)
    ensures
        r@ == event(event_type@, content@, agent_name@),
{
    TelemetryEvent {
        event_type: String::from_str(event_type),
        content,
        agent_name: String::from_str(agent_name),
    }
}

/// The event sent where observers fell behind and lost events.
pub fn lagged_event() -> (r: TelemetryEvent)
    ensures
        r@ == event("System"@, "Telemetry stream lagged (messages dropped)"@, "Control Plane"@),
{
    make_event("System", String::from_str("Telemetry stream lagged (messages dropped)"), "Control Plane")
}

/// What the loop does after a reply has been read.
#[derive(Debug, PartialEq, Eq, Structural, Clone, Copy)]
pub enum TickFlow {
    /// Finish the tick as usual, trimming the observations.
    Proceed,
    /// Start the next tick at once, without trimming.
    Continue,
    /// The work is approved: remove the environment and stop.
    Shutdown,
}

/// The state of an environment's reasoning loop.
pub struct CognitiveLoop {
    /// What the agent has seen recently, oldest first.
    pub observations: Vec<String>,
    /// The phase of the work.
    pub phase: LoopPhase,
    /// Whether the agent has stated its plan.
    pub plan_submitted: bool,
}

/// The mathematical content of a `CognitiveLoop`.
pub struct LoopView {
    pub observations: Seq<Seq<char>>,
    pub phase: LoopPhase,
    pub plan_submitted: bool,
}

impl View for CognitiveLoop {
    type V = LoopView;

    open spec fn view(&self) -> LoopView {
        LoopView {
            observations: strs_view(self.observations@),
            phase: self.phase,
            plan_submitted: self.plan_submitted,
        }
    }
}

/// The first observation of every environment.
pub open spec fn initial_observation() -> Seq<char> {
    "System Snapshot: Enversal OS Environment Initialized. Sandbox is active. Filesystem is ready. Tools available: sandbox_exec, provision_env, git_clone, npm_install."@
}

/// The paths of a snapshot, joined; `None` where that gives no text.
pub open spec fn path_listing(paths: Seq<Seq<char>>) -> Seq<char> {
    if join_with(paths, ", "@).len() == 0 {
        "None"@
    } else {
        join_with(paths, ", "@)
    }
}

/// The snapshot of an environment that replaces the first observation: its
/// readable and writable paths, and the tools.
pub open spec fn snapshot_text(l: LimitsView) -> Seq<char> {
    "System Snapshot: Enversal OS Environment Initialized. Sandbox is active. Filesystem is ready. READ ACCESS: ["@
        + path_listing(l.allowed_read_paths) + "] | WRITE ACCESS: ["@ + path_listing(
        l.allowed_write_paths,
    ) + "] | Tools available: sandbox_exec, provision_env, git_clone, npm_install."@
}

/// The observations once the snapshot is in: it replaces the first, generic
/// observation while that is the only one.
pub open spec fn with_snapshot(obs: Seq<Seq<char>>, snapshot: Seq<char>) -> Seq<Seq<char>> {
    if obs.len() == 1 && contains_seq(obs[0], "Environment Initialized"@) {
        seq![snapshot]
    } else {
        obs
    }
}

/// The model that reasons for an environment: its agent's, or its leader's,
/// else a default.
pub open spec fn context_model(e: ActiveEnv) -> Seq<char> {
    match e {
        ActiveEnv::Isolone(i) => match i@.agent {
            Some(a) => a.config.model,
            None => "gemini-2.1-flash"@,
        },
        ActiveEnv::Commune(c) => match c@.leader_id {
            Some(l) => if c@.agents.contains_key(l) {
                c@.agents[l].config.model
            } else {
                "gemini-2.1-flash"@
            },
            None => "gemini-2.1-flash"@,
        },
    }
}

/// The goal of an environment.
pub open spec fn env_goal(e: ActiveEnv) -> Seq<char> {
    match e {
        ActiveEnv::Isolone(i) => i.goal@,
        ActiveEnv::Commune(c) => c.goal@,
    }
}

/// The system prompt of a phase: the auditor's instruction while evaluating,
/// else the master instruction with the environment's goal.
pub open spec fn context_prompt(phase: LoopPhase, e: ActiveEnv) -> Seq<char> {
    if phase == LoopPhase::Evaluating {
        EVALUATOR_SYSTEM_INSTRUCTION@
    } else {
        spec_goal_prompt(env_goal(e))
    }
}

/// The identifier under which an environment's agent acts: the isolone's own
/// identifier; a commune's leader, or the commune's own identifier where it
/// has no leader.
pub open spec fn acting_id(e: ActiveEnv) -> AgentId {
    match e {
        ActiveEnv::Isolone(i) => i.id,
        ActiveEnv::Commune(c) => match c@.leader_id {
            Some(l) => l,
            None => c.id,
        },
    }
}

/// The context is the one for environment `e` in state `s`: the identifier
/// under which its agent acts, the model, the prompt of the phase, and the
/// observations as they were.
pub open spec fn is_context_for(ctx: AgentContext, s: LoopView, e: ActiveEnv) -> bool {
    &&& ctx.agent_id == acting_id(e)
    &&& ctx.model@ == context_model(e)
    &&& ctx.system_prompt@ == context_prompt(s.phase, e)
    &&& strs_view(ctx.recent_observations@) == s.observations
}

/// The role that speaks in a phase.
pub open spec fn role_label(phase: LoopPhase) -> Seq<char> {
    if phase == LoopPhase::Evaluating {
        "Auditor"@
    } else {
        "Agent"@
    }
}

/// The reminder given to an agent that has not stated a plan.
pub open spec fn plan_reminder() -> Seq<char> {
    "System: Please provide your <plan> before taking actions."@
}

/// The step that the loop takes on a message: the new state, the events
/// reported, and how the tick goes on.
///
/// The message is recorded; while executing, a first plan is taken note of
/// (or asked for), and a final report moves the work to evaluation; while
/// evaluating, an approval ends the work and a rejection sends it back with
/// the auditor's reason.
pub open spec fn message_step(s: LoopView, msg: Seq<char>) -> (LoopView, Seq<EventView>, TickFlow) {
    let ev1 = event("Reasoning"@, msg, role_label(s.phase));
    let obs1 = s.observations.push("Self: "@ + msg);
    let (obs2, plan2, evs2) = if s.phase == LoopPhase::Executing && !s.plan_submitted {
        match spec_parse_plan(msg) {
            Some(p) => (obs1, true, seq![ev1, event("Plan"@, p, "Agent"@)]),
            None => (obs1.push(plan_reminder()), false, seq![ev1]),
        }
    } else {
        (obs1, s.plan_submitted, seq![ev1])
    };
    if s.phase == LoopPhase::Executing {
        match spec_parse_finish(msg) {
            Some(report) => (
                LoopView {
                    observations: obs2.push("Final Report: "@ + report),
                    phase: LoopPhase::Evaluating,
                    plan_submitted: plan2,
                },
                evs2.push(
                    event(
                        "System"@,
                        "Agent finished work. Transitioning to EVALUATION phase."@,
                        "Control Plane"@,
                    ),
                ),
                TickFlow::Continue,
            ),
            None => (
                LoopView { observations: obs2, phase: s.phase, plan_submitted: plan2 },
                evs2,
                TickFlow::Proceed,
            ),
        }
    } else {
        match spec_parse_evaluation(msg) {
            Some(Ok(_)) => (
                LoopView { observations: obs2, phase: s.phase, plan_submitted: plan2 },
                evs2.push(
                    event(
                        "System"@,
                        "Auditor approved the task. Shutting down environment as requested."@,
                        "Control Plane"@,
                    ),
                ),
                TickFlow::Shutdown,
            ),
            Some(Err(reason)) => (
                LoopView {
                    observations: obs2.push("Auditor Correction: "@ + reason),
                    phase: LoopPhase::Executing,
                    plan_submitted: plan2,
                },
                evs2.push(event("System"@, "Auditor REJECTED task: "@ + reason, "Control Plane"@)),
                TickFlow::Continue,
            ),
            None => (
                LoopView { observations: obs2, phase: s.phase, plan_submitted: plan2 },
                evs2,
                TickFlow::Proceed,
            ),
        }
    }
}

/// The observations once a tick ends: the oldest is dropped where there are
/// more than ten.
pub open spec fn trimmed_window(obs: Seq<Seq<char>>) -> Seq<Seq<char>> {
    if obs.len() > 10 {
        obs.remove(0)
    } else {
        obs
    }
}

/// The observation that records a tool's result.
pub open spec fn tool_observation(name: Seq<char>, result: Result<Seq<char>, DaemonErrorView>) -> Seq<char> {
    match result {
        Ok(out) => "Tool result ("@ + name + "): "@ + out,
        Err(e) => "Tool ERROR ("@ + name + "): "@ + error_text(e),
    }
}

/// The event that reports a tool's result.
pub open spec fn tool_event(result: Result<Seq<char>, DaemonErrorView>) -> EventView {
    match result {
        Ok(out) => event("Tool Result"@, out, "OS"@),
        Err(e) => event("Error"@, error_text(e), "OS"@),
    }
}

fn concat3(a: &str, b: &str, c: &str) -> (r: String)
    ensures
        r@ == a@ + b@ + c@,
{
    let mut r = String::from_str(a);
    r.append(b);
    r.append(c);
    r
}

fn prefixed(p: &str, b: &str) -> (r: String)
    ensures
        r@ == p@ + b@,
{
    let mut r = String::from_str(p);
    r.append(b);
    r
}

impl CognitiveLoop {
    /// A loop at its start: the generic snapshot as the only observation,
    /// executing, no plan yet.
    pub fn new() -> (r: Self)
        ensures
            r@ == (LoopView {
                observations: seq![initial_observation()],
                phase: LoopPhase::Executing,
                plan_submitted: false,
            }),
    {
        let mut observations: Vec<String> = Vec::new();
        observations.push(String::from_str(
            "System Snapshot: Enversal OS Environment Initialized. Sandbox is active. Filesystem is ready. Tools available: sandbox_exec, provision_env, git_clone, npm_install.",
        ));
        let r = CognitiveLoop { observations, phase: LoopPhase::Executing, plan_submitted: false };
        assert(r@.observations =~= seq![initial_observation()]);
        r
    }

    /// The role that speaks now: the auditor while evaluating, else the agent.
    pub fn role(&self) -> (r: &'static str)
        ensures
            r@ == role_label(self.phase),
    {
        if self.phase == LoopPhase::Evaluating {
            "Auditor"
        } else {
            "Agent"
        }
    }

    /// Starts a tick on the environment as it now is: the context for the
    /// reasoning engine, built from the observations as they were; and, on
    /// the first tick, the snapshot of the environment put in place of the
    /// generic first observation. `None` where the environment is gone, and
    /// then nothing changes.
    pub fn begin_tick(&mut self, env: Option<&ActiveEnv>) -> (r: Option<AgentContext>)
        ensures
            match env {
                None => r is None && final(self)@ == old(self)@,
                Some(e) => r matches Some(ctx) && is_context_for(ctx, old(self)@, *e) && final(self)@
                    == (LoopView {
                    observations: with_snapshot(
                        old(self)@.observations,
                        snapshot_text(active_limits(*e)),
                    ),
                    ..old(self)@
                }),
            },
    {
        let e = match env {
            Some(e) => e,
            None => {
                return None;
            },
        };
        let limits = e.limits();
        let reads = join_strings(&limits.allowed_read_paths, ", ");
        let writes = join_strings(&limits.allowed_write_paths, ", ");
        let mut snapshot = String::from_str(
            "System Snapshot: Enversal OS Environment Initialized. Sandbox is active. Filesystem is ready. READ ACCESS: [",
        );
        if reads.unicode_len() == 0 {
            snapshot.append("None");
        } else {
            snapshot.append(reads.as_str());
        }
        snapshot.append("] | WRITE ACCESS: [");
        if writes.unicode_len() == 0 {
            snapshot.append("None");
        } else {
            snapshot.append(writes.as_str());
        }
        snapshot.append("] | Tools available: sandbox_exec, provision_env, git_clone, npm_install.");
        assert(snapshot@ =~= snapshot_text(active_limits(*e)));
        let system_prompt = if self.phase == LoopPhase::Evaluating {
            String::from_str(EVALUATOR_SYSTEM_INSTRUCTION)
        } else {
            match e {
                ActiveEnv::Isolone(i) => goal_prompt(i.goal.as_str()),
                ActiveEnv::Commune(c) => goal_prompt(c.goal.as_str()),
            }
        };
        let observations = self.observations.clone();
        assert(observations@ =~= self.observations@);
        let ctx = match e {
            ActiveEnv::Isolone(i) => {
                let model = match &i.agent {
                    Some(a) => {
                        assert(i@.agent == Some(a@));
                        a.config.model.clone()
                    },
                    None => String::from_str("gemini-2.1-flash"),
                };
                AgentContext { agent_id: i.id, model, system_prompt, recent_observations: observations }
            },
            ActiveEnv::Commune(c) => {
                let model = match c.leader_id {
                    Some(l) => match c.agents.get(&l) {
                        Some(a) => {
                            assert(c@.agents.contains_key(l) && c@.agents[l] == a@);
                            a.config.model.clone()
                        },
                        None => {
                            assert(!c@.agents.contains_key(l));
                            String::from_str("gemini-2.1-flash")
                        },
                    },
                    None => String::from_str("gemini-2.1-flash"),
                };
                let agent_id = match c.leader_id {
                    Some(l) => l,
                    None => c.id,
                };
                AgentContext { agent_id, model, system_prompt, recent_observations: observations }
            },
        };
        if self.observations.len() == 1 {
            let first = chars_of(self.observations[0].as_str());
            let tag = chars_of("Environment Initialized");
            match find_from_exec(&first, &tag, 0) {
                Some(i) => {
                    assert(occurs_at(first@, tag@, i as int));
                    let mut obs: Vec<String> = Vec::new();
                    obs.push(snapshot);
                    self.observations = obs;
                    assert(self@.observations =~= seq![snapshot_text(active_limits(*e))]);
                },
                None => {
                    proof {
                        if contains_seq(first@, tag@) {
                            let k = choose|k: int| occurs_at(first@, tag@, k);
                            lemma_occurrence_has_first(first@, tag@, 0, k);
                        }
                    }
                },
            }
        }
        Some(ctx)
    }

    /// Reads a message of the reasoning engine: the new state, the events to
    /// report, and how the tick goes on, as `message_step` says.
    pub fn on_message(&mut self, msg: &str) -> (r: (Vec<TelemetryEvent>, TickFlow))
        ensures
            ({
                let (s2, evs, flow) = message_step(old(self)@, msg@);
                &&& final(self)@ == s2
                &&& events_view(r.0@) == evs
                &&& r.1 == flow
            }),
    {
        let ghost s0 = self@;
        let role = self.role();
        let mut events: Vec<TelemetryEvent> = Vec::new();
        events.push(make_event("Reasoning", String::from_str(msg), role));
        self.observations.push(prefixed("Self: ", msg));
        if self.phase == LoopPhase::Executing && !self.plan_submitted {
            match parse_plan(msg) {
                Some(plan) => {
                    events.push(make_event("Plan", plan, "Agent"));
                    self.plan_submitted = true;
                },
                None => {
                    self.observations.push(
                        String::from_str("System: Please provide your <plan> before taking actions."),
                    );
                },
            }
        }
        if self.phase == LoopPhase::Executing {
            match parse_finish(msg) {
                Some(report) => {
                    self.observations.push(prefixed("Final Report: ", report.as_str()));
                    self.phase = LoopPhase::Evaluating;
                    events.push(make_event(
                        "System",
                        String::from_str("Agent finished work. Transitioning to EVALUATION phase."),
                        "Control Plane",
                    ));
                    proof { self.lemma_step_matches(s0, msg@, TickFlow::Continue, events@); }
                    return (events, TickFlow::Continue);
                },
                None => {
                    proof { self.lemma_step_matches(s0, msg@, TickFlow::Proceed, events@); }
                    return (events, TickFlow::Proceed);
                },
            }
        }
        match parse_evaluation(msg) {
            Some(Ok(_)) => {
                events.push(make_event(
                    "System",
                    String::from_str("Auditor approved the task. Shutting down environment as requested."),
                    "Control Plane",
                ));
                proof { self.lemma_step_matches(s0, msg@, TickFlow::Shutdown, events@); }
                (events, TickFlow::Shutdown)
            },
            Some(Err(reason)) => {
                events.push(make_event("System", prefixed("Auditor REJECTED task: ", reason.as_str()), "Control Plane"));
                self.observations.push(prefixed("Auditor Correction: ", reason.as_str()));
                self.phase = LoopPhase::Executing;
                proof { self.lemma_step_matches(s0, msg@, TickFlow::Continue, events@); }
                (events, TickFlow::Continue)
            },
            None => {
                proof { self.lemma_step_matches(s0, msg@, TickFlow::Proceed, events@); }
                (events, TickFlow::Proceed)
            },
        }
    }

    proof fn lemma_step_matches(&self, s0: LoopView, msg: Seq<char>, flow: TickFlow, events: Seq<TelemetryEvent>)
        requires
            self@.observations =~= message_step(s0, msg).0.observations,
            self@.phase == message_step(s0, msg).0.phase,
            self@.plan_submitted == message_step(s0, msg).0.plan_submitted,
            events_view(events) =~= message_step(s0, msg).1,
            flow == message_step(s0, msg).2,
        ensures
            self@ == message_step(s0, msg).0,
            events_view(events) == message_step(s0, msg).1,
    {
    }

    /// The event that reports a tool call of the speaking role.
    pub fn tool_request_event(&self, call: &ToolCallRequest) -> (r: TelemetryEvent)
        ensures
            r@ == event(
                "Tool Request"@,
                "Tool: "@ + call.tool_name@ + " with args: "@ + call.arguments@,
                role_label(self.phase),
            ),
    {
        let mut content = String::from_str("Tool: ");
        content.append(call.tool_name.as_str());
        content.append(" with args: ");
        content.append(call.arguments.as_str());
        make_event("Tool Request", content, self.role())
    }

    /// Records a tool's result among the observations, and gives the event
    /// that reports it.
    pub fn on_tool_result(&mut self, name: &str, result: &DaemonResult<String>) -> (r: TelemetryEvent)
        ensures
            final(self)@ == (LoopView {
                observations: old(self)@.observations.push(tool_observation(name@, crate::tools::text_result_view_ref(result))),
                ..old(self)@
            }),
            r@ == tool_event(crate::tools::text_result_view_ref(result)),
    {
        match result {
            Ok(out) => {
                self.observations.push(concat3("Tool result (", name, "): ").concat(out.as_str()));
                assert(self@.observations =~= old(self)@.observations.push(
                    tool_observation(name@, crate::tools::text_result_view_ref(result)),
                ));
                make_event("Tool Result", out.clone(), "OS")
            },
            Err(e) => {
                let text = e.message();
                self.observations.push(concat3("Tool ERROR (", name, "): ").concat(text.as_str()));
                assert(self@.observations =~= old(self)@.observations.push(
                    tool_observation(name@, crate::tools::text_result_view_ref(result)),
                ));
                make_event("Error", text, "OS")
            },
        }
    }

    /// Records that the reasoning engine failed.
    pub fn on_reasoning_error(&mut self, error: &str)
        ensures
            final(self)@ == (LoopView {
                observations: old(self)@.observations.push("System Error: "@ + error@),
                ..old(self)@
            }),
    {
        self.observations.push(prefixed("System Error: ", error));
        assert(self@.observations =~= old(self)@.observations.push("System Error: "@ + error@));
    }

    /// Ends a tick: the oldest observation is dropped where there are more than ten.
    pub fn end_tick(&mut self)
        ensures
            final(self)@ == (LoopView { observations: trimmed_window(old(self)@.observations), ..old(self)@ }),
    {
        if self.observations.len() > 10 {
            let _ = self.observations.remove(0);
            assert(self@.observations =~= old(self)@.observations.remove(0));
        }
    }
}

/// A stated plan is never withdrawn.
pub proof fn law_plan_never_withdrawn(s: LoopView, msg: Seq<char>)
    ensures
        s.plan_submitted ==> message_step(s, msg).0.plan_submitted,
{
}

/// A plan is taken note of only while executing and only the first time, and
/// then it is reported.
pub proof fn law_plan_noted_once(s: LoopView, msg: Seq<char>)
    ensures
        (!s.plan_submitted && message_step(s, msg).0.plan_submitted) <==> (s.phase
            == LoopPhase::Executing && !s.plan_submitted && spec_parse_plan(msg) is Some),
        (!s.plan_submitted && message_step(s, msg).0.plan_submitted) ==> message_step(s, msg).1[1]
            == event("Plan"@, spec_parse_plan(msg)->0, "Agent"@),
{
}

/// The environment is shut down exactly when the auditor approves.
pub proof fn law_shutdown_only_on_approval(s: LoopView, msg: Seq<char>)
    ensures
        message_step(s, msg).2 == TickFlow::Shutdown <==> (s.phase == LoopPhase::Evaluating
            && spec_parse_evaluation(msg) matches Some(Ok(_))),
{
}

/// The phase moves to evaluation only on a final report while executing, and
/// back to execution only on a rejection while evaluating.
pub proof fn law_phase_changes(s: LoopView, msg: Seq<char>)
    ensures
        (s.phase == LoopPhase::Executing && message_step(s, msg).0.phase == LoopPhase::Evaluating)
            <==> (s.phase == LoopPhase::Executing && spec_parse_finish(msg) is Some),
        (s.phase == LoopPhase::Evaluating && message_step(s, msg).0.phase == LoopPhase::Executing)
            <==> (s.phase == LoopPhase::Evaluating && spec_parse_evaluation(msg) matches Some(Err(_))),
{
}

/// Every message is recorded after the observations that came before it, and
/// is reported first, by the role that speaks.
pub proof fn law_message_recorded(s: LoopView, msg: Seq<char>)
    ensures
        message_step(s, msg).0.observations.len() > s.observations.len(),
        message_step(s, msg).0.observations.take(s.observations.len() as int + 1) == s.observations.push(
            "Self: "@ + msg,
        ),
        message_step(s, msg).1.len() >= 1,
        message_step(s, msg).1[0] == event("Reasoning"@, msg, role_label(s.phase)),
{
    let s2 = message_step(s, msg).0;
    let n = s.observations.len();
    assert(s2.observations.take(n as int + 1) =~= s.observations.push("Self: "@ + msg));
}

/// The window of observations: a tick that ends with more than ten drops the
/// oldest and keeps the rest in order; otherwise it keeps them all.
pub proof fn law_window(obs: Seq<Seq<char>>)
    ensures
        obs.len() > 10 ==> trimmed_window(obs) == obs.subrange(1, obs.len() as int),
        obs.len() <= 10 ==> trimmed_window(obs) == obs,
{
    if obs.len() > 10 {
        assert(obs.remove(0) =~= obs.subrange(1, obs.len() as int));
    }
}

/// The number of plan events in `evs`.
pub open spec fn plan_events(evs: Seq<EventView>) -> nat
    decreases evs.len(),
{
    if evs.len() == 0 {
        0
    } else {
        plan_events(evs.drop_last()) + if evs.last().event_type == "Plan"@ {
            1nat
        } else {
            0nat
        }
    }
}

/// The state after the loop reads `msgs` in turn from `s`, and every event
/// reported on the way, in order.
pub open spec fn run_messages(s: LoopView, msgs: Seq<Seq<char>>) -> (LoopView, Seq<EventView>)
    decreases msgs.len(),
{
    if msgs.len() == 0 {
        (s, Seq::empty())
    } else {
        let before = run_messages(s, msgs.drop_last());
        let step = message_step(before.0, msgs.last());
        (step.0, before.1 + step.1)
    }
}

proof fn lemma_plan_events_concat(a: Seq<EventView>, b: Seq<EventView>)
    ensures
        plan_events(a + b) == plan_events(a) + plan_events(b),
    decreases b.len(),
{
    if b.len() > 0 {
        assert((a + b).drop_last() =~= a + b.drop_last());
        lemma_plan_events_concat(a, b.drop_last());
    } else {
        assert(a + b =~= a);
    }
}

proof fn lemma_plan_events_push(x: Seq<EventView>, a: EventView)
    ensures
        plan_events(x.push(a)) == plan_events(x) + if a.event_type == "Plan"@ {
            1nat
        } else {
            0nat
        },
{
    assert(x.push(a).drop_last() =~= x);
}

proof fn lemma_plan_events_step(s: LoopView, msg: Seq<char>)
    ensures
        plan_events(message_step(s, msg).1) == if !s.plan_submitted && message_step(
            s,
            msg,
        ).0.plan_submitted {
            1nat
        } else {
            0nat
        },
{
    reveal_strlit("Plan");
    reveal_strlit("Reasoning");
    reveal_strlit("System");
    assert("Reasoning"@ != "Plan"@) by {
        assert("Reasoning"@[0] != "Plan"@[0]);
    }
    assert("System"@ != "Plan"@) by {
        assert("System"@[0] != "Plan"@[0]);
    }
    let ev1 = event("Reasoning"@, msg, role_label(s.phase));
    let empty = Seq::<EventView>::empty();
    assert(plan_events(empty) == 0);
    lemma_plan_events_push(empty, ev1);
    assert(empty.push(ev1) =~= seq![ev1]);
    let first_plan = s.phase == LoopPhase::Executing && !s.plan_submitted && spec_parse_plan(msg) is Some;
    let evs2 = if first_plan {
        seq![ev1, event("Plan"@, spec_parse_plan(msg)->0, "Agent"@)]
    } else {
        seq![ev1]
    };
    if first_plan {
        lemma_plan_events_push(seq![ev1], event("Plan"@, spec_parse_plan(msg)->0, "Agent"@));
        assert(seq![ev1].push(event("Plan"@, spec_parse_plan(msg)->0, "Agent"@)) =~= evs2);
    }
    assert(plan_events(evs2) == if first_plan { 1nat } else { 0nat });
    let sys1 = event(
        "System"@,
        "Agent finished work. Transitioning to EVALUATION phase."@,
        "Control Plane"@,
    );
    let sys2 = event(
        "System"@,
        "Auditor approved the task. Shutting down environment as requested."@,
        "Control Plane"@,
    );
    lemma_plan_events_push(evs2, sys1);
    lemma_plan_events_push(evs2, sys2);
    if s.phase == LoopPhase::Evaluating {
        match spec_parse_evaluation(msg) {
            Some(Err(reason)) => {
                lemma_plan_events_push(
                    evs2,
                    event("System"@, "Auditor REJECTED task: "@ + reason, "Control Plane"@),
                );
            },
            _ => {},
        }
    }
}

/// Over any run of messages, the plan is reported exactly once where it is
/// first stated during the run, and never otherwise; a stated plan stays
/// stated.
pub proof fn law_plan_reported_once(s: LoopView, msgs: Seq<Seq<char>>)
    ensures
        plan_events(run_messages(s, msgs).1) == if !s.plan_submitted && run_messages(
            s,
            msgs,
        ).0.plan_submitted {
            1nat
        } else {
            0nat
        },
        s.plan_submitted ==> run_messages(s, msgs).0.plan_submitted,
    decreases msgs.len(),
{
    if msgs.len() > 0 {
        let before = run_messages(s, msgs.drop_last());
        law_plan_reported_once(s, msgs.drop_last());
        lemma_plan_events_step(before.0, msgs.last());
        lemma_plan_events_concat(before.1, message_step(before.0, msgs.last()).1);
        law_plan_never_withdrawn(before.0, msgs.last());
    } else {
        assert(plan_events(Seq::<EventView>::empty()) == 0);
    }
}

/// Until the agent states a plan, a message that neither states a plan nor
/// finishes the work is reported as the agent's reasoning and is followed by
/// the reminder to state a plan; once the plan is stated, no reminder is
/// added again and no plan is reported again.
pub proof fn law_reminder_until_plan(s: LoopView, msg: Seq<char>)
    ensures
        (s.phase == LoopPhase::Executing && !s.plan_submitted && spec_parse_plan(msg) is None
            && spec_parse_finish(msg) is None) ==> message_step(s, msg) == (
            LoopView {
                observations: s.observations.push("Self: "@ + msg).push(plan_reminder()),
                ..s
            },
            seq![event("Reasoning"@, msg, "Agent"@)],
            TickFlow::Proceed,
        ),
        s.plan_submitted ==> message_step(s, msg).0.plan_submitted,
        s.plan_submitted ==> plan_events(message_step(s, msg).1) == 0,
        s.plan_submitted ==> forall|j: int|
            s.observations.len() <= j < message_step(s, msg).0.observations.len() ==> #[trigger] message_step(
                s,
                msg,
            ).0.observations[j] != plan_reminder(),
{
    lemma_plan_events_step(s, msg);
    reveal_strlit("System: Please provide your <plan> before taking actions.");
    reveal_strlit("Self: ");
    reveal_strlit("Final Report: ");
    reveal_strlit("Auditor Correction: ");
    if s.plan_submitted {
        let n = s.observations.len();
        let o = message_step(s, msg).0.observations;
        assert forall|j: int| n <= j < o.len() implies #[trigger] o[j] != plan_reminder() by {
            assert(o[j][1] != plan_reminder()[1] || o[j][0] != plan_reminder()[0]);
        }
    }
}

/// Once the plan is stated, a step keeps it stated and never adds the plan
/// reminder: every observation it adds differs from the reminder.
pub proof fn law_no_reminder_once_planned(s: LoopView, msg: Seq<char>)
    requires
        s.plan_submitted,
    ensures
        message_step(s, msg).0.plan_submitted,
        message_step(s, msg).0.observations.take(s.observations.len() as int) == s.observations,
        forall|j: int|
            s.observations.len() <= j < message_step(s, msg).0.observations.len() ==> #[trigger] message_step(
                s,
                msg,
            ).0.observations[j] != plan_reminder(),
{
    law_reminder_until_plan(s, msg);
    law_message_recorded(s, msg);
    let n = s.observations.len() as int;
    let o = message_step(s, msg).0.observations;
    assert(o.take(n) =~= o.take(n + 1).take(n));
    assert(s.observations.push("Self: "@ + msg).take(n) =~= s.observations);
}

/// Over any run of messages that starts with the plan stated, the
/// observations held before are kept, and no plan reminder is ever added.
pub proof fn law_no_reminder_after_plan(s: LoopView, msgs: Seq<Seq<char>>)
    requires
        s.plan_submitted,
    ensures
        run_messages(s, msgs).0.plan_submitted,
        run_messages(s, msgs).0.observations.len() >= s.observations.len(),
        run_messages(s, msgs).0.observations.take(s.observations.len() as int) == s.observations,
        forall|j: int|
            s.observations.len() <= j < run_messages(s, msgs).0.observations.len()
                ==> #[trigger] run_messages(s, msgs).0.observations[j] != plan_reminder(),
    decreases msgs.len(),
{
    if msgs.len() == 0 {
        assert(s.observations.take(s.observations.len() as int) =~= s.observations);
    } else {
        let before = run_messages(s, msgs.drop_last());
        law_no_reminder_after_plan(s, msgs.drop_last());
        law_no_reminder_once_planned(before.0, msgs.last());
        law_message_recorded(before.0, msgs.last());
        let n = s.observations.len() as int;
        let m = before.0.observations.len() as int;
        let o = run_messages(s, msgs).0.observations;
        assert(o == message_step(before.0, msgs.last()).0.observations);
        assert(o.take(n) =~= o.take(m).take(n));
        assert forall|j: int| n <= j < o.len() implies #[trigger] o[j] != plan_reminder() by {
            if j < m {
                assert(o[j] == o.take(m)[j]);
                assert(before.0.observations[j] != plan_reminder());
            } else {
                assert(message_step(before.0, msgs.last()).0.observations[j] != plan_reminder());
            }
        }
    }
}

/// A final report sends the next turn to the auditor, and the auditor's
/// rejection sends the turn after that back to the agent, under its goal,
/// with the auditor's reason as its latest observation; the environment
/// stays up throughout, and the rejection is reported.
pub proof fn law_report_then_rejection(
    s: LoopView,
    report_msg: Seq<char>,
    verdict_msg: Seq<char>,
    why: Seq<char>,
    e: ActiveEnv,
    audit_ctx: AgentContext,
    next_ctx: AgentContext,
)
    requires
        s.phase == LoopPhase::Executing,
        spec_parse_finish(report_msg) is Some,
        spec_parse_evaluation(verdict_msg) == Some(Err::<Seq<char>, Seq<char>>(why)),
        is_context_for(audit_ctx, message_step(s, report_msg).0, e),
        is_context_for(next_ctx, message_step(message_step(s, report_msg).0, verdict_msg).0, e),
    ensures
        message_step(s, report_msg).2 == TickFlow::Continue,
        audit_ctx.system_prompt@ == EVALUATOR_SYSTEM_INSTRUCTION@,
        message_step(message_step(s, report_msg).0, verdict_msg).2 == TickFlow::Continue,
        next_ctx.system_prompt@ == MASTER_SYSTEM_INSTRUCTION@ + goal_heading() + env_goal(e),
        strs_view(next_ctx.recent_observations@).last() == "Auditor Correction: "@ + why,
        message_step(message_step(s, report_msg).0, verdict_msg).1.last() == event(
            "System"@,
            "Auditor REJECTED task: "@ + why,
            "Control Plane"@,
        ),
{
}

/// Every context for an environment names the same acting agent, whatever
/// the loop's state: the tools' records under that identifier are found on
/// every later tick.
pub proof fn law_context_id_stable(
    c1: AgentContext,
    s1: LoopView,
    c2: AgentContext,
    s2: LoopView,
    e: ActiveEnv,
)
    requires
        is_context_for(c1, s1, e),
        is_context_for(c2, s2, e),
    ensures
        c1.agent_id == c2.agent_id,
        c1.agent_id == acting_id(e),
{
}

/// The model that reasons in a context is the environment's own agent's:
/// an isolone's agent, or a commune's leader where it is among the agents;
/// the default model only where there is no such agent.
pub proof fn law_context_uses_agent_model(ctx: AgentContext, s: LoopView, e: ActiveEnv)
    requires
        is_context_for(ctx, s, e),
    ensures
        e matches ActiveEnv::Isolone(i) ==> (i@.agent matches Some(a) ==> ctx.model@ == a.config.model),
        e matches ActiveEnv::Isolone(i) ==> (i@.agent is None ==> ctx.model@ == "gemini-2.1-flash"@),
        e matches ActiveEnv::Commune(c) ==> (c@.leader_id matches Some(l) ==> (c@.agents.contains_key(l)
            ==> ctx.model@ == c@.agents[l].config.model)),
        e matches ActiveEnv::Commune(c) ==> (!(c@.leader_id matches Some(l) && c@.agents.contains_key(l))
            ==> ctx.model@ == "gemini-2.1-flash"@),
{
}

/// A final report while executing always reaches the auditor: the phase
/// moves to evaluation and the last observation is the report, whether or
/// not a plan was stated before.
pub proof fn law_report_reaches_auditor(s: LoopView, msg: Seq<char>, report: Seq<char>)
    requires
        s.phase == LoopPhase::Executing,
        spec_parse_finish(msg) == Some(report),
    ensures
        message_step(s, msg).0.phase == LoopPhase::Evaluating,
        message_step(s, msg).0.observations.len() > 0,
        message_step(s, msg).0.observations.last() == "Final Report: "@ + report,
        message_step(s, msg).2 == TickFlow::Continue,
{
}

} // verus!
