use enversal::cognitive::{lagged_event, CognitiveLoop, LoopPhase, TickFlow};
use enversal::error::DaemonError;
use enversal::limits::ResourceLimits;
use enversal::environment::Isolone;
use enversal::prompt::{goal_prompt, ToolCallRequest, EVALUATOR_SYSTEM_INSTRUCTION};
use enversal::registry::ActiveEnv;
use enversal::timeline::{
    event_color, key_action, preview, stream_closed_event, stream_error_event, timeline_title,
    EventColor, KeyAction, KeyInput, Timeline,
};

fn iso() -> ActiveEnv {
    let mut limits = ResourceLimits::default();
    limits.allowed_read_paths = vec!["/a".to_string(), "/b".to_string()];
    ActiveEnv::Isolone(Isolone::new("count", limits))
}

#[test]
fn first_tick_injects_snapshot() {
    let env = iso();
    let mut l = CognitiveLoop::new();
    let ctx = l.begin_tick(Some(&env)).unwrap();
    assert_eq!(ctx.model, "gemini-2.1-flash");
    assert_eq!(ctx.system_prompt, goal_prompt("count"));
    assert!(ctx.recent_observations[0].starts_with("System Snapshot: Enversal OS Environment Initialized. Sandbox is active. Filesystem is ready. Tools"));
    assert_eq!(
        l.observations,
        vec!["System Snapshot: Enversal OS Environment Initialized. Sandbox is active. Filesystem is ready. READ ACCESS: [/a, /b] | WRITE ACCESS: [None] | Tools available: sandbox_exec, provision_env, git_clone, npm_install.".to_string()]
    );
    if let ActiveEnv::Isolone(i) = &env {
        assert_eq!(ctx.agent_id, i.id);
    }
    assert!(l.begin_tick(None).is_none());
}

#[test]
fn plan_reminder_then_plan() {
    let mut l = CognitiveLoop::new();
    let (ev, flow) = l.on_message("thinking");
    assert_eq!(flow, TickFlow::Proceed);
    assert_eq!(ev.len(), 1);
    assert_eq!(ev[0].event_type, "Reasoning");
    assert_eq!(ev[0].agent_name, "Agent");
    assert_eq!(l.observations[1], "Self: thinking");
    assert_eq!(l.observations[2], "System: Please provide your <plan> before taking actions.");
    let (ev, _) = l.on_message("<plan>do it</plan>");
    assert_eq!(ev[1].event_type, "Plan");
    assert_eq!(ev[1].content, "do it");
    assert!(l.plan_submitted);
    let (ev, _) = l.on_message("<plan>again</plan>");
    assert_eq!(ev.len(), 1);
}

#[test]
fn finish_then_reject_then_approve() {
    let mut l = CognitiveLoop::new();
    let (ev, flow) = l.on_message("<plan>p</plan><finish> all done </finish>");
    assert_eq!(flow, TickFlow::Continue);
    assert_eq!(l.phase, LoopPhase::Evaluating);
    assert_eq!(l.observations.last().unwrap(), "Final Report: all done");
    assert_eq!(ev.last().unwrap().content, "Agent finished work. Transitioning to EVALUATION phase.");
    let env = iso();
    let ctx = l.begin_tick(Some(&env)).unwrap();
    assert_eq!(ctx.system_prompt, EVALUATOR_SYSTEM_INSTRUCTION);
    let (ev, flow) = l.on_message("<rejected>no file</rejected>");
    assert_eq!(flow, TickFlow::Continue);
    assert_eq!(ev[0].agent_name, "Auditor");
    assert_eq!(ev[1].content, "Auditor REJECTED task: no file");
    assert_eq!(l.phase, LoopPhase::Executing);
    assert_eq!(l.observations.last().unwrap(), "Auditor Correction: no file");
    l.on_message("<finish>fixed</finish>");
    let (ev, flow) = l.on_message("<approved>");
    assert_eq!(flow, TickFlow::Shutdown);
    assert_eq!(ev[1].content, "Auditor approved the task. Shutting down environment as requested.");
}

#[test]
fn tools_and_errors_recorded() {
    let mut l = CognitiveLoop::new();
    let call = ToolCallRequest { tool_name: "sandbox_exec".to_string(), arguments: "{\"cmd\":\"ls\"}".to_string() };
    let ev = l.tool_request_event(&call);
    assert_eq!(ev.content, "Tool: sandbox_exec with args: {\"cmd\":\"ls\"}");
    let ev = l.on_tool_result("sandbox_exec", &Ok("a.txt".to_string()));
    assert_eq!(ev.event_type, "Tool Result");
    assert_eq!(l.observations.last().unwrap(), "Tool result (sandbox_exec): a.txt");
    let ev = l.on_tool_result("git_clone", &Err(DaemonError::ToolError("x".to_string())));
    assert_eq!(ev.event_type, "Error");
    assert_eq!(ev.content, "Tool error: x");
    assert_eq!(l.observations.last().unwrap(), "Tool ERROR (git_clone): Tool error: x");
    l.on_reasoning_error("timeout");
    assert_eq!(l.observations.last().unwrap(), "System Error: timeout");
}

#[test]
fn window_keeps_ten() {
    let mut l = CognitiveLoop::new();
    for k in 0..12 {
        l.on_reasoning_error(&format!("{}", k));
    }
    assert_eq!(l.observations.len(), 13);
    l.end_tick();
    assert_eq!(l.observations.len(), 12);
    assert_eq!(l.observations[0], "System Error: 0");
    let mut short = CognitiveLoop::new();
    short.end_tick();
    assert_eq!(short.observations.len(), 1);
}

#[test]
fn lagged_notice() {
    let e = lagged_event();
    assert_eq!(e.event_type, "System");
    assert_eq!(e.content, "Telemetry stream lagged (messages dropped)");
    assert_eq!(e.agent_name, "Control Plane");
}

fn ev(t: &str) -> enversal::cognitive::TelemetryEvent {
    enversal::cognitive::TelemetryEvent { event_type: t.to_string(), content: format!("{} body", t), agent_name: "a".to_string() }
}

#[test]
fn viewer_selection_moves_and_wraps() {
    let mut t = Timeline::new();
    assert_eq!(t.inspector_text(), "Awaiting environment telemetry...");
    t.push_event(ev("Reasoning"));
    assert_eq!(t.selected, Some(0));
    t.push_event(ev("Tool Request"));
    assert_eq!(t.selected, Some(1));
    t.push_event(ev("Error"));
    assert_eq!(t.selected, Some(2));
    t.next();
    assert_eq!(t.selected, Some(0));
    t.previous();
    assert_eq!(t.selected, Some(2));
    t.previous();
    assert_eq!(t.selected, Some(1));
    t.push_event(ev("System"));
    assert_eq!(t.selected, Some(1));
    assert_eq!(t.inspector_text(), "Tool Request body");
    t.next();
    t.previous();
    assert_eq!(t.selected, Some(1));
}

#[test]
fn viewer_texts() {
    assert_eq!(key_action(KeyInput::Char('q')), KeyAction::Quit);
    assert_eq!(key_action(KeyInput::Esc), KeyAction::Quit);
    assert_eq!(key_action(KeyInput::Char('j')), KeyAction::Next);
    assert_eq!(key_action(KeyInput::Up), KeyAction::Previous);
    assert_eq!(key_action(KeyInput::Char('x')), KeyAction::Ignore);
    assert_eq!(event_color("Reasoning"), EventColor::Cyan);
    assert_eq!(event_color("Tool Request"), EventColor::Yellow);
    assert_eq!(event_color("Tool Result"), EventColor::Green);
    assert_eq!(event_color("Fatal"), EventColor::Red);
    assert_eq!(event_color("Plan"), EventColor::DarkGray);
    assert_eq!(preview("line one\r\nline two"), "  line one...");
    assert_eq!(preview(""), "  ...");
    assert_eq!(preview(&"x".repeat(50)), format!("  {}...", "x".repeat(40)));
    assert_eq!(timeline_title("e1"), "Timeline: e1");
    assert_eq!(stream_error_event("boom").content, "gRPC Stream Error: boom");
    assert_eq!(stream_closed_event().content, "Daemon closed the telemetry connection.");
}

#[test]
fn rejection_returns_to_goal_prompt() {
    let env = iso();
    let mut l = CognitiveLoop::new();
    l.on_message("<plan>p</plan>");
    let (_, flow) = l.on_message("<finish>r</finish>");
    assert_eq!(flow, TickFlow::Continue);
    let audit = l.begin_tick(Some(&env)).unwrap();
    assert_eq!(audit.system_prompt, EVALUATOR_SYSTEM_INSTRUCTION);
    let (ev, flow) = l.on_message("<rejected>why</rejected>");
    assert_eq!(flow, TickFlow::Continue);
    assert_eq!(ev.last().unwrap().content, "Auditor REJECTED task: why");
    assert_eq!(ev.last().unwrap().event_type, "System");
    let next = l.begin_tick(Some(&env)).unwrap();
    assert_eq!(next.system_prompt, goal_prompt("count"));
    assert_eq!(next.recent_observations.last().unwrap(), "Auditor Correction: why");
}

#[test]
fn one_plan_event_over_a_run() {
    let mut l = CognitiveLoop::new();
    let mut plans = 0;
    for m in ["hmm", "<plan>a</plan>", "<plan>b</plan>", "still", "<plan>c</plan>"] {
        let (ev, _) = l.on_message(m);
        plans += ev.iter().filter(|e| e.event_type == "Plan").count();
    }
    assert_eq!(plans, 1);
    let reminders = l
        .observations
        .iter()
        .filter(|o| o.as_str() == "System: Please provide your <plan> before taking actions.")
        .count();
    assert_eq!(reminders, 1);
}
