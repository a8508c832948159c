use enversal::cognitive::CognitiveLoop;
use enversal::agent::{AgentRole};
use enversal::error::{DaemonError, StatusCode};
use enversal::manifest::{AgentSpec, EnversalManifest};
use enversal::paths::{join_path, keep_contained_paths, parent_component_in};
use enversal::registry::{ActiveEnv, EnvTable, RuntimeKind, RuntimePaths, RuntimeRegistry};
use enversal::sandbox::{ExecError, LandlockExecutor, SandboxPolicy, SeatbeltExecutor};
use enversal::service::{
    choose_provider, environment_status, inspect_environment, list_environments, plan_deployment,
    role_debug, AiProvider, EnvSummary, EnvironmentRegistry,
};
use enversal::tools::{GitTool, NodeTool, PythonTool, ShellTool, ToolDispatcher, ToolKind, ToolResultExt};
use enversal::limits::ResourceLimits;

fn strings(v: &[&str]) -> Vec<String> {
    v.iter().map(|s| s.to_string()).collect()
}

fn blueprint(provider: &str) -> EnversalManifest {
    let mut m = EnversalManifest::default();
    m.environment.goal = "grow crops".to_string();
    m.environment.ai_provider = provider.to_string();
    m.resources.cpu_cores = 4;
    m.resources.ram_mb = 8192;
    m.resources.network.allowed_domains = strings(&["api.weather.local"]);
    m.resources.filesystem.allowed_read_paths = strings(&["/data", "/data/../etc", ".."]);
    m.resources.filesystem.allowed_write_paths = strings(&["/out", "a/..b"]);
    m.agents.leader = AgentSpec {
        name: "overseer".to_string(),
        model: "gemini-pro".to_string(),
        capabilities: strings(&["db:read", "db:read", "db:write"]),
        system_prompt: String::new(),
        role: None,
    };
    m.agents.initial_workers = Some(vec![
        AgentSpec { name: "analyst".to_string(), model: "lite".to_string(), capabilities: vec![], system_prompt: String::new(), role: Some("researcher".to_string()) },
        AgentSpec { name: "eval".to_string(), model: "lite".to_string(), capabilities: vec![], system_prompt: String::new(), role: None },
    ]);
    m
}

#[test]
fn provider_choice() {
    assert_eq!(choose_provider("").unwrap(), AiProvider::Gemini);
    assert_eq!(choose_provider("GeMiNi").unwrap(), AiProvider::Gemini);
    assert_eq!(choose_provider("Ollama").unwrap(), AiProvider::Ollama);
    match choose_provider("OpenAI") {
        Err(DaemonError::InvalidManifest(m)) => assert_eq!(m, "Unsupported AI Provider: openai"),
        _ => panic!("expected a refusal"),
    }
}

#[test]
fn deploy_commune() {
    let d = plan_deployment("Commune", &blueprint("gemini")).unwrap();
    assert_eq!(d.message, "Successfully provisioned Commune environment via Control Plane.");
    assert_eq!(d.env_id.len(), 36);
    assert_eq!(d.agent_ids.len(), 3);
    match &d.env {
        ActiveEnv::Commune(c) => {
            assert_eq!(c.goal, "grow crops");
            assert_eq!(c.leader_id, Some(d.agent_ids[0]));
            assert_eq!(c.agents.len(), 3);
            let leader = &c.agents[&d.agent_ids[0]];
            assert_eq!(leader.name, "overseer");
            assert_eq!(leader.config.role, AgentRole::Leader);
            assert_eq!(leader.config.allowed_tools, strings(&["db:read", "db:write"]));
            assert_eq!(c.agents[&d.agent_ids[1]].config.role, AgentRole::Worker("researcher".to_string()));
            assert_eq!(c.agents[&d.agent_ids[2]].config.role, AgentRole::Worker("worker".to_string()));
            assert_eq!(c.limits.allowed_read_paths, strings(&["/data"]));
            assert_eq!(c.limits.allowed_write_paths, strings(&["/out", "a/..b"]));
            assert_eq!(c.limits.max_cpu_cores, 4);
        }
        _ => panic!("expected a commune"),
    }
}

#[test]
fn deploy_isolone_and_refusal() {
    let d = plan_deployment("isolone", &blueprint("")).unwrap();
    assert_eq!(d.provider, AiProvider::Gemini);
    match &d.env {
        ActiveEnv::Isolone(i) => {
            let a = i.agent.as_ref().unwrap();
            assert_eq!(a.id, d.agent_ids[0]);
            assert_eq!(a.name, "overseer");
        }
        _ => panic!("expected an isolone"),
    }
    assert!(matches!(plan_deployment("commune", &blueprint("gpt")), Err(DaemonError::InvalidManifest(_))));
}

#[test]
fn registry_queries() {
    let mut reg = EnvironmentRegistry::new();
    let d = plan_deployment("isolone", &blueprint("ollama")).unwrap();
    let id = d.env_id.clone();
    reg.insert_env(id.clone(), d.env);
    assert_eq!(reg.get_env_ids(), vec![id.clone()]);
    let list = list_environments(&reg);
    assert_eq!(list.len(), 1);
    assert_eq!(list[0].env_type, "Isolone");
    assert_eq!(list[0].status, "Running");
    let st = environment_status(&reg, &id);
    assert_eq!(st.status, "Running");
    assert_eq!(st.active_agents, 3);
    match inspect_environment(&reg, &id).unwrap() {
        EnvSummary::Isolone { goal, agent, limits, .. } => {
            assert_eq!(goal, "grow crops");
            assert_eq!(limits.max_ram_mb, 8192);
            let a = agent.unwrap();
            assert_eq!(a.role, "Leader");
            assert_eq!(a.model, "gemini-pro");
        }
        _ => panic!("expected an isolone"),
    }
    reg.remove_env(&id);
    assert_eq!(environment_status(&reg, &id).status, "NotFound");
    assert!(inspect_environment(&reg, &id).is_none());
    assert!(reg.get_env_ids().is_empty());
}

#[test]
fn inspect_commune_lists_every_agent() {
    let mut reg = EnvironmentRegistry::new();
    let d = plan_deployment("commune", &blueprint("")).unwrap();
    reg.insert_env("e".to_string(), d.env);
    match inspect_environment(&reg, "e").unwrap() {
        EnvSummary::Commune { agents, leader_id, .. } => {
            assert_eq!(agents.len(), 3);
            assert!(leader_id.is_some());
            assert!(agents.iter().any(|a| a.role == "Worker(\"researcher\")"));
        }
        _ => panic!("expected a commune"),
    }
}

#[test]
fn env_table_replaces_and_removes() {
    let mut t: EnvTable<u32> = EnvTable::new();
    t.insert("a".to_string(), 1);
    t.insert("b".to_string(), 2);
    t.insert("a".to_string(), 3);
    assert_eq!(t.len(), 2);
    assert_eq!(t.get("a"), Some(&3));
    t.remove("a");
    assert_eq!(t.get("a"), None);
    assert!(t.contains("b"));
}

#[test]
fn role_text() {
    assert_eq!(role_debug(&AgentRole::Leader), "Leader");
    assert_eq!(role_debug(&AgentRole::Worker("x\"y".to_string())), "Worker(\"x\\\"y\")");
}

#[test]
fn error_texts_and_statuses() {
    let e = DaemonError::ToolError("boom".to_string());
    assert_eq!(e.message(), "Tool error: boom");
    assert_eq!(e.to_status(), (StatusCode::Internal, "boom".to_string()));
    assert_eq!(DaemonError::NotFound("x".to_string()).to_status().0, StatusCode::NotFound);
    assert_eq!(DaemonError::InvalidManifest("x".to_string()).to_status().0, StatusCode::InvalidArgument);
    assert_eq!(DaemonError::NotFound("x".to_string()).message(), "Environment not found: x");
    assert_eq!(DaemonError::SandboxError("s".to_string()).message(), "Sandbox error: s");
    assert_eq!(DaemonError::ReasoningError("r".to_string()).message(), "Reasoning engine error: r");
    assert_eq!(DaemonError::InternalSyncError("i".to_string()).message(), "Internal state error: i");
    assert_eq!(DaemonError::InvalidManifest("m".to_string()).message(), "Invalid manifest: m");
}

#[test]
fn path_rules() {
    assert!(parent_component_in(".."));
    assert!(parent_component_in("/a/../b"));
    assert!(parent_component_in("a/.."));
    assert!(!parent_component_in("a/..b"));
    assert!(!parent_component_in("a/b.."));
    assert_eq!(keep_contained_paths(&strings(&["/x", "../y", "/z"])), strings(&["/x", "/z"]));
    assert_eq!(join_path("/v", "bin"), "/v/bin");
    assert_eq!(join_path("/v/", "bin"), "/v/bin");
    assert_eq!(join_path("", "bin"), "bin");
}

#[test]
fn seatbelt_profile_text() {
    let p = SandboxPolicy { allowed_read_paths: vec![], allowed_write_paths: strings(&["/w1", "/w2"]), block_network: true };
    assert_eq!(
        SeatbeltExecutor::profile(&p),
        "(version 1)\n(allow default)\n(deny network*)\n(deny file-write*)\n(allow file-write-data (literal \"/dev/tty\"))\n(allow file-write* (subpath \"/w1\"))\n(allow file-write* (subpath \"/w2\"))\n"
    );
    assert_eq!(
        SeatbeltExecutor::profile(&SandboxPolicy::default()),
        "(version 1)\n(allow default)\n(deny file-write*)\n(allow file-write-data (literal \"/dev/tty\"))\n"
    );
}

#[test]
fn seatbelt_outcomes() {
    assert_eq!(SeatbeltExecutor::outcome(0, true, b"  hello from seatbelt\n", b"").unwrap(), "hello from seatbelt");
    let e = SeatbeltExecutor::outcome(0, false, b"", b" denied \n").err().unwrap();
    assert_eq!(e.message, "Seatbelt Execution Failed [Agent: 00000000-0000-0000-0000-000000000000]: denied");
}

#[test]
fn landlock_outcome() {
    let ok = LandlockExecutor::outcome(1, true, b"  listing\n", b"ignored").unwrap();
    assert_eq!(ok, "listing");
    match LandlockExecutor::outcome(1, false, b"", b" denied \n") {
        Err(e) => assert_eq!(
            e.message,
            "Landlock Execution Failed [Agent: 00000000-0000-0000-0000-000000000001]: denied"
        ),
        Ok(_) => panic!("a failed run must give an error"),
    }
}

#[test]
fn dispatcher_names() {
    let d = ToolDispatcher::new();
    assert_eq!(d.resolve("sandbox_exec").unwrap(), ToolKind::Shell);
    assert_eq!(d.resolve("provision_env").unwrap(), ToolKind::Python);
    assert_eq!(d.resolve("git_clone").unwrap(), ToolKind::Git);
    assert_eq!(d.resolve("npm_install").unwrap(), ToolKind::Node);
    match d.resolve("rm_rf") {
        Err(DaemonError::ToolError(m)) => assert_eq!(m, "Tool 'rm_rf' not found"),
        _ => panic!("expected an unknown tool"),
    }
}

#[test]
fn ok_ok_or_else_maps_absence() {
    let some: Option<u8> = Some(3);
    assert_eq!(some.ok_ok_or_else(|| DaemonError::ToolError("x".to_string())).unwrap(), 3);
    let none: Option<u8> = None;
    assert!(matches!(none.ok_ok_or_else(|| DaemonError::ToolError("x".to_string())), Err(DaemonError::ToolError(m)) if m == "x"));
}

#[test]
fn shell_job_from_limits_and_runtimes() {
    let limits = ResourceLimits {
        max_cpu_cores: 1,
        max_ram_mb: 1,
        db_access: false,
        allowed_network_domains: vec![],
        allowed_read_paths: strings(&["/r"]),
        allowed_write_paths: strings(&["/w"]),
    };
    let rt = RuntimePaths { python: Some("/v".to_string()), workspace: Some("/ws".to_string()) };
    let job = ShellTool::plan("{\"cmd\":\"ls\"}", Some(&limits), Some(&rt)).unwrap();
    assert_eq!(job.command, "ls");
    assert!(job.policy.block_network);
    assert_eq!(job.policy.allowed_read_paths, strings(&["/r"]));
    assert_eq!(job.policy.allowed_write_paths, strings(&["/w", "/ws"]));
    assert_eq!(
        job.env_vars,
        vec![
            ("PATH".to_string(), "/ws/node_modules/.bin:/v/bin:/usr/bin:/bin".to_string()),
            ("WORKSPACE".to_string(), "/ws".to_string()),
        ]
    );
    let py_only = RuntimePaths { python: Some("/v".to_string()), workspace: None };
    let job = ShellTool::plan("{\"cmd\":\"x\"}", None, Some(&py_only)).unwrap();
    assert_eq!(job.env_vars, vec![("PATH".to_string(), "/v/bin:/usr/bin:/bin".to_string())]);
    assert!(job.policy.block_network);
    let open = ResourceLimits { allowed_network_domains: strings(&["*"]), ..ResourceLimits::default() };
    assert!(!ShellTool::plan("{\"cmd\":\"x\"}", Some(&open), None).unwrap().policy.block_network);
    match ShellTool::plan("{\"command\":\"x\"}", None, None) {
        Err(DaemonError::ToolError(m)) => assert_eq!(m, "Missing 'cmd' argument"),
        _ => panic!("expected a missing argument"),
    }
    match ShellTool::finish(Err(ExecError { message: "nope".to_string() })) {
        Err(DaemonError::SandboxError(m)) => assert_eq!(m, "Sandbox Execution Failed: nope"),
        _ => panic!("expected a sandbox error"),
    }
}

#[test]
fn git_then_node() {
    let agent = 0x0123_4567_89ab_cdef_0011_2233_4455_6677u128;
    let job = GitTool::plan("{\"url\":\"https://x/r.git\"}", agent).unwrap();
    assert_eq!(job.command, "git clone https://x/r.git /tmp/enversal-workspaces/01234567-89ab-cdef-0011-223344556677");
    assert!(!job.policy.block_network);
    assert_eq!(job.policy.allowed_read_paths, strings(&["/usr"]));
    let mut reg = RuntimeRegistry::new();
    assert!(matches!(NodeTool::plan(reg.lookup(agent)), Err(DaemonError::ToolError(_))));
    let msg = GitTool::finish(agent, Ok(String::new()), &mut reg).unwrap();
    assert_eq!(msg, "Repository cloned successfully into workspace.");
    let ws = reg.lookup(agent).unwrap().workspace.clone().unwrap();
    assert_eq!(ws, GitTool::repo_path(agent));
    let job = NodeTool::plan(reg.lookup(agent)).unwrap();
    assert_eq!(job.command, format!("cd {} && npm install", ws));
    assert_eq!(job.policy.allowed_read_paths, strings(&["/usr", "/Library"]));
    assert_eq!(NodeTool::finish(Ok(String::new())).unwrap(), "Node.js dependencies installed successfully.");
    match GitTool::finish(agent, Err(ExecError { message: "e".to_string() }), &mut reg) {
        Err(DaemonError::ToolError(m)) => assert_eq!(m, "Git clone failed: e"),
        _ => panic!("expected a failure"),
    }
    assert!(matches!(GitTool::plan("{}", agent), Err(DaemonError::ToolError(m)) if m == "Missing 'url' argument"));
}

#[test]
fn python_job() {
    assert_eq!(PythonTool::venv_dir(1), "/tmp/enversal-venvs/00000000-0000-0000-0000-000000000001");
    assert_eq!(PythonTool::packages("{\"packages\":[\"numpy\",3,\"pandas\"]}"), strings(&["numpy", "", "pandas"]));
    assert!(PythonTool::packages("{\"packages\":\"numpy\"}").is_empty());
    let job = PythonTool::plan("{\"packages\":[\"numpy\",\"pandas\"]}", "/v");
    assert_eq!(job.command, "python3 -m venv /v && /v/bin/pip install numpy pandas");
    assert_eq!(
        job.env_vars,
        vec![
            ("TMPDIR".to_string(), "/v/tmp".to_string()),
            ("PIP_CACHE_DIR".to_string(), "/v/cache".to_string()),
            ("HOME".to_string(), "/v".to_string()),
        ]
    );
    let mut reg = RuntimeRegistry::new();
    assert_eq!(PythonTool::finish(5, "/v", Ok(String::new()), &mut reg).unwrap(), "Python venv provisioned successfully.");
    assert_eq!(reg.lookup(5).unwrap().python, Some("/v".to_string()));
    reg.record(5, RuntimeKind::Workspace, "/w".to_string());
    assert_eq!(reg.lookup(5).unwrap().python, Some("/v".to_string()));
    assert_eq!(reg.lookup(5).unwrap().workspace, Some("/w".to_string()));
}

#[test]
fn registry_lists_each_id_once() {
    let mut reg = EnvironmentRegistry::new();
    let s1 = plan_deployment("isolone", &blueprint("")).unwrap().env;
    let s2 = plan_deployment("commune", &blueprint("")).unwrap().env;
    let s3 = plan_deployment("isolone", &blueprint("")).unwrap().env;
    reg.insert_env("a".to_string(), s1);
    reg.insert_env("b".to_string(), s2);
    reg.insert_env("a".to_string(), s3);
    reg.remove_env("b");
    reg.remove_env("zz");
    assert_eq!(reg.get_env_ids(), vec!["a".to_string()]);
    let list = list_environments(&reg);
    assert_eq!(list.len(), 1);
    assert_eq!(list[0].env_id, "a");
}

#[test]
fn commune_context_acts_as_its_leader() {
    let d = plan_deployment("commune", &blueprint("")).unwrap();
    let mut l = CognitiveLoop::new();
    let c1 = l.begin_tick(Some(&d.env)).unwrap();
    l.end_tick();
    let c2 = l.begin_tick(Some(&d.env)).unwrap();
    assert_eq!(c1.agent_id, d.agent_ids[0]);
    assert_eq!(c2.agent_id, d.agent_ids[0]);
}

#[test]
fn tool_jobs_from_members_read() {
    match ShellTool::plan_command(None, None, None) {
        Err(DaemonError::ToolError(m)) => assert_eq!(m, "Missing 'cmd' argument"),
        _ => panic!("a missing command must be refused"),
    }
    let job = ShellTool::plan_command(Some("ls".to_string()), None, None).unwrap();
    assert_eq!(job.command, "ls");
    assert!(job.policy.block_network);
    match GitTool::plan_url(None, 3) {
        Err(DaemonError::ToolError(m)) => assert_eq!(m, "Missing 'url' argument"),
        _ => panic!("a missing URL must be refused"),
    }
    let job = GitTool::plan_url(Some("u".to_string()), 3).unwrap();
    assert_eq!(job.command, format!("git clone u {}", GitTool::repo_path(3)));
    assert_eq!(
        PythonTool::packages_from(Some(vec![Some("numpy".to_string()), None])),
        vec!["numpy".to_string(), String::new()]
    );
    assert!(PythonTool::packages_from(None).is_empty());
}

#[test]
fn ascii_provider_and_kind_names_ignore_case() {
    assert_eq!(choose_provider("OLLAMA").unwrap(), AiProvider::Ollama);
    match choose_provider("OpenAI") {
        Err(DaemonError::InvalidManifest(m)) => assert_eq!(m, "Unsupported AI Provider: openai"),
        _ => panic!("an unknown provider must be refused"),
    }
    let d = plan_deployment("COMMUNE", &blueprint("Gemini")).unwrap();
    assert!(matches!(d.env, ActiveEnv::Commune(_)));
}
