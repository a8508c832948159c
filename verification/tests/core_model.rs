use enversal::agent::{Agent, AgentConfig, AgentRole};
use enversal::environment::{Commune, EnvError, Environment, Isolone};
use enversal::ids::is_nil;
use enversal::tools::GitTool;
use enversal::limits::ResourceLimits;

fn dummy_config() -> AgentConfig {
    AgentConfig {
        role: AgentRole::Worker("tester".to_string()),
        model: "test-model".to_string(),
        allowed_tools: Vec::new(),
    }
}

#[test]
fn test_agent_creation() {
    let config = AgentConfig {
        role: AgentRole::Worker("Researcher".to_string()),
        model: "gemini-lite".to_string(),
        allowed_tools: Vec::new(),
    };
    let agent = Agent::new("weather-bot", config);
    assert_eq!(agent.name, "weather-bot");
    assert_eq!(
        agent.config.role,
        AgentRole::Worker("Researcher".to_string())
    );
    assert!(
        !is_nil(agent.id),
        "Agent ID must be a valid non-nil UUID v4"
    );
}

#[test]
fn test_isolone_spawn_limit() {
    let mut isolone = Isolone::new("Test goal", ResourceLimits::default());

    let id1_res = isolone.spawn_agent("agent-1", dummy_config());
    assert!(id1_res.is_ok(), "First spawn should succeed");

    let id2_res = isolone.spawn_agent("agent-2", dummy_config());
    assert!(
        matches!(id2_res, Err(EnvError::CapacityExceeded)),
        "Second spawn must fail in Isolone"
    );
}

#[test]
fn test_commune_spawns_multiple() {
    let mut commune = Commune::new("Test group", ResourceLimits::default());

    let id1 = commune
        .spawn_agent("agent-1", dummy_config())
        .expect("Spawn 1 failed");
    let id2 = commune
        .spawn_agent("agent-2", dummy_config())
        .expect("Spawn 2 failed");

    assert_eq!(commune.agents.len(), 2);
    assert!(commune.agents.contains_key(&id1));
    assert!(commune.agents.contains_key(&id2));
}

#[test]
fn agent_ids_have_version_four_layout() {
    let agent = Agent::new("a", dummy_config());
    assert_eq!((agent.id >> 76) & 0xf, 4);
    assert_eq!((agent.id >> 62) & 0x3, 2);
    assert!(agent.current_pid.is_none());
}

#[test]
fn uuid_text_is_hyphenated_lower_hex() {
    let s = GitTool::repo_path(0x0123_4567_89ab_cdef_0011_2233_4455_6677);
    assert_eq!(s, "/tmp/enversal-workspaces/01234567-89ab-cdef-0011-223344556677");
    assert_eq!(
        GitTool::repo_path(0),
        "/tmp/enversal-workspaces/00000000-0000-0000-0000-000000000000"
    );
}

#[test]
fn default_limits_are_strict() {
    let l = ResourceLimits::default();
    assert_eq!(l.max_cpu_cores, 1);
    assert_eq!(l.max_ram_mb, 512);
    assert!(!l.db_access);
    assert!(l.allowed_network_domains.is_empty());
    assert!(l.allowed_read_paths.is_empty());
    assert!(l.allowed_write_paths.is_empty());
}

#[test]
fn isolone_terminate_only_its_agent() {
    let mut iso = Isolone::new("goal", ResourceLimits::default());
    let id = iso.spawn_agent("a", dummy_config()).unwrap();
    assert!(matches!(iso.terminate_agent(id ^ 1), Err(EnvError::AgentNotFound)));
    assert!(iso.agent.is_some());
    assert!(iso.terminate_agent(id).is_ok());
    assert!(iso.agent.is_none());
    // law: the isolone is empty again, so a new agent may enter
    assert!(iso.spawn_agent("b", dummy_config()).is_ok());
}

#[test]
fn commune_spawn_then_terminate_restores() {
    let mut c = Commune::new("goal", ResourceLimits::default());
    let keep = c.spawn_agent("keep", dummy_config()).unwrap();
    let id = c.spawn_agent("temp", dummy_config()).unwrap();
    assert!(c.terminate_agent(id).is_ok());
    assert_eq!(c.agents.len(), 1);
    assert!(c.agents.contains_key(&keep));
    // an agent can be terminated only once
    assert!(matches!(c.terminate_agent(id), Err(EnvError::AgentNotFound)));
    assert_eq!(c.goal, "goal");
}

#[test]
fn config_new_keeps_each_tool_once() {
    let cfg = AgentConfig::new(
        AgentRole::Leader,
        "m".to_string(),
        vec!["fs:read".to_string(), "net".to_string(), "fs:read".to_string()],
    );
    assert_eq!(cfg.allowed_tools, vec!["fs:read".to_string(), "net".to_string()]);
    assert_eq!(cfg.role, AgentRole::Leader);
}
