use enversal::limits::ResourceLimits;
use enversal::registry::RuntimeRegistry;
use enversal::sandbox::SeatbeltExecutor;
use enversal::tools::{GitTool, PythonTool, ShellTool};

#[test]
fn clone_then_shell_runs_in_workspace() {
    let agent = 42u128;
    let mut reg = RuntimeRegistry::new();
    GitTool::finish(agent, Ok(String::new()), &mut reg).unwrap();
    let job = ShellTool::plan("{\"cmd\":\"npm test\"}", Some(&ResourceLimits::default()), reg.lookup(agent)).unwrap();
    let repo = GitTool::repo_path(agent);
    assert_eq!(job.env_vars[1], ("WORKSPACE".to_string(), repo.clone()));
    assert!(job.env_vars[0].1.starts_with(&format!("{}/node_modules/.bin:", repo)));
    assert_eq!(job.policy.allowed_write_paths.last().unwrap(), &repo);
}

#[test]
fn venv_then_shell_finds_python() {
    let agent = 7u128;
    let mut reg = RuntimeRegistry::new();
    PythonTool::finish(agent, "/venvs/a", Ok(String::new()), &mut reg).unwrap();
    let job = ShellTool::plan("{\"cmd\":\"python -V\"}", None, reg.lookup(agent)).unwrap();
    assert_eq!(job.env_vars, vec![("PATH".to_string(), "/venvs/a/bin:/usr/bin:/bin".to_string())]);
}

#[test]
fn network_blocked_exactly_without_domains() {
    let closed = ResourceLimits::default();
    assert!(ShellTool::plan("{\"cmd\":\"x\"}", Some(&closed), None).unwrap().policy.block_network);
    let mut one = ResourceLimits::default();
    one.allowed_network_domains = vec!["api.weather.local".to_string()];
    assert!(!ShellTool::plan("{\"cmd\":\"x\"}", Some(&one), None).unwrap().policy.block_network);
}

#[test]
fn lossy_decoding_replaces_invalid_bytes() {
    assert_eq!(SeatbeltExecutor::outcome(0, true, b" ok\n", b"").unwrap(), "ok");
    assert_eq!(SeatbeltExecutor::outcome(0, true, b"a\xffb", b"").unwrap(), "a\u{fffd}b");
    assert_eq!(SeatbeltExecutor::outcome(0, true, b"\xff", b"").unwrap(), "\u{fffd}");
}
