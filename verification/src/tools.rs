//! The tools that agents call: what each one runs in the sandbox, and what
//! the control plane records and answers once it has run.

use vstd::prelude::*;
use crate::error::{DaemonError, DaemonErrorView, DaemonResult};
use crate::ids::{AgentId, uuid_string, uuid_text};
use crate::json::{json_array_member, json_member_items, json_member_str, json_str_member, opt_strings_view};
use crate::limits::{LimitsView, ResourceLimits, clone_strings, strs_view};
use crate::paths::{join_path, path_join};
use crate::registry::{
    RuntimeKind, RuntimePaths, RuntimePathsView, RuntimeRegistry, runtimes_of, runtimes_with,
};
use crate::sandbox::{EnvVars, ExecError, PolicyView, SandboxPolicy, env_view};
use crate::text::{contains_string, join_strings, join_with};

verus! {

/// A command to run in the sandbox, with its policy and environment.
pub struct SandboxJob {
    pub policy: SandboxPolicy,
    pub command: String,
    pub env_vars: EnvVars,
}

/// The mathematical content of a `SandboxJob`.
pub struct JobView {
    pub policy: PolicyView,
    pub command: Seq<char>,
    pub env_vars: Seq<(Seq<char>, Seq<char>)>,
}

impl View for SandboxJob {
    type V = JobView;

    open spec fn view(&self) -> JobView {
        JobView { policy: self.policy@, command: self.command@, env_vars: env_view(self.env_vars@) }
    }
}

/// The view of a result of the control plane that carries text.
pub open spec fn text_result_view(r: DaemonResult<String>) -> Result<Seq<char>, DaemonErrorView> {
    match r {
        Ok(s) => Ok(s@),
        Err(e) => Err(e@),
    }
}

/// The view of a result of the control plane that carries text, by reference.
pub open spec fn text_result_view_ref(r: &DaemonResult<String>) -> Result<Seq<char>, DaemonErrorView> {
    match r {
        Ok(s) => Ok(s@),
        Err(e) => Err(e@),
    }
}

/// The tools an agent can call.
#[derive(Debug, PartialEq, Eq, Structural, Clone, Copy)]
pub enum ToolKind {
    /// `sandbox_exec`: run a shell command.
    Shell,
    /// `provision_env`: set up a Python virtual environment.
    Python,
    /// `git_clone`: clone a repository into the agent's workspace.
    Git,
    /// `npm_install`: install the workspace's Node.js dependencies.
    Node,
}

/// The tool registered under `name`.
pub open spec fn tool_named(name: Seq<char>) -> Option<ToolKind> {
    if name == "sandbox_exec"@ {
        Some(ToolKind::Shell)
    } else if name == "provision_env"@ {
        Some(ToolKind::Python)
    } else if name == "git_clone"@ {
        Some(ToolKind::Git)
    } else if name == "npm_install"@ {
        Some(ToolKind::Node)
    } else {
        None
    }
}

/// Maps tool names to the tools.
pub struct ToolDispatcher;

impl ToolDispatcher {
    /// The dispatcher of the four tools.
    pub fn new() -> Self {
        ToolDispatcher
    }

    /// The tool registered under `name`, or an error naming the unknown tool.
    pub fn resolve(&self, name: &str) -> (r: DaemonResult<ToolKind>)
        ensures
            match tool_named(name@) {
                Some(k) => r matches Ok(k2) && k2 == k,
                None => r matches Err(e) && e@ == DaemonErrorView::ToolError(
                    "Tool '"@ + name@ + "' not found"@,
                ),
            },
    {
        if crate::text::str_eq(name, "sandbox_exec") {
            Ok(ToolKind::Shell)
        } else if crate::text::str_eq(name, "provision_env") {
            Ok(ToolKind::Python)
        } else if crate::text::str_eq(name, "git_clone") {
            Ok(ToolKind::Git)
        } else if crate::text::str_eq(name, "npm_install") {
            Ok(ToolKind::Node)
        } else {
            let mut m = String::from_str("Tool '");
            m.append(name);
            m.append("' not found");
            Err(DaemonError::ToolError(m))
        }
    }
}

/// Turns an absent value into the error that `f` makes.
pub trait ToolResultExt<T>: Sized {
    fn ok_ok_or_else<F: FnOnce() -> DaemonError>(self, f: F) -> DaemonResult<T>
        requires
            f.requires(()),
    ;
}

impl<T> ToolResultExt<T> for Option<T> {
    fn ok_ok_or_else<F: FnOnce() -> DaemonError>(self, f: F) -> (r: DaemonResult<T>)
        ensures
            match self {
                Some(v) => r matches Ok(v2) && v2 == v,
                None => r matches Err(e) && f.ensures((), e),
            },
    {
        match self {
            Some(v) => Ok(v),
            None => Err(f()),
        }
    }
}

/// The search path that commands get where no runtime adds to it.
pub open spec fn default_search_path() -> Seq<char> {
    "/usr/bin:/bin"@
}

/// The policy of a shell command: the environment's paths, network blocked
/// unless domains are allowed (all blocked where the environment is unknown),
/// and the agent's workspace writable where it has one.
pub open spec fn shell_policy(limits: Option<LimitsView>, rt: Option<RuntimePathsView>) -> PolicyView {
    let base = match limits {
        Some(l) => PolicyView {
            allowed_read_paths: l.allowed_read_paths,
            allowed_write_paths: l.allowed_write_paths,
            block_network: !l.allowed_network_domains.contains("*"@)
                && l.allowed_network_domains.len() == 0,
        },
        None => PolicyView {
            allowed_read_paths: Seq::empty(),
            allowed_write_paths: Seq::empty(),
            block_network: true,
        },
    };
    match rt {
        Some(r) => match r.workspace {
            Some(w) => PolicyView { allowed_write_paths: base.allowed_write_paths.push(w), ..base },
            None => base,
        },
        None => base,
    }
}

/// The environment of a shell command: the Python environment's `bin` and the
/// workspace's `node_modules/.bin` put in front of the search path, and the
/// workspace named in `WORKSPACE`.
pub open spec fn shell_env(rt: Option<RuntimePathsView>) -> Seq<(Seq<char>, Seq<char>)> {
    match rt {
        None => Seq::empty(),
        Some(r) => {
            let after_python = match r.python {
                Some(p) => path_join(p, "bin"@) + ":"@ + default_search_path(),
                None => default_search_path(),
            };
            match r.workspace {
                Some(w) => seq![
                    ("PATH"@, path_join(path_join(w, "node_modules"@), ".bin"@) + ":"@ + after_python),
                    ("WORKSPACE"@, w),
                ],
                None => match r.python {
                    Some(_) => seq![("PATH"@, after_python)],
                    None => Seq::empty(),
                },
            }
        },
    }
}

/// The view of optional limits.
pub open spec fn opt_limits_view(l: Option<&ResourceLimits>) -> Option<LimitsView> {
    match l {
        Some(l) => Some(l@),
        None => None,
    }
}

/// The view of optional runtimes.
pub open spec fn opt_runtimes_view(r: Option<&RuntimePaths>) -> Option<RuntimePathsView> {
    match r {
        Some(r) => Some(r@),
        None => None,
    }
}

/// `sandbox_exec`: runs a shell command under the environment's limits.
pub struct ShellTool;

impl ShellTool {
    /// The job for `args`: the command in member `cmd`, under `shell_policy`
    /// and `shell_env`.
    pub fn plan(args: &str, limits: Option<&ResourceLimits>, runtimes: Option<&RuntimePaths>) -> (r:
        DaemonResult<SandboxJob>)
        ensures
            match json_str_member(args@, "cmd"@) {
                Some(cmd) => r matches Ok(job) && job@ == (JobView {
                    policy: shell_policy(opt_limits_view(limits), opt_runtimes_view(runtimes)),
                    command: cmd,
                    env_vars: shell_env(opt_runtimes_view(runtimes)),
                }),
                None => r matches Err(e) && e@ == DaemonErrorView::ToolError(
                    "Missing 'cmd' argument"@,
                ),
            },
    {
        let cmd = json_member_str(args, "cmd");
        Self::plan_command(cmd, limits, runtimes)
    }

    /// The job for the command read out of the arguments (`None` where they
    /// hold none): the command under `shell_policy` and `shell_env`, or the
    /// error for a missing command.
    pub fn plan_command(
        cmd: Option<String>,
        limits: Option<&ResourceLimits>,
        runtimes: Option<&RuntimePaths>,
    ) -> (r: DaemonResult<SandboxJob>)
        ensures
            match cmd {
                Some(c) => r matches Ok(job) && job@ == (JobView {
                    policy: shell_policy(opt_limits_view(limits), opt_runtimes_view(runtimes)),
                    command: c@,
                    env_vars: shell_env(opt_runtimes_view(runtimes)),
                }),
                None => r matches Err(e) && e@ == DaemonErrorView::ToolError(
                    "Missing 'cmd' argument"@,
                ),
            },
    {
        let cmd = match cmd {
            Some(c) => c,
            None => {
                return Err(DaemonError::ToolError(String::from_str("Missing 'cmd' argument")));
            },
        };
        let mut policy = SandboxPolicy {
            allowed_read_paths: Vec::new(),
            allowed_write_paths: Vec::new(),
            block_network: true,
        };
        match limits {
            Some(l) => {
                policy.block_network = !contains_string(&l.allowed_network_domains, "*")
                    && l.allowed_network_domains.len() == 0;
                policy.allowed_read_paths = clone_strings(&l.allowed_read_paths);
                policy.allowed_write_paths = clone_strings(&l.allowed_write_paths);
            },
            None => {
                assert(policy@.allowed_read_paths =~= Seq::<Seq<char>>::empty());
                assert(policy@.allowed_write_paths =~= Seq::<Seq<char>>::empty());
            },
        }
        let mut env_vars: EnvVars = Vec::new();
        match runtimes {
            Some(rt) => {
                let mut path = String::from_str("/usr/bin:/bin");
                let mut has_path = false;
                match &rt.python {
                    Some(venv) => {
                        let mut p = join_path(venv.as_str(), "bin");
                        p.append(":");
                        p.append(path.as_str());
                        path = p;
                        has_path = true;
                    },
                    None => {},
                }
                match &rt.workspace {
                    Some(ws) => {
                        let modules = join_path(ws.as_str(), "node_modules");
                        let mut p = join_path(modules.as_str(), ".bin");
                        p.append(":");
                        p.append(path.as_str());
                        policy.allowed_write_paths.push(ws.clone());
                        env_vars.push((String::from_str("PATH"), p));
                        env_vars.push((String::from_str("WORKSPACE"), ws.clone()));
                    },
                    None => {
                        if has_path {
                            env_vars.push((String::from_str("PATH"), path));
                        }
                    },
                }
            },
            None => {},
        }
        let job = SandboxJob { policy, command: cmd, env_vars };
        assert(job@.env_vars =~= shell_env(opt_runtimes_view(runtimes)));
        assert(job@.policy.allowed_write_paths =~= shell_policy(
            opt_limits_view(limits),
            opt_runtimes_view(runtimes),
        ).allowed_write_paths);
        Ok(job)
    }

    /// The answer once the command ran: its output, or a sandbox error.
    pub fn finish(result: Result<String, ExecError>) -> (r: DaemonResult<String>)
        ensures
            match result {
                Ok(out) => r matches Ok(o) && o@ == out@,
                Err(e) => r matches Err(d) && d@ == DaemonErrorView::SandboxError(
                    "Sandbox Execution Failed: "@ + e.message@,
                ),
            },
    {
        match result {
            Ok(out) => Ok(out),
            Err(e) => {
                let mut m = String::from_str("Sandbox Execution Failed: ");
                m.append(e.message.as_str());
                Err(DaemonError::SandboxError(m))
            },
        }
    }
}

/// Where an agent's repository is cloned.
pub open spec fn git_repo_path(agent: AgentId) -> Seq<char> {
    "/tmp/enversal-workspaces/"@ + uuid_text(agent)
}

/// A policy with the given paths and the network open.
pub open spec fn open_policy(read: Seq<Seq<char>>, write: Seq<Seq<char>>) -> PolicyView {
    PolicyView { allowed_read_paths: read, allowed_write_paths: write, block_network: false }
}

/// A list of strings made of the given literals.
fn strings_of(items: &[&str]) -> (r: Vec<String>)
    ensures
        r@.len() == items@.len(),
        forall|i: int| 0 <= i < items@.len() ==> r@[i]@ == items@[i]@,
{
    let mut r: Vec<String> = Vec::new();
    let mut i: usize = 0;
    while i < items.len()
        invariant
            i <= items@.len(),
            r@.len() == i,
            forall|j: int| 0 <= j < i ==> r@[j]@ == items@[j]@,
        decreases items.len() - i,
    {
        r.push(String::from_str(items[i]));
        i = i + 1;
    }
    r
}

/// `git_clone`: clones a repository into the agent's workspace.
pub struct GitTool;

impl GitTool {
    /// Where the repository of `agent` goes.
    pub fn repo_path(agent: AgentId) -> (r: String)
        ensures
            r@ == git_repo_path(agent),
    {
        let mut r = String::from_str("/tmp/enversal-workspaces/");
        let id = uuid_string(agent);
        r.append(id.as_str());
        r
    }

    /// The job for `args`: `git clone` of the URL in member `url` into the
    /// agent's repository path, reading `/usr`, writing only the repository,
    /// with the network open.
    pub fn plan(args: &str, agent: AgentId) -> (r: DaemonResult<SandboxJob>)
        ensures
            match json_str_member(args@, "url"@) {
                Some(url) => r matches Ok(job) && job@ == (JobView {
                    policy: open_policy(seq!["/usr"@], seq![git_repo_path(agent)]),
                    command: "git clone "@ + url + " "@ + git_repo_path(agent),
                    env_vars: Seq::empty(),
                }),
                None => r matches Err(e) && e@ == DaemonErrorView::ToolError(
                    "Missing 'url' argument"@,
                ),
            },
    {
        let url = json_member_str(args, "url");
        Self::plan_url(url, agent)
    }

    /// The job for the URL read out of the arguments (`None` where they hold
    /// none): `git clone` of it into the agent's repository path, reading
    /// `/usr`, writing only the repository, with the network open; or the
    /// error for a missing URL.
    pub fn plan_url(url: Option<String>, agent: AgentId) -> (r: DaemonResult<SandboxJob>)
        ensures
            match url {
                Some(u) => r matches Ok(job) && job@ == (JobView {
                    policy: open_policy(seq!["/usr"@], seq![git_repo_path(agent)]),
                    command: "git clone "@ + u@ + " "@ + git_repo_path(agent),
                    env_vars: Seq::empty(),
                }),
                None => r matches Err(e) && e@ == DaemonErrorView::ToolError(
                    "Missing 'url' argument"@,
                ),
            },
    {
        let url = match url {
            Some(u) => u,
            None => {
                return Err(DaemonError::ToolError(String::from_str("Missing 'url' argument")));
            },
        };
        let repo = Self::repo_path(agent);
        let mut command = String::from_str("git clone ");
        command.append(url.as_str());
        command.append(" ");
        command.append(repo.as_str());
        let read = strings_of(&["/usr"]);
        let mut write: Vec<String> = Vec::new();
        write.push(repo);
        let job = SandboxJob {
            policy: SandboxPolicy { allowed_read_paths: read, allowed_write_paths: write, block_network: false },
            command,
            env_vars: Vec::new(),
        };
        assert(job@.policy.allowed_read_paths =~= seq!["/usr"@]);
        assert(job@.policy.allowed_write_paths =~= seq![git_repo_path(agent)]);
        assert(job@.env_vars =~= Seq::<(Seq<char>, Seq<char>)>::empty());
        Ok(job)
    }

    /// The answer once the clone ran; a successful clone becomes the agent's workspace.
    pub fn finish(agent: AgentId, result: Result<String, ExecError>, registry: &mut RuntimeRegistry) -> (r:
        DaemonResult<String>)
        ensures
            match result {
                Ok(_) => text_result_view(r) == Ok::<Seq<char>, DaemonErrorView>(
                    "Repository cloned successfully into workspace."@,
                ) && final(registry)@ == old(registry)@.insert(
                    agent,
                    runtimes_with(runtimes_of(old(registry)@, agent), RuntimeKind::Workspace, git_repo_path(agent)),
                ),
                Err(e) => text_result_view(r) == Err::<Seq<char>, DaemonErrorView>(
                    DaemonErrorView::ToolError("Git clone failed: "@ + e.message@),
                ) && final(registry)@ == old(registry)@,
            },
    {
        match result {
            Ok(_) => {
                registry.record(agent, RuntimeKind::Workspace, Self::repo_path(agent));
                Ok(String::from_str("Repository cloned successfully into workspace."))
            },
            Err(e) => {
                let mut m = String::from_str("Git clone failed: ");
                m.append(e.message.as_str());
                Err(DaemonError::ToolError(m))
            },
        }
    }
}

/// `npm_install`: installs the Node.js dependencies of the agent's workspace.
pub struct NodeTool;

impl NodeTool {
    /// The job: `npm install` inside the workspace, reading `/usr` and
    /// `/Library`, writing only the workspace, with the network open; an
    /// error where the agent has no workspace.
    pub fn plan(runtimes: Option<&RuntimePaths>) -> (r: DaemonResult<SandboxJob>)
        ensures
            match opt_runtimes_view(runtimes) {
                Some(RuntimePathsView { workspace: Some(w), .. }) => r matches Ok(job) && job@ == (
                JobView {
                    policy: open_policy(seq!["/usr"@, "/Library"@], seq![w]),
                    command: "cd "@ + w + " && npm install"@,
                    env_vars: Seq::empty(),
                }),
                _ => r matches Err(e) && e@ == DaemonErrorView::ToolError(
                    "No workspace found for agent"@,
                ),
            },
    {
        let ws = match runtimes {
            Some(rt) => match &rt.workspace {
                Some(w) => w.clone(),
                None => {
                    return Err(DaemonError::ToolError(String::from_str("No workspace found for agent")));
                },
            },
            None => {
                return Err(DaemonError::ToolError(String::from_str("No workspace found for agent")));
            },
        };
        let ghost wv = ws@;
        let mut command = String::from_str("cd ");
        command.append(ws.as_str());
        command.append(" && npm install");
        let read = strings_of(&["/usr", "/Library"]);
        let mut write: Vec<String> = Vec::new();
        write.push(ws);
        let job = SandboxJob {
            policy: SandboxPolicy { allowed_read_paths: read, allowed_write_paths: write, block_network: false },
            command,
            env_vars: Vec::new(),
        };
        assert(job@.policy.allowed_read_paths =~= seq!["/usr"@, "/Library"@]);
        assert(job@.policy.allowed_write_paths =~= seq![wv]);
        assert(job@.env_vars =~= Seq::<(Seq<char>, Seq<char>)>::empty());
        Ok(job)
    }

    /// The answer once the install ran.
    pub fn finish(result: Result<String, ExecError>) -> (r: DaemonResult<String>)
        ensures
            match result {
                Ok(_) => text_result_view(r) == Ok::<Seq<char>, DaemonErrorView>(
                    "Node.js dependencies installed successfully."@,
                ),
                Err(e) => text_result_view(r) == Err::<Seq<char>, DaemonErrorView>(
                    DaemonErrorView::ToolError("npm install failed: "@ + e.message@),
                ),
            },
    {
        match result {
            Ok(_) => Ok(String::from_str("Node.js dependencies installed successfully.")),
            Err(e) => {
                let mut m = String::from_str("npm install failed: ");
                m.append(e.message.as_str());
                Err(DaemonError::ToolError(m))
            },
        }
    }
}

/// Where the virtual environment of an agent is made.
pub open spec fn venv_dir(agent: AgentId) -> Seq<char> {
    "/tmp/enversal-venvs/"@ + uuid_text(agent)
}

/// The packages that `args` asks for: the items of member `packages`, an item
/// that is not a string standing as the empty name; none where there is no
/// such list.
pub open spec fn requested_packages(args: Seq<char>) -> Seq<Seq<char>> {
    packages_of(json_array_member(args, "packages"@))
}

/// The view of the items read out of a list member, where there was one.
pub open spec fn opt_items_view(items: Option<Vec<Option<String>>>) -> Option<Seq<Option<Seq<char>>>> {
    match items {
        Some(v) => Some(opt_strings_view(v@)),
        None => None,
    }
}

/// The package names of a list's items: an item that is not a string stands
/// as the empty name; none where there is no list.
pub open spec fn packages_of(items: Option<Seq<Option<Seq<char>>>>) -> Seq<Seq<char>> {
    match items {
        Some(items) => items.map_values(
            |o: Option<Seq<char>>|
                match o {
                    Some(s) => s,
                    None => Seq::<char>::empty(),
                },
        ),
        None => Seq::empty(),
    }
}

/// The command that builds a virtual environment at `venv` and installs `packages`.
pub open spec fn venv_command(venv: Seq<char>, packages: Seq<Seq<char>>) -> Seq<char> {
    "python3 -m venv "@ + venv + " && "@ + venv + "/bin/pip install "@ + join_with(packages, " "@)
}

/// The environment of the build: scratch and cache inside the virtual
/// environment, which also serves as home.
pub open spec fn venv_env(venv: Seq<char>) -> Seq<(Seq<char>, Seq<char>)> {
    seq![
        ("TMPDIR"@, path_join(venv, "tmp"@)),
        ("PIP_CACHE_DIR"@, path_join(venv, "cache"@)),
        ("HOME"@, venv),
    ]
}

/// `provision_env`: sets up a Python virtual environment for the agent.
pub struct PythonTool;

impl PythonTool {
    /// Where the virtual environment of `agent` is made.
    pub fn venv_dir(agent: AgentId) -> (r: String)
        ensures
            r@ == venv_dir(agent),
    {
        let mut r = String::from_str("/tmp/enversal-venvs/");
        let id = uuid_string(agent);
        r.append(id.as_str());
        r
    }

    /// The packages that `args` asks for.
    pub fn packages(args: &str) -> (r: Vec<String>)
        ensures
            strs_view(r@) == requested_packages(args@),
    {
        let items = json_member_items(args, "packages");
        Self::packages_from(items)
    }

    /// The package names of the items read out of member `packages` (`None`
    /// where there is no such list).
    pub fn packages_from(items: Option<Vec<Option<String>>>) -> (r: Vec<String>)
        ensures
            strs_view(r@) == packages_of(opt_items_view(items)),
    {
        let mut r: Vec<String> = Vec::new();
        match items {
            Some(items) => {
                let mut i: usize = 0;
                while i < items.len()
                    invariant
                        i <= items@.len(),
                        r@.len() == i,
                        forall|j: int|
                            0 <= j < i ==> r@[j]@ == match #[trigger] items@[j] {
                                Some(s) => s@,
                                None => Seq::<char>::empty(),
                            },
                    decreases items.len() - i,
                {
                    match &items[i] {
                        Some(s) => r.push(s.clone()),
                        None => r.push(String::new()),
                    }
                    i = i + 1;
                }
                assert(strs_view(r@) =~= packages_of(opt_items_view(Some(items))));
            },
            None => {
                assert(strs_view(r@) =~= packages_of(opt_items_view(None)));
            },
        }
        r
    }

    /// The job that builds the virtual environment at `venv` (its resolved
    /// path) and installs the packages that `args` asks for.
    pub fn plan(args: &str, venv: &str) -> (r: SandboxJob)
        ensures
            r@ == (JobView {
                policy: open_policy(seq!["/usr"@, "/Library"@], seq![venv@]),
                command: venv_command(venv@, requested_packages(args@)),
                env_vars: venv_env(venv@),
            }),
    {
        let packages = Self::packages(args);
        let mut command = String::from_str("python3 -m venv ");
        command.append(venv);
        command.append(" && ");
        command.append(venv);
        command.append("/bin/pip install ");
        let list = join_strings(&packages, " ");
        command.append(list.as_str());
        let mut env_vars: EnvVars = Vec::new();
        env_vars.push((String::from_str("TMPDIR"), join_path(venv, "tmp")));
        env_vars.push((String::from_str("PIP_CACHE_DIR"), join_path(venv, "cache")));
        env_vars.push((String::from_str("HOME"), String::from_str(venv)));
        let read = strings_of(&["/usr", "/Library"]);
        let mut write: Vec<String> = Vec::new();
        write.push(String::from_str(venv));
        let job = SandboxJob {
            policy: SandboxPolicy { allowed_read_paths: read, allowed_write_paths: write, block_network: false },
            command,
            env_vars,
        };
        assert(job@.policy.allowed_read_paths =~= seq!["/usr"@, "/Library"@]);
        assert(job@.policy.allowed_write_paths =~= seq![venv@]);
        assert(job@.env_vars =~= venv_env(venv@));
        job
    }

    /// The answer once the build ran; a successful build becomes the agent's
    /// Python runtime.
    pub fn finish(agent: AgentId, venv: &str, result: Result<String, ExecError>, registry: &mut RuntimeRegistry) -> (r:
        DaemonResult<String>)
        ensures
            match result {
                Ok(_) => text_result_view(r) == Ok::<Seq<char>, DaemonErrorView>(
                    "Python venv provisioned successfully."@,
                ) && final(registry)@ == old(registry)@.insert(
                    agent,
                    runtimes_with(runtimes_of(old(registry)@, agent), RuntimeKind::Python, venv@),
                ),
                Err(e) => text_result_view(r) == Err::<Seq<char>, DaemonErrorView>(
                    DaemonErrorView::ToolError("Failed to provision venv: "@ + e.message@),
                ) && final(registry)@ == old(registry)@,
            },
    {
        match result {
            Ok(_) => {
                registry.record(agent, RuntimeKind::Python, String::from_str(venv));
                Ok(String::from_str("Python venv provisioned successfully."))
            },
            Err(e) => {
                let mut m = String::from_str("Failed to provision venv: ");
                m.append(e.message.as_str());
                Err(DaemonError::ToolError(m))
            },
        }
    }
}

/// A sandboxed shell command has the network blocked exactly when the
/// environment allows no domain (and always where the environment is unknown).
pub proof fn law_network_blocked_without_domains(limits: Option<LimitsView>, rt: Option<RuntimePathsView>)
    ensures
        shell_policy(limits, rt).block_network <==> match limits {
            Some(l) => l.allowed_network_domains.len() == 0,
            None => true,
        },
{
}

/// A shell command never gets more than the environment allows, plus the
/// agent's own workspace: it reads the environment's read paths, and writes
/// the environment's write paths and, last, the workspace where there is one.
pub proof fn law_shell_confined(l: LimitsView, rt: Option<RuntimePathsView>)
    ensures
        shell_policy(Some(l), rt).allowed_read_paths == l.allowed_read_paths,
        match rt {
            Some(RuntimePathsView { workspace: Some(w), .. }) => shell_policy(Some(l), rt).allowed_write_paths
                == l.allowed_write_paths.push(w),
            _ => shell_policy(Some(l), rt).allowed_write_paths == l.allowed_write_paths,
        },
{
}

/// After a successful clone, the agent's next shell commands run in its
/// workspace: `WORKSPACE` names the repository, its `node_modules/.bin` leads
/// the search path, and it is writable.
pub proof fn law_clone_then_shell_sees_workspace(
    reg: Map<AgentId, RuntimePathsView>,
    agent: AgentId,
    limits: Option<LimitsView>,
)
    ensures
        ({
            let after = reg.insert(
                agent,
                runtimes_with(runtimes_of(reg, agent), RuntimeKind::Workspace, git_repo_path(agent)),
            );
            let rt = runtimes_of(after, agent);
            &&& shell_env(rt).len() == 2
            &&& shell_env(rt)[1] == ("WORKSPACE"@, git_repo_path(agent))
            &&& shell_env(rt)[0].0 == "PATH"@
            &&& shell_env(rt)[0].1.take(
                path_join(path_join(git_repo_path(agent), "node_modules"@), ".bin"@).len() as int,
            ) == path_join(path_join(git_repo_path(agent), "node_modules"@), ".bin"@)
            &&& shell_policy(limits, rt).allowed_write_paths.last() == git_repo_path(agent)
        }),
{
    let after = reg.insert(
        agent,
        runtimes_with(runtimes_of(reg, agent), RuntimeKind::Workspace, git_repo_path(agent)),
    );
    let rt = runtimes_of(after, agent);
    let nb = path_join(path_join(git_repo_path(agent), "node_modules"@), ".bin"@);
    let rest = ":"@ + match rt->0.python {
        Some(p) => path_join(p, "bin"@) + ":"@ + default_search_path(),
        None => default_search_path(),
    };
    assert(shell_env(rt)[0].1 == nb + rest);
    assert((nb + rest).take(nb.len() as int) =~= nb);
}

/// After a successful Python set-up, the agent's next shell commands find the
/// environment's `bin` on their search path, and the workspace (if any) is
/// kept.
pub proof fn law_venv_then_shell_sees_python(
    reg: Map<AgentId, RuntimePathsView>,
    agent: AgentId,
    venv: Seq<char>,
)
    ensures
        ({
            let before = runtimes_of(reg, agent);
            let after = reg.insert(agent, runtimes_with(before, RuntimeKind::Python, venv));
            let rt = runtimes_of(after, agent);
            &&& rt->0.python == Some(venv)
            &&& rt->0.workspace == match before {
                Some(b) => b.workspace,
                None => None,
            }
            &&& rt->0.workspace is None ==> shell_env(rt) == seq![
                ("PATH"@, path_join(venv, "bin"@) + ":"@ + default_search_path()),
            ]
        }),
{
}

} // verus!
