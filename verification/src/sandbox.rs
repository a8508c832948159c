//! Sandbox policies and what the native executors make of them.

use vstd::prelude::*;
use crate::ids::{AgentId, uuid_string, uuid_text};
use crate::limits::{clone_strings, strs_view};
use crate::text::{contains_seq, occurs_at, trim, trim_str};

verus! {

/// What an executor may do on the host.
#[derive(Debug)]
pub struct SandboxPolicy {
    /// Paths the executed command may read.
    pub allowed_read_paths: Vec<String>,
    /// Paths the executed command may write.
    pub allowed_write_paths: Vec<String>,
    /// Whether all network egress is dropped.
    pub block_network: bool,
}

/// The mathematical content of a `SandboxPolicy`.
pub struct PolicyView {
    pub allowed_read_paths: Seq<Seq<char>>,
    pub allowed_write_paths: Seq<Seq<char>>,
    pub block_network: bool,
}

impl View for SandboxPolicy {
    type V = PolicyView;

    open spec fn view(&self) -> PolicyView {
        PolicyView {
            allowed_read_paths: strs_view(self.allowed_read_paths@),
            allowed_write_paths: strs_view(self.allowed_write_paths@),
            block_network: self.block_network,
        }
    }
}

impl Default for SandboxPolicy {
    /// No paths, network allowed.
    fn default() -> (r: Self)
        ensures
            r@.allowed_read_paths == Seq::<Seq<char>>::empty(),
            r@.allowed_write_paths == Seq::<Seq<char>>::empty(),
            !r@.block_network,
    {
        let r = SandboxPolicy {
            allowed_read_paths: Vec::new(),
            allowed_write_paths: Vec::new(),
            block_network: false,
        };
        assert(r@.allowed_read_paths =~= Seq::<Seq<char>>::empty());
        assert(r@.allowed_write_paths =~= Seq::<Seq<char>>::empty());
        r
    }
}

impl SandboxPolicy {
    /// A copy of this policy.
    pub fn duplicate(&self) -> (r: Self)
        ensures
            r@ == self@,
    {
        SandboxPolicy {
            allowed_read_paths: clone_strings(&self.allowed_read_paths),
            allowed_write_paths: clone_strings(&self.allowed_write_paths),
            block_network: self.block_network,
        }
    }
}

/// The environment variables handed to a sandboxed command, as pairs.
pub type EnvVars = Vec<(String, String)>;

/// The view of a list of environment variables.
pub open spec fn env_view(v: Seq<(String, String)>) -> Seq<(Seq<char>, Seq<char>)> {
    v.map_values(|p: (String, String)| (p.0@, p.1@))
}

/// Why a sandboxed command failed, as text.
#[derive(Debug)]
pub struct ExecError {
    pub message: String,
}

/// The seatbelt rule that allows writes under `path`.
pub open spec fn write_rule(path: Seq<char>) -> Seq<char> {
    "(allow file-write* (subpath \""@ + path + "\"))\n"@
}

/// The write rules for all of `paths`, in order.
pub open spec fn write_rules(paths: Seq<Seq<char>>) -> Seq<char>
    decreases paths.len(),
{
    if paths.len() == 0 {
        Seq::empty()
    } else {
        write_rules(paths.drop_last()) + write_rule(paths.last())
    }
}

/// The seatbelt profile for a policy: everything allowed, then network denied
/// where it is blocked, then all writes denied, and holes opened for the
/// terminal and under each allowed write path, in order.
pub open spec fn seatbelt_profile_text(p: PolicyView) -> Seq<char> {
    "(version 1)\n(allow default)\n"@ + (if p.block_network {
        "(deny network*)\n"@
    } else {
        Seq::empty()
    }) + "(deny file-write*)\n"@ + "(allow file-write-data (literal \"/dev/tty\"))\n"@ + write_rules(
        p.allowed_write_paths,
    )
}

/// What occurs in `b` occurs in `a + b`, shifted by the length of `a`.
proof fn lemma_occurs_in_suffix(a: Seq<char>, b: Seq<char>, pat: Seq<char>, k: int)
    requires
        occurs_at(b, pat, k),
    ensures
        occurs_at(a + b, pat, a.len() + k),
{
    assert((a + b).subrange(a.len() + k, a.len() + k + pat.len()) =~= b.subrange(k, k + pat.len()));
}

/// What occurs in `a` occurs in `a + b` at the same place.
proof fn lemma_occurs_in_prefix(a: Seq<char>, b: Seq<char>, pat: Seq<char>, k: int)
    requires
        occurs_at(a, pat, k),
    ensures
        occurs_at(a + b, pat, k),
{
    assert((a + b).subrange(k, k + pat.len()) =~= a.subrange(k, k + pat.len()));
}

/// The write rules of a list of paths hold the rule of each of them.
proof fn lemma_write_rules_hold(paths: Seq<Seq<char>>, i: int)
    requires
        0 <= i < paths.len(),
    ensures
        contains_seq(write_rules(paths), write_rule(paths[i])),
    decreases paths.len(),
{
    let front = write_rules(paths.drop_last());
    if i == paths.len() - 1 {
        assert(write_rule(paths.last()).subrange(0, write_rule(paths.last()).len() as int) =~= write_rule(
            paths.last(),
        ));
        assert(occurs_at(write_rule(paths.last()), write_rule(paths[i]), 0));
        lemma_occurs_in_suffix(front, write_rule(paths.last()), write_rule(paths[i]), 0);
    } else {
        lemma_write_rules_hold(paths.drop_last(), i);
        let k = choose|k: int| occurs_at(front, write_rule(paths.drop_last()[i]), k);
        lemma_occurs_in_prefix(front, write_rule(paths.last()), write_rule(paths[i]), k);
    }
}

/// Whatever the network setting, the profile bans all writes and then opens
/// a hole for every allowed write path; the network is denied where the
/// policy blocks it.
pub proof fn law_profile_opens_each_write_path(p: PolicyView, i: int)
    requires
        0 <= i < p.allowed_write_paths.len(),
    ensures
        contains_seq(seatbelt_profile_text(p), "(allow file-write* (subpath \""@ + p.allowed_write_paths[i] + "\"))\n"@),
        contains_seq(seatbelt_profile_text(p), "(deny file-write*)\n"@),
        p.block_network ==> contains_seq(seatbelt_profile_text(p), "(deny network*)\n"@),
{
    let head = "(version 1)\n(allow default)\n"@;
    let net = if p.block_network { "(deny network*)\n"@ } else { Seq::<char>::empty() };
    let ban = "(deny file-write*)\n"@;
    let tty = "(allow file-write-data (literal \"/dev/tty\"))\n"@;
    let rules = write_rules(p.allowed_write_paths);
    let front = head + net + ban + tty;
    assert(seatbelt_profile_text(p) == front + rules);
    lemma_write_rules_hold(p.allowed_write_paths, i);
    let k = choose|k: int| occurs_at(rules, write_rule(p.allowed_write_paths[i]), k);
    lemma_occurs_in_suffix(front, rules, write_rule(p.allowed_write_paths[i]), k);
    assert(ban.subrange(0, ban.len() as int) =~= ban);
    lemma_occurs_in_suffix(head + net, ban, ban, 0);
    lemma_occurs_in_prefix(head + net + ban, tty, ban, (head + net).len() as int);
    lemma_occurs_in_prefix(front, rules, ban, (head + net).len() as int);
    if p.block_network {
        assert(net.subrange(0, net.len() as int) =~= net);
        lemma_occurs_in_suffix(head, net, net, 0);
        lemma_occurs_in_prefix(head + net, ban, net, head.len() as int);
        lemma_occurs_in_prefix(head + net + ban, tty, net, head.len() as int);
        lemma_occurs_in_prefix(front, rules, net, head.len() as int);
    }
}

/// The text of a lossy UTF-8 decoding of `bytes`, as `String::from_utf8_lossy`
/// gives it.
pub uninterp spec fn utf8_lossy_text(bytes: Seq<u8>) -> Seq<char>;

/// Decodes bytes with `String::from_utf8_lossy`.
///
/// The contract names the result, and states the one fact that std documents
/// plainly: valid UTF-8 comes out as the characters it encodes.
#[verifier::external_body]
pub(crate) fn utf8_lossy(bytes: &[u8]) -> (r: String)
    ensures
        r@ == utf8_lossy_text(bytes@),
        vstd::utf8::valid_utf8(bytes@) ==> r@ == vstd::utf8::decode_utf8(bytes@),
{
    String::from_utf8_lossy(bytes).into_owned()
}

/// The error text of a failed seatbelt run.
pub open spec fn seatbelt_failure_text(agent: AgentId, stderr: Seq<char>) -> Seq<char> {
    "Seatbelt Execution Failed [Agent: "@ + uuid_text(agent) + "]: "@ + trim(stderr)
}

/// The macOS executor, which runs commands under a generated seatbelt profile.
pub struct SeatbeltExecutor;

impl SeatbeltExecutor {
    /// The seatbelt profile that confines a command to `policy`.
    pub fn profile(policy: &SandboxPolicy) -> (r: String)
        ensures
            r@ == seatbelt_profile_text(policy@),
    {
        let mut profile = String::from_str("(version 1)\n(allow default)\n");
        if policy.block_network {
            profile.append("(deny network*)\n");
        }
        profile.append("(deny file-write*)\n");
        profile.append("(allow file-write-data (literal \"/dev/tty\"))\n");
        let ghost start = profile@;
        let mut i: usize = 0;
        while i < policy.allowed_write_paths.len()
            invariant
                i <= policy.allowed_write_paths@.len(),
                profile@ == start + write_rules(
                    strs_view(policy.allowed_write_paths@).take(i as int),
                ),
            decreases policy.allowed_write_paths.len() - i,
        {
            profile.append("(allow file-write* (subpath \"");
            profile.append(policy.allowed_write_paths[i].as_str());
            profile.append("\"))\n");
            assert(strs_view(policy.allowed_write_paths@).take(i + 1).drop_last()
                =~= strs_view(policy.allowed_write_paths@).take(i as int));
            i = i + 1;
        }
        assert(strs_view(policy.allowed_write_paths@).take(
            policy.allowed_write_paths@.len() as int,
        ) =~= strs_view(policy.allowed_write_paths@));
        profile
    }

    /// What a finished run gives: its trimmed standard output on success,
    /// else an error naming the agent and the trimmed standard error.
    pub fn outcome(agent: AgentId, success: bool, stdout: &[u8], stderr: &[u8]) -> (r: Result<
        String,
        ExecError,
    >)
        ensures
            success ==> (r matches Ok(out) && out@ == trim(utf8_lossy_text(stdout@))),
            !success ==> (r matches Err(e) && e.message@ == seatbelt_failure_text(
                agent,
                utf8_lossy_text(stderr@),
            )),
    {
        if success {
            let out = utf8_lossy(stdout);
            Ok(trim_str(out.as_str()))
        } else {
            let err = utf8_lossy(stderr);
            let mut message = String::from_str("Seatbelt Execution Failed [Agent: ");
            let id_text = uuid_string(agent);
            message.append(id_text.as_str());
            message.append("]: ");
            let trimmed = trim_str(err.as_str());
            message.append(trimmed.as_str());
            Err(ExecError { message })
        }
    }
}

/// The error text of a failed Landlock run.
pub open spec fn landlock_failure_text(agent: AgentId, stderr: Seq<char>) -> Seq<char> {
    "Landlock Execution Failed [Agent: "@ + uuid_text(agent) + "]: "@ + trim(stderr)
}

/// The Linux executor, built on Landlock: the command runs as a confined child
/// process, and its output or its failure comes back.
pub struct LandlockExecutor;

impl LandlockExecutor {
    /// What a finished run gives: its trimmed standard output on success,
    /// else an error naming the agent and the trimmed standard error.
    pub fn outcome(agent: AgentId, success: bool, stdout: &[u8], stderr: &[u8]) -> (r: Result<
        String,
        ExecError,
    >)
        ensures
            success ==> (r matches Ok(out) && out@ == trim(utf8_lossy_text(stdout@))),
            !success ==> (r matches Err(e) && e.message@ == landlock_failure_text(
                agent,
                utf8_lossy_text(stderr@),
            )),
    {
        if success {
            let out = utf8_lossy(stdout);
            Ok(trim_str(out.as_str()))
        } else {
            let err = utf8_lossy(stderr);
            let mut message = String::from_str("Landlock Execution Failed [Agent: ");
            let id_text = uuid_string(agent);
            message.append(id_text.as_str());
            message.append("]: ");
            let trimmed = trim_str(err.as_str());
            message.append(trimmed.as_str());
            Err(ExecError { message })
        }
    }
}

} // verus!
