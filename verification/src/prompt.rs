//! The agent protocol: system instructions, and reading the tags that a model
//! writes into its replies (`<tool_call name="..">`, `<plan>`, `<finish>`,
//! `<approved>`, `<rejected>`).

use vstd::prelude::*;
use crate::ids::AgentId;
use crate::json::{json_normalize, json_reprint};
use crate::text::{
    chars_of, contains_seq, find_from, find_from_exec, is_first_from, lemma_occurrence_has_first,
    lemma_trim_idempotent, occurs_at, substring, trim, trim_bounds,
};

verus! {

/// The instruction that opens every agent's system prompt: autonomy rules,
/// the planning and tool-call protocol, and the list of tools.
pub const MASTER_SYSTEM_INSTRUCTION: &'static str = r#"
You are an Enversal OS Agent, an autonomous entity living within a secure sandboxed environment. 
Your goal is provided below. You must achieve this goal by using the tools available to you.

### AUTONOMY RULES
1. NEVER ask the user to upload files, provide data, or perform tasks for you. 
2. Assume you have access to a terminal and a filesystem. Use `ls`, `cat`, and other shell commands to explore your environment.
3. If you need a codebase, use `git_clone`. If you need dependencies, use `provision_env` or `npm_install`.
4. Always explain your reasoning before taking an action.

### MANDATORY PLANNING
In your VERY FIRST response, you MUST provide a task execution plan using the following tag:
<plan>
A high-level strategy and specific sequential steps you will take to achieve the goal.
</plan>
You may update your plan later if your strategy changes.

### SECURITY & BOUNDARIES
1. The Enversal OS handles all permissions and system-level configurations.
2. NEVER attempt to use `sudo`, `chown`, or `chmod` on directories outside of your workspace.
3. You are restricted to your designated sandbox. If a tool fails with a permission error, do NOT try to "fix" it by changing system permissions; instead, adjust your strategy to work within your authorized paths.
4. Your authorized workspace is provided in the initial system snapshot.

### PROTOCOL
To take an action, you must use the following XML format:
<thought>
Reason about the current state and why the next action is being taken.
</thought>
<tool_call name="sandbox_exec">
{"cmd": "ls -la"}
</tool_call>
IMPORTANT: You MUST close tool calls with </tool_call>. Do NOT use </tool>.

### COMPLETION
When you have definitively finished your goal, you MUST wrap your final report in the following tag:
<finish>
A detailed summary of what you accomplished, including paths to any generated files.
</finish>
ONLY use the <finish> tag once you have successfully executed the tools and verified the results yourself.

Available Tools:
- sandbox_exec: Run a shell command. Args: {"cmd": "..."}
- provision_env: Setup a Python venv. Args: {"packages": ["..."]}
- git_clone: Clone a repository. Args: {"url": "..."}
- npm_install: Install Node.js dependencies.
"#;

/// The instruction given to the auditor that checks an agent's finished work.
pub const EVALUATOR_SYSTEM_INSTRUCTION: &'static str = r#"
You are the Enversal OS Auditor. Your sole purpose is to verify the work of another autonomous agent.
You will be provided with the agent's final report and their history of observations.

### YOUR MISSION
1. YOU MUST VERIFY EVERYTHING. It is an AUTOMATIC FAILURE of your mission if you approve a task based solely on the agent's report without independent verification.
2. USE TOOLS (like sandbox_exec) to verify the agent's claims. If they say they created a file, use `ls` and `cat` to verify its existence and content.
3. If the work is correct, complete, and meets the goal, respond with: <approved>
4. If you find errors, missing files, or poor quality, respond with: <rejected>A detailed explanation of what is wrong</rejected>

Do NOT be lenient. You are the final gatekeeper for quality and safety.
"#;
/// A request by a model to run a tool: its name and its arguments as compact
/// JSON text.
pub struct ToolCallRequest {
    pub tool_name: String,
    pub arguments: String,
}

/// What a reasoning engine made of one turn.
pub enum ReasoningOutput {
    /// Plain text, to be read for tags.
    Message(String),
    /// A request to run a tool.
    ToolCall(ToolCallRequest),
}

/// What a reasoning engine is given for one turn of one agent.
pub struct AgentContext {
    pub agent_id: AgentId,
    pub model: String,
    pub system_prompt: String,
    pub recent_observations: Vec<String>,
}

/// The heading placed between the master instruction and an agent's goal.
pub open spec fn goal_heading() -> Seq<char> {
    "\n\n### YOUR SPECIFIC GOAL\n"@
}

/// The master instruction followed by an agent's specific goal.
pub open spec fn spec_goal_prompt(goal: Seq<char>) -> Seq<char> {
    MASTER_SYSTEM_INSTRUCTION@ + goal_heading() + goal
}

/// The master instruction followed by `goal` under its heading.
pub fn goal_prompt(goal: &str) -> (r: String)
    ensures
        r@ == spec_goal_prompt(goal@),
{
    let mut r = String::from_str(MASTER_SYSTEM_INSTRUCTION);
    r.append("\n\n### YOUR SPECIFIC GOAL\n");
    r.append(goal);
    r
}

/// The text between the first `open` tag and the first `close` tag after it.
pub open spec fn tag_block(s: Seq<char>, open: Seq<char>, close: Seq<char>) -> Option<Seq<char>> {
    match find_from(s, open, 0) {
        Some(i) => match find_from(s, close, i + open.len()) {
            Some(j) => Some(s.subrange(i + open.len(), j)),
            None => None,
        },
        None => None,
    }
}

/// The bounds of `tag_block` in `v`.
fn tag_block_bounds(v: &Vec<char>, open: &Vec<char>, close: &Vec<char>) -> (r: Option<(usize, usize)>)
    ensures
        match r {
            Some((a, b)) => a <= b <= v@.len() && tag_block(v@, open@, close@) == Some(
                v@.subrange(a as int, b as int),
            ),
            None => tag_block(v@, open@, close@) is None,
        },
{
    match find_from_exec(v, open, 0) {
        Some(i) => {
            assert(is_first_from(v@, open@, 0, i as int));
            let _n = v.len();
            assert(i + open@.len() <= v@.len());
            match find_from_exec(v, close, i + open.len()) {
                Some(j) => {
                    assert(occurs_at(v@, close@, j as int));
                    Some((i + open.len(), j))
                },
                None => None,
            }
        },
        None => None,
    }
}

/// The plan that a reply states between `<plan>` and `</plan>`.
pub open spec fn spec_parse_plan(s: Seq<char>) -> Option<Seq<char>> {
    tag_block(s, "<plan>"@, "</plan>"@)
}

/// Reads the plan out of a reply: the text between the first `<plan>` and the
/// first `</plan>` after it.
pub fn parse_plan(text: &str) -> (r: Option<String>)
    ensures
        r.deep_view() == spec_parse_plan(text@),
{
    let v = chars_of(text);
    let open = chars_of("<plan>");
    let close = chars_of("</plan>");
    match tag_block_bounds(&v, &open, &close) {
        Some((a, b)) => Some(substring(text, a, b)),
        None => None,
    }
}

/// The final report that a reply states between `<finish>` and `</finish>`,
/// without surrounding white space.
pub open spec fn spec_parse_finish(s: Seq<char>) -> Option<Seq<char>> {
    match tag_block(s, "<finish>"@, "</finish>"@) {
        Some(b) => Some(trim(b)),
        None => None,
    }
}

/// Reads the final report out of a reply.
pub fn parse_finish(text: &str) -> (r: Option<String>)
    ensures
        r.deep_view() == spec_parse_finish(text@),
{
    let v = chars_of(text);
    let open = chars_of("<finish>");
    let close = chars_of("</finish>");
    match tag_block_bounds(&v, &open, &close) {
        Some((a, b)) => {
            let (c, d) = trim_bounds(&v, a, b);
            Some(substring(text, c, d))
        },
        None => None,
    }
}

/// The auditor's decision: approval where the reply holds `<approved>`, else
/// the reason given between `<rejected>` and `</rejected>`.
pub open spec fn spec_parse_evaluation(s: Seq<char>) -> Option<Result<Seq<char>, Seq<char>>> {
    if contains_seq(s, "<approved>"@) {
        Some(Ok("Task Approved"@))
    } else {
        match tag_block(s, "<rejected>"@, "</rejected>"@) {
            Some(reason) => Some(Err(reason)),
            None => None,
        }
    }
}

/// The view of an evaluation result.
pub open spec fn evaluation_view(r: Option<Result<String, String>>) -> Option<Result<Seq<char>, Seq<char>>> {
    match r {
        Some(Ok(a)) => Some(Ok(a@)),
        Some(Err(e)) => Some(Err(e@)),
        None => None,
    }
}

/// Reads the auditor's decision out of a reply.
pub fn parse_evaluation(text: &str) -> (r: Option<Result<String, String>>)
    ensures
        evaluation_view(r) == spec_parse_evaluation(text@),
{
    let v = chars_of(text);
    let approved = chars_of("<approved>");
    match find_from_exec(&v, &approved, 0) {
        Some(i) => {
            assert(occurs_at(v@, approved@, i as int));
            return Some(Ok(String::from_str("Task Approved")));
        },
        None => {
            proof {
                if contains_seq(v@, approved@) {
                    let i = choose|i: int| occurs_at(v@, approved@, i);
                    lemma_occurrence_has_first(v@, approved@, 0, i);
                }
            }
        },
    }
    let open = chars_of("<rejected>");
    let close = chars_of("</rejected>");
    match tag_block_bounds(&v, &open, &close) {
        Some((a, b)) => Some(Err(substring(text, a, b))),
        None => None,
    }
}

/// The text that opens a tool call, up to the quote before the tool's name.
pub open spec fn tool_call_open() -> Seq<char> {
    "<tool_call name=\""@
}

/// The tag that closes a tool call.
pub open spec fn tool_call_close() -> Seq<char> {
    "</tool_call>"@
}

/// The position of the quote that ends the tool name of a call opened at `i`.
pub open spec fn name_end(s: Seq<char>, i: int) -> Option<int> {
    find_from(s, "\""@, i + tool_call_open().len())
}

/// A complete tool call starts at `i`: the opening text, a name of at least
/// one character up to the first quote, `>` right after that quote, and a
/// closing tag somewhere after.
pub open spec fn tool_call_at(s: Seq<char>, i: int) -> bool {
    &&& occurs_at(s, tool_call_open(), i)
    &&& name_end(s, i) is Some
    &&& name_end(s, i)->0 > i + tool_call_open().len()
    &&& name_end(s, i)->0 + 1 < s.len()
    &&& s[name_end(s, i)->0 + 1] == '>'
    &&& find_from(s, tool_call_close(), name_end(s, i)->0 + 2) is Some
}

/// `i` is where the first complete tool call starts.
pub open spec fn first_tool_call(s: Seq<char>, i: int) -> bool {
    tool_call_at(s, i) && forall|j: int| 0 <= j < i ==> !tool_call_at(s, j)
}

/// The name and the argument text of the first complete tool call, the
/// argument text without surrounding white space.
pub open spec fn tool_call_parts(s: Seq<char>) -> Option<(Seq<char>, Seq<char>)> {
    if exists|i: int| first_tool_call(s, i) {
        let i = choose|i: int| first_tool_call(s, i);
        let q = name_end(s, i)->0;
        let t = find_from(s, tool_call_close(), q + 2)->0;
        Some((s.subrange(i + tool_call_open().len(), q), trim(s.subrange(q + 2, t))))
    } else {
        None
    }
}

/// The tool call that a reply requests: the first complete call, where its
/// arguments are JSON; the arguments are kept as `serde_json` prints them.
pub open spec fn spec_parse_tool_call(s: Seq<char>) -> Option<(Seq<char>, Seq<char>)> {
    match tool_call_parts(s) {
        Some((name, body)) => match json_reprint(body) {
            Some(args) => Some((name, args)),
            None => None,
        },
        None => None,
    }
}

/// The view of an optional tool call: its name and its argument text.
pub open spec fn tool_call_view(r: Option<ToolCallRequest>) -> Option<(Seq<char>, Seq<char>)> {
    match r {
        Some(c) => Some((c.tool_name@, c.arguments@)),
        None => None,
    }
}

/// Reads a tool call out of a reply.
pub fn parse_tool_call(text: &str) -> (r: Option<ToolCallRequest>)
    ensures
        tool_call_view(r) == spec_parse_tool_call(text@),
{
    match tool_call_text(text) {
        Some((name, body)) => {
            let args = json_normalize(body.as_str());
            tool_call_from(name, args)
        },
        None => None,
    }
}

/// The tool call for a name and the arguments as `serde_json` reprinted them
/// (`None` where they are not JSON, and then there is no call).
pub fn tool_call_from(name: String, args: Option<String>) -> (r: Option<ToolCallRequest>)
    ensures
        tool_call_view(r) == match args {
            Some(a) => Some((name@, a@)),
            None => None,
        },
{
    match args {
        Some(arguments) => Some(ToolCallRequest { tool_name: name, arguments }),
        None => None,
    }
}

/// The name and the trimmed argument text of the first complete tool call
/// of a reply.
pub fn tool_call_text(text: &str) -> (r: Option<(String, String)>)
    ensures
        match r {
            Some((n, b)) => tool_call_parts(text@) == Some((n@, b@)),
            None => tool_call_parts(text@) is None,
        },
{
    let v = chars_of(text);
    let open = chars_of("<tool_call name=\"");
    let quote = chars_of("\"");
    let close = chars_of("</tool_call>");
    let mut k: usize = 0;
    proof {
        reveal_strlit("\"");
        reveal_strlit("<tool_call name=\"");
    }
    loop
        invariant
            v@ == text@,
            open@ == tool_call_open(),
            quote@ == "\""@,
            quote@.len() == 1,
            open@.len() == 17,
            close@ == tool_call_close(),
            k <= v@.len(),
            forall|j: int| 0 <= j < k ==> !tool_call_at(v@, j),
        decreases v@.len() - k,
    {
        match find_from_exec(&v, &open, k) {
            None => {
                proof {
                    assert forall|j: int| 0 <= j implies !tool_call_at(v@, j) by {
                        if j >= k && tool_call_at(v@, j) {
                            lemma_occurrence_has_first(v@, open@, k as int, j);
                        }
                    }
                    assert(!exists|i: int| first_tool_call(v@, i));
                }
                return None;
            },
            Some(i) => {
                assert(is_first_from(v@, open@, k as int, i as int));
                let _n = v.len();
                let start = i + open.len();
                let found = match find_from_exec(&v, &quote, start) {
                    Some(q) => {
                        assert(occurs_at(v@, quote@, q as int));
                        assert(q + 1 <= v@.len());
                        if q > start && q + 1 < v.len() && v[q + 1] == '>' {
                            match find_from_exec(&v, &close, q + 2) {
                                Some(t) => {
                                    assert(occurs_at(v@, close@, t as int));
                                    Some((q, t))
                                },
                                None => None,
                            }
                        } else {
                            None
                        }
                    },
                    None => None,
                };
                match found {
                    Some((q, t)) => {
                        assert(tool_call_at(v@, i as int));
                        assert(first_tool_call(v@, i as int));
                        proof {
                            let c = choose|c: int| first_tool_call(v@, c);
                            assert(c == i);
                        }
                        let name = substring(text, start, q);
                        let (a, b) = trim_bounds(&v, q + 2, t);
                        let body = substring(text, a, b);
                        return Some((name, body));
                    },
                    None => {
                        assert(!tool_call_at(v@, i as int));
                        k = i + 1;
                    },
                }
            },
        }
    }
}

/// What a tag block holds never contains its closing tag: the block ends at
/// the first closing tag after the opening one.
pub proof fn law_block_stops_at_first_close(s: Seq<char>, open: Seq<char>, close: Seq<char>, k: int)
    requires
        close.len() > 0,
        tag_block(s, open, close) is Some,
    ensures
        !occurs_at(tag_block(s, open, close)->0, close, k),
{
    let i = find_from(s, open, 0)->0;
    let j = find_from(s, close, i + open.len())->0;
    let b = s.subrange(i + open.len(), j);
    assert(is_first_from(s, close, i + open.len(), j));
    if occurs_at(b, close, k) {
        let at = i + open.len() + k;
        assert(s.subrange(at, at + close.len()) =~= b.subrange(k, k + close.len()));
        assert(occurs_at(s, close, at));
        assert(at < j);
        assert(!occurs_at(s, close, at));
    }
}

/// A final report has no white space at either end.
pub proof fn law_report_trimmed(s: Seq<char>)
    requires
        spec_parse_finish(s) is Some,
    ensures
        spec_parse_finish(s)->0 == trim(spec_parse_finish(s)->0),
{
    let b = tag_block(s, "<finish>"@, "</finish>"@)->0;
    lemma_trim_idempotent(b);
}

} // verus!
